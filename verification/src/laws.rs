//! What holds of the adapter as a whole.

use crate::adapter;
use crate::adapter::{AdapterView, LoginView};
use crate::channel::{ContentView, StatusView};
use crate::cycle;
use crate::cycle::{PollCommandView, PollInputView, PollStateView, StepView};
use crate::http;
use crate::http::ReplyView;
use crate::inbound;
use crate::json::JsonView;
use crate::login;
use crate::login::{LoginActionView, LoginEventView, LoginStateView};
use crate::outbound;
use crate::outside;
use crate::poll;
use crate::poll::{PollAction, PollEventView};
use crate::state::AccountView;
use crate::text;
use crate::time::Timestamp;
use vstd::prelude::*;

verus! {

/// A login in the environment comes before one in the state directory, and before one the adapter
/// has already.
pub proof fn law_environment_comes_first(
    adapter: AdapterView,
    env_token: Option<Seq<char>>,
    env_account_id: Option<Seq<char>>,
    account: Option<AccountView>,
    cursor: Option<Seq<char>>,
)
    ensures
        ({
            let loaded = adapter.loaded(env_token, env_account_id, account, cursor);
            &&& adapter::from_environment(env_token) is Some ==> loaded.bot_token
                == adapter::from_environment(env_token)
            &&& adapter::from_environment(env_account_id) is Some ==> loaded.account_id
                == adapter::from_environment(env_account_id)
        }),
{
}

/// How many slashes the base URL ends with does not matter to the URLs of the endpoints.
pub proof fn law_trailing_slashes_do_not_matter(adapter: AdapterView, endpoint: Seq<char>)
    ensures
        (AdapterView { api_base_url: adapter.api_base_url.push('/'), ..adapter }).api_url(endpoint)
            == adapter.api_url(endpoint),
{
    let longer = adapter.api_base_url.push('/');
    assert(longer.drop_last() == adapter.api_base_url);
}

/// An adapter that names no one, or names `*`, listens to everyone; one that names people listens
/// to those.
pub proof fn law_whom_the_adapter_listens_to(adapter: AdapterView, user_id: Seq<char>)
    ensures
        adapter.allowed_users.len() == 0 ==> adapter.allows(user_id),
        adapter.allowed_users.contains("*"@) ==> adapter.allows(user_id),
        adapter.allowed_users.len() > 0 && !adapter.allowed_users.contains("*"@) ==> (
        adapter.allows(user_id) <==> adapter.allowed_users.contains(user_id)),
{
}

/// A message from someone the adapter does not listen to leaves no trace and is not handed on.
pub proof fn law_strangers_leave_no_trace(adapter: AdapterView, message: JsonView)
    requires
        !inbound::admits(adapter, message),
    ensures
        inbound::after_seeing(adapter, message) == adapter,
        !inbound::hands_on(adapter, message),
{
}

proof fn lemma_context_token_in_document(
    user_id: Seq<char>,
    content: Seq<char>,
    client_id: Seq<char>,
    token: Seq<char>,
    channel_version: Seq<char>,
)
    ensures
        outbound::send_document(user_id, content, client_id, token, channel_version).member(
            "msg"@,
        ) matches Some(msg) && msg.text_at("context_token"@) == Some(token) && msg.text_at(
            "to_user_id"@,
        ) == Some(user_id) && msg.items_at("item_list"@) == outbound::text_items(
            content,
        )->Array_0,
{
    reveal_strlit("msg");
    reveal_strlit("base_info");
    assert("msg"@.len() != "base_info"@.len());
    reveal_strlit("to_user_id");
    reveal_strlit("client_id");
    reveal_strlit("message_type");
    reveal_strlit("message_state");
    reveal_strlit("item_list");
    reveal_strlit("context_token");
    assert("to_user_id"@[0] == 't');
    assert("client_id"@[0] == 'c');
    assert("message_type"@[0] == 'm');
    assert("message_state"@[0] == 'm');
    assert("item_list"@[0] == 'i');
    assert("context_token"@[0] == 'c');
}

/// The context token that came with a user's message goes along with what is sent to that user
/// next, and what goes along to anyone else stays what it was.
pub proof fn law_context_token_is_echoed(
    adapter: AdapterView,
    message: JsonView,
    other: Seq<char>,
    content: Seq<char>,
    client_id: Seq<char>,
    channel_version: Seq<char>,
)
    requires
        inbound::admits(adapter, message),
        inbound::context_token(message) is Some,
        other != inbound::sender(message).unwrap(),
    ensures
        ({
            let user = inbound::sender(message).unwrap();
            let after = inbound::after_seeing(adapter, message);
            let token = outbound::context_to_send(after, user);
            let document = outbound::send_document(
                user,
                content,
                client_id,
                token,
                channel_version,
            );
            &&& token == inbound::context_token(message).unwrap()
            &&& document.member("msg"@) matches Some(msg) && msg.text_at("context_token"@)
                == Some(token)
            &&& outbound::context_to_send(after, other) == outbound::context_to_send(adapter, other)
        }),
{
    let user = inbound::sender(message).unwrap();
    let token = inbound::context_token(message).unwrap();
    lemma_context_token_in_document(user, content, client_id, token, channel_version);
}

proof fn lemma_trimmed_start_is_stable(s: Seq<char>)
    ensures
        text::trimmed_start(s).len() > 0 ==> !text::is_white_space(text::trimmed_start(s).first()),
        text::trimmed_start(text::trimmed_start(s)) == text::trimmed_start(s),
    decreases s.len(),
{
    if s.len() > 0 && text::is_white_space(s.first()) {
        lemma_trimmed_start_is_stable(s.drop_first());
    }
}

proof fn lemma_trimmed_end_is_stable(s: Seq<char>)
    ensures
        text::trimmed_end(s).len() <= s.len(),
        text::trimmed_end(s) == s.take(text::trimmed_end(s).len() as int),
        text::trimmed_end(text::trimmed_end(s)) == text::trimmed_end(s),
    decreases s.len(),
{
    if s.len() > 0 && text::is_white_space(s.last()) {
        let rest = s.drop_last();
        lemma_trimmed_end_is_stable(rest);
        let kept = text::trimmed_end(rest);
        assert(rest.take(kept.len() as int) == s.take(kept.len() as int));
    } else {
        assert(s.take(s.len() as int) == s);
    }
}

/// Trimming a text a second time changes nothing.
pub proof fn law_trimming_is_stable(s: Seq<char>)
    ensures
        text::trimmed(text::trimmed(s)) == text::trimmed(s),
{
    lemma_trimmed_start_is_stable(s);
    let middle = text::trimmed_start(s);
    lemma_trimmed_end_is_stable(middle);
    let kept = text::trimmed(s);
    if kept.len() > 0 {
        assert(kept.first() == middle.first());
    }
    assert(text::trimmed_start(kept) == kept);
}

/// What is read out of a message neither begins nor ends with white space.
pub proof fn law_extracted_text_is_trimmed(items: Seq<JsonView>)
    ensures
        text::trimmed(inbound::items_text(items)) == inbound::items_text(items),
    decreases items.len(),
{
    if items.len() > 0 {
        let item = items.first();
        match inbound::item_text(item) {
            Some(t) => {
                if let Some(said) = inbound::inner_text(item, "text_item"@) {
                    law_trimming_is_stable(said);
                }
                if let Some(said) = inbound::inner_text(item, "voice_item"@) {
                    law_trimming_is_stable(said);
                }
            },
            None => {
                law_extracted_text_is_trimmed(items.drop_first());
            },
        }
    }
}

/// What is sent reads as what was to be said, but for white space at its ends: the items of an
/// outgoing message say its content.
pub proof fn law_sent_items_say_the_content(content: Seq<char>)
    ensures
        inbound::items_text(outbound::text_items(content)->Array_0) == text::trimmed(content),
{
    reveal_strlit("type");
    reveal_strlit("text_item");
    assert("type"@.len() != "text_item"@.len());
    let items = outbound::text_items(content)->Array_0;
    assert(items.first().unsigned_at("type"@) == Some(1int));
    assert(inbound::inner_text(items.first(), "text_item"@) == Some(content));
}

/// Whether a message is handed on depends on the list of people to listen to alone.
pub proof fn law_handing_on_goes_by_the_list_alone(
    a: AdapterView,
    b: AdapterView,
    messages: Seq<JsonView>,
    from: int,
)
    requires
        a.allowed_users == b.allowed_users,
    ensures
        forall|message: JsonView|
            inbound::hands_on(a, message) == #[trigger] inbound::hands_on(b, message),
        inbound::next_to_hand_on(a, messages, from) == inbound::next_to_hand_on(b, messages, from),
    decreases messages.len() - from,
{
    if from < messages.len() {
        law_handing_on_goes_by_the_list_alone(a, b, messages, from + 1);
    }
}

/// The next message to hand on is the first from `from` on that is to be handed on.
pub proof fn law_next_is_the_first(adapter: AdapterView, messages: Seq<JsonView>, from: int)
    requires
        0 <= from <= messages.len(),
    ensures
        ({
            let at = inbound::next_to_hand_on(adapter, messages, from);
            &&& from <= at <= messages.len()
            &&& at < messages.len() ==> inbound::hands_on(adapter, messages[at])
            &&& forall|i: int|
                from <= i < at ==> !inbound::hands_on(adapter, #[trigger] messages[i])
        }),
    decreases messages.len() - from,
{
    if from < messages.len() && !inbound::hands_on(adapter, messages[from]) {
        law_next_is_the_first(adapter, messages, from + 1);
    }
}

/// The context token that a user sent last, counting the messages from `from` up to but not
/// including `to` that the adapter listens to and that bring one; before those, the one that the
/// adapter has already.
pub open spec fn last_context_token(
    adapter: AdapterView,
    messages: Seq<JsonView>,
    from: int,
    to: int,
    user: Seq<char>,
) -> Option<Seq<char>>
    decreases to - from,
{
    if from >= to {
        adapter.context_token(user)
    } else {
        let message = messages[to - 1];
        if inbound::sender(message) == Some(user) && inbound::admits(adapter, message)
            && inbound::context_token(message) is Some {
            inbound::context_token(message)
        } else {
            last_context_token(adapter, messages, from, to - 1, user)
        }
    }
}

/// After the adapter has seen messages, it has of every user the context token that the user sent
/// last.
pub proof fn law_last_context_token_is_kept(
    adapter: AdapterView,
    messages: Seq<JsonView>,
    from: int,
    to: int,
    user: Seq<char>,
)
    requires
        0 <= from <= to <= messages.len(),
    ensures
        inbound::after_seeing_range(adapter, messages, from, to).context_token(user)
            == last_context_token(adapter, messages, from, to, user),
    decreases to - from,
{
    if from < to {
        inbound::lemma_seeing_one_more(adapter, messages, from, to - 1);
        inbound::lemma_seeing_keeps_the_rest(adapter, messages, from, to - 1);
        law_last_context_token_is_kept(adapter, messages, from, to - 1, user);
    }
}

proof fn lemma_part_occurs(before: Seq<char>, part: Seq<char>, after: Seq<char>)
    ensures
        text::occurs(before + part + after, part),
{
    let whole = before + part + after;
    let at = before.len() as int;
    assert(whole.subrange(at, at + part.len()) == part);
    assert(text::occurs_at(whole, part, at));
}

/// Where the bot API says that the login has run out, by either of its two codes, the poll fails,
/// the polling loop forgets the login, and the next poll begins with a new one.
pub proof fn law_expired_login_is_renewed(
    adapter: AdapterView,
    document: JsonView,
    pause: int,
    channel_version: Seq<char>,
    step: StepView,
    next: StepView,
)
    requires
        poll::code_at(document, "ret"@) == poll::SESSION_EXPIRED_ERRCODE || poll::code_at(
            document,
            "errcode"@,
        ) == poll::SESSION_EXPIRED_ERRCODE,
    ensures
        poll::reported_error(document) matches Some(message) && {
            let after = poll::poll_step(adapter, pause, PollEventView::Polled(Some(message))).0;
            &&& cycle::is_answer_step(adapter, document, step) ==> step == cycle::ends_with(
                adapter,
                message,
            )
            &&& after.bot_token is None
            &&& cycle::is_poll_step(
                after,
                PollStateView::Start,
                PollInputView::Begin,
                channel_version,
                next,
            ) ==> next == cycle::goes_on_logging_in(
                after,
                (
                    LoginStateView::CodeRequested,
                    LoginActionView::Get(login::code_request(after)),
                ),
            )
        },
{
    let ret = poll::code_at(document, "ret"@);
    let errcode = poll::code_at(document, "errcode"@);
    let errmsg = match document.text_at("errmsg"@) {
        Some(message) => message,
        None => "unknown"@,
    };
    let code = text::signed_decimal(poll::SESSION_EXPIRED_ERRCODE as int);
    let message = poll::api_error(ret, errcode, errmsg);
    let head = "WeChat getUpdates API error ret="@;
    if ret == poll::SESSION_EXPIRED_ERRCODE {
        let rest = " errcode="@ + text::signed_decimal(errcode) + " errmsg="@ + errmsg;
        lemma_part_occurs(head, code, rest);
        assert(head + code + rest =~= message);
    } else {
        let first = head + text::signed_decimal(ret) + " errcode="@;
        lemma_part_occurs(first, code, " errmsg="@ + errmsg);
        assert(first + code + (" errmsg="@ + errmsg) =~= message);
    }
}

/// A failure that does not say that the login has run out leaves the login as it is; every failure
/// is noted, and changes nothing else.
pub proof fn law_failures_are_noted(adapter: AdapterView, pause: int, message: Seq<char>)
    ensures
        ({
            let after = poll::poll_step(adapter, pause, PollEventView::Polled(Some(message))).0;
            &&& after.runtime == (StatusView { last_error: Some(message), ..adapter.runtime })
            &&& !poll::session_expired(message) ==> after.bot_token == adapter.bot_token
            &&& after == (AdapterView {
                bot_token: after.bot_token,
                runtime: after.runtime,
                ..adapter
            })
        }),
{
}

/// The pause that follows after `failures` failures one right after the other.
pub open spec fn pause_after(failures: nat) -> int
    decreases failures,
{
    if failures == 0 {
        poll::INITIAL_BACKOFF_SECS as int
    } else {
        poll::longer(pause_after((failures - 1) as nat))
    }
}

/// The pauses double from the first to the longest, and stay there.
pub proof fn law_pauses_double_up_to_the_longest(failures: nat)
    ensures
        pause_after(failures) == if failures == 0 {
            2int
        } else if failures == 1 {
            4
        } else if failures == 2 {
            8
        } else if failures == 3 {
            16
        } else {
            30
        },
    decreases failures,
{
    if failures > 0 {
        law_pauses_double_up_to_the_longest((failures - 1) as nat);
    }
}

/// The adapter and the pace after the events, one after the other.
pub open spec fn after_events(
    adapter: AdapterView,
    pause: int,
    events: Seq<PollEventView>,
) -> (AdapterView, int)
    decreases events.len(),
{
    if events.len() == 0 {
        (adapter, pause)
    } else {
        let (adapter, pause) = after_events(adapter, pause, events.drop_last());
        let step = poll::poll_step(adapter, pause, events.last());
        (step.0, step.1)
    }
}

/// Whatever happens, every pause lies between the first and the longest.
pub proof fn law_pauses_are_bounded(
    adapter: AdapterView,
    events: Seq<PollEventView>,
    next: PollEventView,
)
    ensures
        ({
            let (adapter, pause) = after_events(
                adapter,
                poll::INITIAL_BACKOFF_SECS as int,
                events,
            );
            &&& poll::INITIAL_BACKOFF_SECS <= pause <= poll::MAX_BACKOFF_SECS
            &&& poll::poll_step(adapter, pause, next).2 matches PollAction::PollAfter(secs)
                ==> poll::INITIAL_BACKOFF_SECS <= secs <= poll::MAX_BACKOFF_SECS
        }),
    decreases events.len(),
{
    if events.len() > 0 {
        law_pauses_are_bounded(adapter, events.drop_last(), events.last());
    }
}

/// How many polls have failed since the last that succeeded, or since the beginning where none has.
pub open spec fn failures_in_a_row(events: Seq<PollEventView>) -> nat
    decreases events.len(),
{
    if events.len() == 0 {
        0
    } else {
        match events.last() {
            PollEventView::Polled(None) => 0,
            PollEventView::Polled(Some(_)) => failures_in_a_row(events.drop_last()) + 1,
            PollEventView::Shutdown(_) => failures_in_a_row(events.drop_last()),
        }
    }
}

/// Whatever has happened since the beginning, the pause after the next failure is the one for the
/// number of failures since the last success, or since the beginning where there was none.
pub proof fn law_pauses_go_by_the_failures_in_a_row(
    adapter: AdapterView,
    events: Seq<PollEventView>,
    message: Seq<char>,
)
    ensures
        ({
            let (adapter, pause) = after_events(
                adapter,
                poll::INITIAL_BACKOFF_SECS as int,
                events,
            );
            &&& pause == pause_after(failures_in_a_row(events))
            &&& poll::poll_step(adapter, pause, PollEventView::Polled(Some(message))).2
                == PollAction::PollAfter(pause_after(failures_in_a_row(events)) as u64)
        }),
    decreases events.len(),
{
    if events.len() > 0 {
        law_pauses_go_by_the_failures_in_a_row(adapter, events.drop_last(), message);
    }
}

/// The polling loop ends when it is told to stop, and at no other time.
pub proof fn law_loop_ends_only_when_told(adapter: AdapterView, pause: int, event: PollEventView)
    ensures
        poll::poll_step(adapter, pause, event).2 == PollAction::Stop <==> event
            == PollEventView::Shutdown(true),
{
}

/// The QR code that a login waits for, where it waits for one.
pub open spec fn awaited_code(state: LoginStateView) -> Option<Seq<char>> {
    match state {
        LoginStateView::Waiting { qrcode } => Some(qrcode),
        LoginStateView::StatusRequested { qrcode } => Some(qrcode),
        _ => None,
    }
}

/// A request for the status that times out does not end a login: as long as there is time left, the
/// status of the same QR code is asked for again.
pub proof fn law_timeouts_keep_the_login_waiting(
    adapter: AdapterView,
    qrcode: Seq<char>,
    message: Seq<char>,
    elapsed: int,
)
    requires
        elapsed < login::LOGIN_DEADLINE_SECS,
    ensures
        ({
            let asked = LoginStateView::StatusRequested { qrcode };
            let timed_out = LoginEventView::Reply(ReplyView::TimedOut(message));
            let waiting = login::login_step(adapter, asked, timed_out);
            &&& waiting == (LoginStateView::Waiting { qrcode }, LoginActionView::CheckClock)
            &&& login::login_step(adapter, waiting.0, LoginEventView::Elapsed(elapsed)) == (
                asked,
                LoginActionView::Get(login::status_request(adapter, qrcode)),
            )
        }),
{
}

/// Once the time is up, a login that waits fails.
pub proof fn law_login_waits_no_longer_than_its_time(
    adapter: AdapterView,
    qrcode: Seq<char>,
    elapsed: int,
)
    requires
        elapsed >= login::LOGIN_DEADLINE_SECS,
    ensures
        login::login_step(
            adapter,
            LoginStateView::Waiting { qrcode },
            LoginEventView::Elapsed(elapsed),
        ) == login::failed("Timed out waiting for WeChat QR confirmation"@),
{
}

/// A login is granted only by a document that says that it is confirmed, in answer to a request for
/// the status, and with the values that stand in that document.
pub proof fn law_only_a_confirmation_grants_a_login(
    adapter: AdapterView,
    state: LoginStateView,
    event: LoginEventView,
)
    ensures
        login::login_step(adapter, state, event).1 matches LoginActionView::Finished {
            login: granted,
            ..
        } ==> {
            &&& state is StatusRequested
            &&& event matches LoginEventView::Reply(ReplyView::Body(bytes))
            &&& outside::json_document(bytes) matches Some(document)
            &&& document.text_at("status"@) == Some("confirmed"@)
            &&& document.text_at("bot_token"@) == Some(granted.bot_token)
            &&& document.text_at("ilink_bot_id"@) == Some(granted.account_id)
            &&& document.text_at("ilink_user_id"@) == granted.user_id
        },
{
    reveal_strlit("wait");
    reveal_strlit("confirmed");
    assert("wait"@.len() != "confirmed"@.len());
}

/// A document that confirms the login and names its token and its account grants it.
pub proof fn law_a_confirmation_grants_the_login(
    adapter: AdapterView,
    qrcode: Seq<char>,
    bytes: Seq<u8>,
    document: JsonView,
)
    requires
        outside::json_document(bytes) == Some(document),
        document.text_at("status"@) == Some("confirmed"@),
        document.text_at("bot_token"@) is Some,
        document.text_at("ilink_bot_id"@) is Some,
    ensures
        login::login_step(
            adapter,
            LoginStateView::StatusRequested { qrcode },
            LoginEventView::Reply(ReplyView::Body(bytes)),
        ) == (
            LoginStateView::Ended,
            LoginActionView::Finished {
                login: LoginView {
                    bot_token: document.text_at("bot_token"@).unwrap(),
                    account_id: document.text_at("ilink_bot_id"@).unwrap(),
                    user_id: document.text_at("ilink_user_id"@),
                },
                notice: "WeChat connected."@,
            },
        ),
{
}

/// A login ends exactly when it is granted or fails, stays ended from then on, and never waits for
/// another QR code than the one it has shown.
pub proof fn law_logins_end_once(
    adapter: AdapterView,
    state: LoginStateView,
    event: LoginEventView,
)
    ensures
        ({
            let (next, action) = login::login_step(adapter, state, event);
            &&& state !is Ended ==> (next is Ended <==> action is Finished || action is Failed)
            &&& state is Ended ==> next is Ended && action is Nothing
            &&& awaited_code(state) is Some ==> next is Ended || awaited_code(next)
                == awaited_code(state)
        }),
{
}

/// Whatever the token, every header of a request may stand in a request; the token goes along
/// exactly where there is one and it may stand in a header.
pub proof fn law_headers_are_sound(token: Option<Seq<char>>)
    ensures
        forall|i: int|
            0 <= i < http::api_headers(token).len() ==> outside::is_header_text(
                (#[trigger] http::api_headers(token)[i]).1,
            ),
        http::api_headers(token).len() == 3 <==> (token matches Some(token) && token.len() > 0
            && outside::is_header_text(token)),
        http::api_headers(token).len() == 3 ==> http::api_headers(token)[2] == (
            "authorization"@,
            "Bearer "@ + token.unwrap(),
        ),
{
    reveal_strlit("application/json");
    reveal_strlit("ilink_bot_token");
    reveal_strlit("Bearer ");
    if let Some(token) = token {
        let value = "Bearer "@ + token;
        assert forall|i: int| 0 <= i < token.len() implies token[i] == #[trigger] value[i + 7] by {}
        if outside::is_header_text(value) {
            assert forall|i: int| 0 <= i < token.len() implies (#[trigger] token[i]) == '\t' || (
            token[i] >= ' ' && token[i] != '\u{7f}') by {
                assert(value[i + 7] == token[i]);
            }
        }
        if outside::is_header_text(token) {
            assert forall|i: int| 0 <= i < value.len() implies (#[trigger] value[i]) == '\t' || (
            value[i] >= ' ' && value[i] != '\u{7f}') by {
                if i >= 7 {
                    assert(value[i] == token[i - 7]);
                }
            }
        }
    }
}

/// The first start is the one that is noted, whether the adapter is started again, stopped or
/// logged in.
pub proof fn law_first_start_is_kept(
    adapter: AdapterView,
    first: Timestamp,
    later: Timestamp,
    login: LoginView,
)
    requires
        adapter.runtime.started_at is None,
    ensures
        ({
            let started = adapter.after_start(first);
            &&& started.runtime.started_at == Some(first)
            &&& started.after_start(later).runtime.started_at == Some(first)
            &&& started.after_stop().runtime.started_at == Some(first)
            &&& started.logged_in(login, later).runtime.started_at == Some(first)
            &&& adapter.logged_in(login, first).after_start(later).runtime.started_at == Some(first)
        }),
{
}

/// An adapter that has been started is connected exactly where it is logged in; one that has been
/// stopped is not; and stopping does not log out, so that another start connects it again.
pub proof fn law_connected_means_logged_in(
    adapter: AdapterView,
    now: Timestamp,
    later: Timestamp,
    login: LoginView,
)
    ensures
        adapter.after_start(now).runtime.connected <==> adapter.bot_token is Some,
        !adapter.after_stop().runtime.connected,
        adapter.after_stop().bot_token == adapter.bot_token,
        adapter.after_stop().after_start(later).runtime.connected <==> adapter.bot_token is Some,
        adapter.logged_in(login, now).runtime.connected,
        adapter.after_start(now).runtime.last_error is None,
        adapter.logged_in(login, now).runtime.last_error is None,
{
}

/// A poll begins with a login exactly where there is none, and else with the request for updates.
pub proof fn law_login_comes_before_updates(
    adapter: AdapterView,
    channel_version: Seq<char>,
    step: StepView,
)
    requires
        cycle::is_poll_step(
            adapter,
            PollStateView::Start,
            PollInputView::Begin,
            channel_version,
            step,
        ),
    ensures
        step.adapter == adapter,
        step.command is Login <==> adapter.bot_token is None,
        step.command is Post <==> adapter.bot_token is Some,
{
}

pub(crate) proof fn lemma_delivery(
    adapter: AdapterView,
    messages: Seq<JsonView>,
    seen: int,
    save: Option<Seq<char>>,
    step: StepView,
)
    requires
        0 <= seen <= messages.len(),
        cycle::is_delivery(adapter, messages, seen, save, step),
    ensures
        ({
            let at = inbound::next_to_hand_on(adapter, messages, seen);
            &&& step.adapter == (AdapterView {
                context_tokens: step.adapter.context_tokens,
                ..adapter
            })
            &&& at == messages.len() ==> step.state is Ended && step.command
                == (PollCommandView::Done { save, error: None })
            &&& at < messages.len() ==> {
                &&& step.state == (PollStateView::Delivering { messages, seen: at + 1 })
                &&& step.command matches PollCommandView::Deliver { save: saved, message }
                &&& saved == save
                &&& exists|fresh: Seq<char>, now: Timestamp|
                    now.wf() && message == #[trigger] inbound::handed_on(messages[at], fresh, now)
            }
        }),
{
    let at = inbound::next_to_hand_on(adapter, messages, seen);
    law_next_is_the_first(adapter, messages, seen);
    let (fresh, now) = choose|fresh: Seq<char>, now: Timestamp|
        {
            &&& cycle::drawn_for(adapter, messages, seen, fresh)
            &&& now.wf()
            &&& step == #[trigger] cycle::hands_on_next(adapter, messages, seen, save, fresh, now)
        };
    if at < messages.len() {
        inbound::lemma_seeing_keeps_the_rest(adapter, messages, seen, at + 1);
        assert(step.command->Deliver_message == inbound::handed_on(messages[at], fresh, now));
    } else {
        inbound::lemma_seeing_keeps_the_rest(adapter, messages, seen, at);
    }
}

/// A state that a poll can be in: no more messages are seen than came.
pub open spec fn possible(state: PollStateView) -> bool {
    state matches PollStateView::Delivering { messages, seen } ==> 0 <= seen <= messages.len()
}

/// The position that a command saves, where it saves one.
pub open spec fn saved_position(command: PollCommandView) -> Option<Seq<char>> {
    match command {
        PollCommandView::Deliver { save, .. } => save,
        PollCommandView::Done { save, .. } => save,
        _ => None,
    }
}

/// The login that a command saves, where it saves one.
pub open spec fn saved_login(command: PollCommandView) -> Option<AccountView> {
    match command {
        PollCommandView::Post { granted: Some((_, account)), .. } => Some(account),
        _ => None,
    }
}

/// What every step of a poll keeps: the position changes only to the one that the step saves, the
/// login only to the one that the step saves, and the configuration, the count of messages sent and
/// the signal to stop not at all. A step that ends the poll with an error changes nothing.
pub proof fn law_every_step_saves_what_it_changes(
    adapter: AdapterView,
    state: PollStateView,
    input: PollInputView,
    channel_version: Seq<char>,
    step: StepView,
)
    requires
        possible(state),
        cycle::is_poll_step(adapter, state, input, channel_version, step),
    ensures
        possible(step.state),
        step.adapter.cursor == match saved_position(step.command) {
            Some(cursor) => cursor,
            None => adapter.cursor,
        },
        match saved_login(step.command) {
            Some(account) => {
                &&& account.token == step.adapter.bot_token
                &&& account.account_id == step.adapter.account_id
                &&& step.adapter.bot_token is Some
                &&& step.adapter.account_id is Some
            },
            None => {
                &&& step.adapter.bot_token == adapter.bot_token
                &&& step.adapter.account_id == adapter.account_id
            },
        },
        step.adapter == (AdapterView {
            bot_token: step.adapter.bot_token,
            account_id: step.adapter.account_id,
            context_tokens: step.adapter.context_tokens,
            cursor: step.adapter.cursor,
            runtime: step.adapter.runtime,
            ..adapter
        }),
        step.adapter.runtime.messages_sent == adapter.runtime.messages_sent,
        step.command matches PollCommandView::Done { error: Some(_), .. } ==> {
            &&& step.adapter == adapter
            &&& step.state is Ended
            &&& saved_position(step.command) is None
        },
{
    match (state, input) {
        (PollStateView::Requested, PollInputView::Reply(reply)) => {
            if let Ok(document) = http::payload(reply, "WeChat getUpdates failed"@) {
                if poll::reported_error(document) is None {
                    let after = poll::after_updates(adapter, document);
                    let messages = document.items_at("msgs"@);
                    lemma_delivery(after, messages, 0, poll::next_cursor(document), step);
                    law_next_is_the_first(after, messages, 0);
                }
            }
        },
        (PollStateView::Delivering { messages, seen }, PollInputView::HandedOn(true)) => {
            let now = choose|now: Timestamp|
                now.wf() && cycle::is_delivery(
                    #[trigger] adapter.after_delivery(now),
                    messages,
                    seen,
                    None,
                    step,
                );
            let after = adapter.after_delivery(now);
            lemma_delivery(after, messages, seen, None, step);
            law_next_is_the_first(after, messages, seen);
        },
        _ => {},
    }
}

/// A poll that fails leaves the adapter as it was in the step before, and saves nothing.
pub proof fn law_failed_polls_change_nothing(
    adapter: AdapterView,
    state: PollStateView,
    input: PollInputView,
    channel_version: Seq<char>,
    step: StepView,
)
    requires
        possible(state),
        cycle::is_poll_step(adapter, state, input, channel_version, step),
        step.command matches PollCommandView::Done { error: Some(_), .. },
    ensures
        step.adapter == adapter,
        step.state is Ended,
        saved_position(step.command) is None,
{
    law_every_step_saves_what_it_changes(adapter, state, input, channel_version, step);
}

/// A poll that has come to its end stays there, and does nothing more.
pub proof fn law_ended_polls_stay_ended(
    adapter: AdapterView,
    input: PollInputView,
    channel_version: Seq<char>,
    step: StepView,
)
    requires
        cycle::is_poll_step(adapter, PollStateView::Ended, input, channel_version, step),
    ensures
        step == (StepView {
            adapter,
            state: PollStateView::Ended,
            command: PollCommandView::Nothing,
        }),
{
}

/// After one message has been handed on, the next of the same answer that is to be handed on is
/// handed on: none that is to be is passed over, none comes twice, and where there is none left the
/// poll ends well. The one that was handed on is counted.
pub proof fn law_polls_pass_over_nothing(
    adapter: AdapterView,
    messages: Seq<JsonView>,
    seen: int,
    channel_version: Seq<char>,
    step: StepView,
)
    requires
        0 <= seen <= messages.len(),
        cycle::is_poll_step(
            adapter,
            PollStateView::Delivering { messages, seen },
            PollInputView::HandedOn(true),
            channel_version,
            step,
        ),
    ensures
        step.adapter.runtime.messages_received == adapter.runtime.messages_received + 1,
        step.adapter.runtime.last_message_at is Some,
        step.command is Deliver || step.command == (PollCommandView::Done {
            save: None,
            error: None,
        }),
        step.command is Deliver ==> {
            &&& step.state matches PollStateView::Delivering { messages: same, seen: next }
            &&& same == messages
            &&& seen < next <= messages.len()
            &&& inbound::hands_on(adapter, messages[next - 1])
            &&& forall|i: int|
                seen <= i < next - 1 ==> !inbound::hands_on(adapter, #[trigger] messages[i])
            &&& exists|fresh: Seq<char>, now: Timestamp|
                step.command->Deliver_message == #[trigger] inbound::handed_on(
                    messages[next - 1],
                    fresh,
                    now,
                )
        },
        step.command is Done ==> forall|i: int|
            seen <= i < messages.len() ==> !inbound::hands_on(adapter, #[trigger] messages[i]),
{
    let moment = choose|now: Timestamp|
        now.wf() && cycle::is_delivery(
            #[trigger] adapter.after_delivery(now),
            messages,
            seen,
            None,
            step,
        );
    let after = adapter.after_delivery(moment);
    lemma_delivery(after, messages, seen, None, step);
    law_next_is_the_first(after, messages, seen);
    law_handing_on_goes_by_the_list_alone(after, adapter, messages, seen);
    assert forall|message: JsonView| inbound::hands_on(after, message) == #[trigger]
        inbound::hands_on(adapter, message) by {}
}

/// The first message that an answer brings to be handed on is handed on, together with the new
/// position where there is one.
pub proof fn law_position_is_saved_before_handing_on(
    adapter: AdapterView,
    document: JsonView,
    step: StepView,
)
    requires
        cycle::is_answer_step(adapter, document, step),
        poll::reported_error(document) is None,
    ensures
        step.command is Deliver || step.command is Done,
        saved_position(step.command) == poll::next_cursor(document),
        step.adapter.cursor == match poll::next_cursor(document) {
            Some(cursor) => cursor,
            None => adapter.cursor,
        },
{
    let after = poll::after_updates(adapter, document);
    let messages = document.items_at("msgs"@);
    lemma_delivery(after, messages, 0, poll::next_cursor(document), step);
    law_next_is_the_first(after, messages, 0);
}

/// Every message that is handed on comes from someone the adapter listens to and says something,
/// without white space at its ends.
pub proof fn law_what_is_handed_on(
    adapter: AdapterView,
    message: JsonView,
    fresh: Seq<char>,
    now: Timestamp,
)
    requires
        inbound::hands_on(adapter, message),
    ensures
        ({
            let handed = inbound::handed_on(message, fresh, now);
            &&& adapter.allows(handed.sender.platform_id)
            &&& handed.sender.platform_id.len() > 0
            &&& handed.content matches ContentView::Text(said)
            &&& said.len() > 0
            &&& text::trimmed(said) == said
        }),
{
    law_extracted_text_is_trimmed(message.items_at("item_list"@));
}

/// What the state directory holds.
pub struct Kept {
    /// The login, where one was saved.
    pub account: Option<AccountView>,
    /// The position, where one was saved.
    pub cursor: Option<Seq<char>>,
}

/// What the state directory holds once a command has been carried out.
pub open spec fn kept_after(kept: Kept, command: PollCommandView) -> Kept {
    Kept {
        account: match saved_login(command) {
            Some(account) => Some(account),
            None => kept.account,
        },
        cursor: match saved_position(command) {
            Some(cursor) => Some(cursor),
            None => kept.cursor,
        },
    }
}

/// The state directory holds the position of the adapter.
pub open spec fn position_in_step(kept: Kept, adapter: AdapterView) -> bool {
    match kept.cursor {
        Some(cursor) => cursor == adapter.cursor,
        None => adapter.cursor.len() == 0,
    }
}

/// The state directory holds the token of the adapter, where the adapter has one.
pub open spec fn token_in_step(kept: Kept, adapter: AdapterView) -> bool {
    adapter.bot_token is Some ==> kept.account is Some && kept.account.unwrap().token
        == adapter.bot_token
}

/// The state directory holds the account of the adapter.
pub open spec fn account_in_step(kept: Kept, adapter: AdapterView) -> bool {
    adapter::saved_account_id(kept.account) == adapter.account_id
}

/// Every step of a poll keeps the state directory in step with the adapter, once what the step says
/// is saved has been saved: the position, the token and the account each by itself. A step in which
/// a login is granted brings token and account in step, whatever was before.
pub proof fn law_polls_keep_the_state_directory_in_step(
    kept: Kept,
    adapter: AdapterView,
    state: PollStateView,
    input: PollInputView,
    channel_version: Seq<char>,
    step: StepView,
)
    requires
        possible(state),
        cycle::is_poll_step(adapter, state, input, channel_version, step),
    ensures
        ({
            let after = kept_after(kept, step.command);
            &&& position_in_step(kept, adapter) ==> position_in_step(after, step.adapter)
            &&& token_in_step(kept, adapter) ==> token_in_step(after, step.adapter)
            &&& account_in_step(kept, adapter) ==> account_in_step(after, step.adapter)
            &&& saved_login(step.command) is Some ==> token_in_step(after, step.adapter)
                && account_in_step(after, step.adapter)
        }),
{
    law_every_step_saves_what_it_changes(adapter, state, input, channel_version, step);
}

/// What happens outside a poll keeps the state directory in step with the adapter without saving
/// anything: what the polling loop does after a poll, starting, stopping, and sending.
pub proof fn law_the_rest_keeps_the_state_directory_in_step(
    kept: Kept,
    adapter: AdapterView,
    pause: int,
    event: PollEventView,
    now: Timestamp,
    after: AdapterView,
)
    requires
        after == poll::poll_step(adapter, pause, event).0 || after == adapter.after_start(now)
            || after == adapter.after_stop() || after == adapter.after_sending(),
    ensures
        position_in_step(kept, adapter) ==> position_in_step(kept, after),
        token_in_step(kept, adapter) ==> token_in_step(kept, after),
        account_in_step(kept, adapter) ==> account_in_step(kept, after),
{
}

/// A new adapter that takes over what is kept is in step with it: its position always, its token
/// where there is none in the environment, and its account where there is none in the environment.
pub proof fn law_new_adapters_are_in_step(
    kept: Kept,
    fresh: AdapterView,
    env_token: Option<Seq<char>>,
    env_account_id: Option<Seq<char>>,
)
    requires
        fresh.bot_token is None,
        fresh.account_id is None,
        fresh.cursor.len() == 0,
    ensures
        ({
            let loaded = fresh.loaded(env_token, env_account_id, kept.account, kept.cursor);
            &&& position_in_step(kept, loaded)
            &&& adapter::from_environment(env_token) is None ==> token_in_step(kept, loaded)
            &&& adapter::from_environment(env_account_id) is None ==> account_in_step(kept, loaded)
        }),
{
}

/// Whatever the environment holds, a new adapter goes on at the position of the earlier one that
/// the state directory was in step with.
pub proof fn law_position_is_resumed(
    kept: Kept,
    earlier: AdapterView,
    fresh: AdapterView,
    env_token: Option<Seq<char>>,
    env_account_id: Option<Seq<char>>,
)
    requires
        position_in_step(kept, earlier),
        fresh.cursor.len() == 0,
    ensures
        fresh.loaded(env_token, env_account_id, kept.account, kept.cursor).cursor
            == earlier.cursor,
{
}

/// A new adapter that has no token in its environment goes on with the token of the earlier one
/// that the state directory was in step with, and needs no login. Only an empty token is not taken
/// over.
pub proof fn law_token_is_resumed(
    kept: Kept,
    earlier: AdapterView,
    fresh: AdapterView,
    env_token: Option<Seq<char>>,
    env_account_id: Option<Seq<char>>,
)
    requires
        token_in_step(kept, earlier),
        earlier.bot_token matches Some(token) && token.len() > 0,
        fresh.bot_token is None,
        adapter::from_environment(env_token) is None,
    ensures
        fresh.loaded(env_token, env_account_id, kept.account, kept.cursor).bot_token
            == earlier.bot_token,
{
}

/// A new adapter that has no account in its environment goes on with the account of the earlier one
/// that the state directory was in step with.
pub proof fn law_account_is_resumed(
    kept: Kept,
    earlier: AdapterView,
    fresh: AdapterView,
    env_token: Option<Seq<char>>,
    env_account_id: Option<Seq<char>>,
)
    requires
        account_in_step(kept, earlier),
        fresh.account_id is None,
        adapter::from_environment(env_account_id) is None,
    ensures
        fresh.loaded(env_token, env_account_id, kept.account, kept.cursor).account_id
            == earlier.account_id,
{
}

} // verus!
