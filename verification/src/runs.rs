//! Whole polls: what holds from the first step of a poll to its last.

use crate::adapter::AdapterView;
use crate::channel::{MessageView, StatusView};
use crate::cycle;
use crate::cycle::{PollCommandView, PollInputView, PollStateView, StepView};
use crate::http;
use crate::inbound;
use crate::json::JsonView;
use crate::laws;
use crate::laws::Kept;
use crate::outside;
use crate::poll;
use crate::state::AccountView;
use crate::time::Timestamp;
use vstd::prelude::*;

verus! {

/// What happened in a poll, and the step that followed.
pub struct Move {
    pub input: PollInputView,
    pub step: StepView,
}

/// The adapter after the moves.
pub open spec fn adapter_after(adapter: AdapterView, moves: Seq<Move>) -> AdapterView {
    if moves.len() == 0 {
        adapter
    } else {
        moves.last().step.adapter
    }
}

/// How far the poll has come after the moves.
pub open spec fn state_after(moves: Seq<Move>) -> PollStateView {
    if moves.len() == 0 {
        PollStateView::Start
    } else {
        moves.last().step.state
    }
}

/// The moves are those of a poll from its start on, each following from the one before.
pub open spec fn is_run(
    adapter: AdapterView,
    channel_version: Seq<char>,
    moves: Seq<Move>,
) -> bool
    decreases moves.len(),
{
    moves.len() == 0 || {
        let before = moves.drop_last();
        &&& is_run(adapter, channel_version, before)
        &&& cycle::is_poll_step(
            adapter_after(adapter, before),
            state_after(before),
            moves.last().input,
            channel_version,
            moves.last().step,
        )
    }
}

/// The document that a reply brings in a state in which updates have been asked for.
pub open spec fn answer_in(state: PollStateView, input: PollInputView) -> Option<JsonView> {
    match (state, input) {
        (PollStateView::Requested, PollInputView::Reply(reply)) => match http::payload(
            reply,
            "WeChat getUpdates failed"@,
        ) {
            Ok(document) => Some(document),
            Err(_) => None,
        },
        _ => None,
    }
}

/// The document that answered the request for updates, once it has come.
pub open spec fn answer(moves: Seq<Move>) -> Option<JsonView>
    decreases moves.len(),
{
    if moves.len() == 0 {
        None
    } else {
        let before = moves.drop_last();
        match answer(before) {
            Some(document) => Some(document),
            None => answer_in(state_after(before), moves.last().input),
        }
    }
}

/// The messages that the moves handed on, in order.
pub open spec fn delivered(moves: Seq<Move>) -> Seq<MessageView>
    decreases moves.len(),
{
    if moves.len() == 0 {
        Seq::empty()
    } else {
        match moves.last().step.command {
            PollCommandView::Deliver { message, .. } => delivered(moves.drop_last()).push(message),
            _ => delivered(moves.drop_last()),
        }
    }
}

/// There was no one left to hand a message to.
pub open spec fn cut_short(moves: Seq<Move>) -> bool
    decreases moves.len(),
{
    moves.len() > 0 && {
        let before = moves.drop_last();
        cut_short(before) || (state_after(before) is Delivering && moves.last().input
            == PollInputView::HandedOn(false))
    }
}

/// How many messages of the answer the poll has seen.
pub open spec fn seen(moves: Seq<Move>) -> int
    decreases moves.len(),
{
    if moves.len() == 0 {
        0
    } else {
        let last = moves.last();
        match (last.step.state, last.step.command) {
            (PollStateView::Delivering { seen, .. }, PollCommandView::Deliver { .. }) => seen,
            (PollStateView::Ended, PollCommandView::Done { error: None, .. }) => if last.input
                == PollInputView::HandedOn(false) {
                seen(moves.drop_last())
            } else {
                match answer(moves) {
                    Some(document) => document.items_at("msgs"@).len() as int,
                    None => 0,
                }
            },
            _ => seen(moves.drop_last()),
        }
    }
}

/// The messages from `from` on that are to be handed on, in order.
pub open spec fn to_hand_on(
    adapter: AdapterView,
    messages: Seq<JsonView>,
    from: int,
) -> Seq<JsonView>
    decreases messages.len() - from,
{
    if from >= messages.len() {
        Seq::empty()
    } else if inbound::hands_on(adapter, messages[from]) {
        seq![messages[from]] + to_hand_on(adapter, messages, from + 1)
    } else {
        to_hand_on(adapter, messages, from + 1)
    }
}

/// What was handed on is that message, under a drawn name where it has no number and with the
/// present where it gives no time.
pub open spec fn is_handed(message: JsonView, handed: MessageView) -> bool {
    exists|fresh: Seq<char>, now: Timestamp|
        {
            &&& message.unsigned_at("message_id"@) is None ==> outside::is_uuid_v4(fresh)
            &&& now.wf()
            &&& handed == #[trigger] inbound::handed_on(message, fresh, now)
        }
}

/// What was handed on are these messages, one for one.
pub open spec fn are_handed(messages: Seq<JsonView>, handed: Seq<MessageView>) -> bool {
    &&& messages.len() == handed.len()
    &&& forall|k: int|
        0 <= k < messages.len() ==> is_handed(messages[k], #[trigger] handed[k])
}

proof fn lemma_to_hand_on_goes_by_the_list(
    a: AdapterView,
    b: AdapterView,
    messages: Seq<JsonView>,
    from: int,
)
    requires
        a.allowed_users == b.allowed_users,
    ensures
        to_hand_on(a, messages, from) == to_hand_on(b, messages, from),
    decreases messages.len() - from,
{
    if from < messages.len() {
        lemma_to_hand_on_goes_by_the_list(a, b, messages, from + 1);
    }
}

proof fn lemma_next_is_first_to_hand_on(
    adapter: AdapterView,
    messages: Seq<JsonView>,
    from: int,
)
    requires
        0 <= from <= messages.len(),
    ensures
        ({
            let at = inbound::next_to_hand_on(adapter, messages, from);
            &&& from <= at <= messages.len()
            &&& at == messages.len() ==> to_hand_on(adapter, messages, from).len() == 0
            &&& at < messages.len() ==> to_hand_on(adapter, messages, from) == seq![messages[at]]
                + to_hand_on(adapter, messages, at + 1)
        }),
    decreases messages.len() - from,
{
    if from < messages.len() && !inbound::hands_on(adapter, messages[from]) {
        lemma_next_is_first_to_hand_on(adapter, messages, from + 1);
    }
}

/// Which context tokens the adapter has after messages depends on those it had and on whom it
/// listens to alone.
proof fn lemma_tokens_go_by_the_list(
    a: AdapterView,
    b: AdapterView,
    messages: Seq<JsonView>,
    from: int,
    to: int,
)
    requires
        a.allowed_users == b.allowed_users,
        a.context_tokens == b.context_tokens,
    ensures
        inbound::after_seeing_range(a, messages, from, to).context_tokens
            == inbound::after_seeing_range(b, messages, from, to).context_tokens,
    decreases to - from,
{
    if from < to {
        lemma_tokens_go_by_the_list(
            inbound::after_seeing(a, messages[from]),
            inbound::after_seeing(b, messages[from]),
            messages,
            from + 1,
            to,
        );
    }
}

proof fn lemma_seeing_in_two_parts(
    adapter: AdapterView,
    messages: Seq<JsonView>,
    from: int,
    mid: int,
    to: int,
)
    requires
        from <= mid <= to,
    ensures
        inbound::after_seeing_range(
            inbound::after_seeing_range(adapter, messages, from, mid),
            messages,
            mid,
            to,
        ) == inbound::after_seeing_range(adapter, messages, from, to),
    decreases mid - from,
{
    if from < mid {
        lemma_seeing_in_two_parts(
            inbound::after_seeing(adapter, messages[from]),
            messages,
            from + 1,
            mid,
            to,
        );
    }
}

/// What a step that hands on the next message leaves, seen from the poll as a whole: `adapter` is
/// the one the step begins with, and `first` the one the poll began with.
proof fn lemma_delivery_in_run(
    first: AdapterView,
    adapter: AdapterView,
    messages: Seq<JsonView>,
    from: int,
    save: Option<Seq<char>>,
    step: StepView,
)
    requires
        0 <= from <= messages.len(),
        adapter.allowed_users == first.allowed_users,
        adapter.context_tokens == inbound::after_seeing_range(
            first,
            messages,
            0,
            from,
        ).context_tokens,
        cycle::is_delivery(adapter, messages, from, save, step),
    ensures
        ({
            let at = inbound::next_to_hand_on(adapter, messages, from);
            let rest = to_hand_on(first, messages, from);
            let reached = if at < messages.len() {
                at + 1
            } else {
                at
            };
            &&& from <= at <= messages.len()
            &&& step.adapter == (AdapterView {
                context_tokens: step.adapter.context_tokens,
                ..adapter
            })
            &&& step.adapter.context_tokens == inbound::after_seeing_range(
                first,
                messages,
                0,
                reached,
            ).context_tokens
            &&& at == messages.len() ==> {
                &&& rest.len() == 0
                &&& step.state is Ended
                &&& step.command == (PollCommandView::Done { save, error: None })
            }
            &&& at < messages.len() ==> {
                &&& rest == seq![messages[at]] + to_hand_on(first, messages, at + 1)
                &&& step.state == (PollStateView::Delivering { messages, seen: at + 1 })
                &&& step.command matches PollCommandView::Deliver { save: saved, message }
                &&& saved == save
                &&& is_handed(messages[at], message)
            }
        }),
{
    let at = inbound::next_to_hand_on(adapter, messages, from);
    lemma_next_is_first_to_hand_on(adapter, messages, from);
    lemma_to_hand_on_goes_by_the_list(adapter, first, messages, from);
    let (fresh, now) = choose|fresh: Seq<char>, now: Timestamp|
        {
            &&& cycle::drawn_for(adapter, messages, from, fresh)
            &&& now.wf()
            &&& step == #[trigger] cycle::hands_on_next(adapter, messages, from, save, fresh, now)
        };
    let reached = if at < messages.len() {
        at + 1
    } else {
        at
    };
    let earlier = inbound::after_seeing_range(first, messages, 0, from);
    inbound::lemma_seeing_keeps_the_rest(first, messages, 0, from);
    inbound::lemma_seeing_keeps_the_rest(adapter, messages, from, reached);
    lemma_tokens_go_by_the_list(adapter, earlier, messages, from, reached);
    lemma_seeing_in_two_parts(first, messages, 0, from, reached);
    if at < messages.len() {
        lemma_to_hand_on_goes_by_the_list(adapter, first, messages, at + 1);
        assert(step.command->Deliver_message == inbound::handed_on(messages[at], fresh, now));
    }
}

/// What a poll has left undone and done before its answer has come, or where that reports an error.
spec fn has_done_nothing(adapter: AdapterView, moves: Seq<Move>) -> bool {
    let after = adapter_after(adapter, moves);
    &&& delivered(moves).len() == 0
    &&& !cut_short(moves)
    &&& seen(moves) == 0
    &&& after.cursor == adapter.cursor
    &&& after.context_tokens == adapter.context_tokens
    &&& after.runtime.messages_received == adapter.runtime.messages_received
}

/// What a poll has done with the messages of its answer.
spec fn has_handed_on(
    adapter: AdapterView,
    document: JsonView,
    moves: Seq<Move>,
) -> bool {
    let after = adapter_after(adapter, moves);
    let messages = document.items_at("msgs"@);
    let all = to_hand_on(adapter, messages, 0);
    let done = delivered(moves);
    &&& done.len() <= all.len()
    &&& are_handed(all.take(done.len() as int), done)
    &&& 0 <= seen(moves) <= messages.len()
    &&& to_hand_on(adapter, messages, seen(moves)) == all.skip(done.len() as int)
    &&& after.cursor == poll::after_updates(adapter, document).cursor
    &&& after.context_tokens == inbound::after_seeing_range(
        adapter,
        messages,
        0,
        seen(moves),
    ).context_tokens
    &&& match state_after(moves) {
        PollStateView::Delivering { messages: same, seen: k } => {
            &&& same == messages
            &&& k == seen(moves)
            &&& !cut_short(moves)
            &&& done.len() > 0
            &&& after.runtime.messages_received == adapter.runtime.messages_received + done.len()
                - 1
        },
        PollStateView::Ended => if cut_short(moves) {
            &&& done.len() > 0
            &&& after.runtime.messages_received == adapter.runtime.messages_received + done.len()
                - 1
        } else {
            &&& done.len() == all.len()
            &&& seen(moves) == messages.len()
            &&& after.runtime.messages_received == adapter.runtime.messages_received + done.len()
        },
        _ => false,
    }
}

/// What holds at every point of a poll.
spec fn run_invariant(adapter: AdapterView, moves: Seq<Move>) -> bool {
    &&& laws::possible(state_after(moves))
    &&& adapter_after(adapter, moves).allowed_users == adapter.allowed_users
    &&& match answer(moves) {
        None => {
            &&& has_done_nothing(adapter, moves)
            &&& state_after(moves) !is Delivering
        },
        Some(document) => if poll::reported_error(document) is Some {
            &&& has_done_nothing(adapter, moves)
            &&& state_after(moves) is Ended
        } else {
            has_handed_on(adapter, document, moves)
        },
    }
}

proof fn lemma_one_more_handed(
    all: Seq<JsonView>,
    rest: Seq<JsonView>,
    done: Seq<MessageView>,
    message: JsonView,
    handed: MessageView,
)
    requires
        done.len() <= all.len(),
        are_handed(all.take(done.len() as int), done),
        all.skip(done.len() as int) == seq![message] + rest,
        is_handed(message, handed),
    ensures
        done.len() + 1 <= all.len(),
        are_handed(all.take((done.len() + 1) as int), done.push(handed)),
        all.skip((done.len() + 1) as int) == rest,
{
    let n = done.len() as int;
    assert(all.skip(n).len() == 1 + rest.len());
    assert(all[n] == all.skip(n)[0]);
    assert(all.skip(n + 1) =~= all.skip(n).drop_first());
    assert(all.skip(n).drop_first() =~= rest);
    assert forall|k: int| 0 <= k < n + 1 implies is_handed(
        all.take(n + 1)[k],
        #[trigger] done.push(handed)[k],
    ) by {
        if k < n {
            assert(is_handed(all.take(n)[k], done[k]));
        }
    }
}

proof fn lemma_run(adapter: AdapterView, channel_version: Seq<char>, moves: Seq<Move>)
    requires
        is_run(adapter, channel_version, moves),
    ensures
        run_invariant(adapter, moves),
    decreases moves.len(),
{
    if moves.len() > 0 {
        let before = moves.drop_last();
        let from = adapter_after(adapter, before);
        let state = state_after(before);
        let input = moves.last().input;
        let step = moves.last().step;
        lemma_run(adapter, channel_version, before);
        laws::law_every_step_saves_what_it_changes(from, state, input, channel_version, step);
        match (state, input) {
            (PollStateView::Requested, PollInputView::Reply(reply)) => {
                if let Some(document) = answer_in(state, input) {
                    assert(answer(moves) == Some(document));
                    if poll::reported_error(document) is None {
                        let after = poll::after_updates(from, document);
                        let messages = document.items_at("msgs"@);
                        let all = to_hand_on(adapter, messages, 0);
                        let at = inbound::next_to_hand_on(after, messages, 0);
                        let save = poll::next_cursor(document);
                        lemma_delivery_in_run(adapter, after, messages, 0, save, step);
                        assert(all.take(0) =~= Seq::empty());
                        assert(all.skip(0) =~= all);
                        if at < messages.len() {
                            let handed = step.command->Deliver_message;
                            let rest = to_hand_on(adapter, messages, at + 1);
                            lemma_one_more_handed(
                                all,
                                rest,
                                delivered(before),
                                messages[at],
                                handed,
                            );
                        } else {
                            assert(to_hand_on(adapter, messages, at) =~= all.skip(0));
                        }
                    }
                }
            },
            (
                PollStateView::Delivering { messages, seen: k },
                PollInputView::HandedOn(true),
            ) => {
                let document = answer(before).unwrap();
                let all = to_hand_on(adapter, messages, 0);
                let now = choose|now: Timestamp|
                    now.wf() && cycle::is_delivery(
                        #[trigger] from.after_delivery(now),
                        messages,
                        k,
                        None,
                        step,
                    );
                let after = from.after_delivery(now);
                let at = inbound::next_to_hand_on(after, messages, k);
                lemma_delivery_in_run(adapter, after, messages, k, None, step);
                if at < messages.len() {
                    let handed = step.command->Deliver_message;
                    let rest = to_hand_on(adapter, messages, at + 1);
                    lemma_one_more_handed(all, rest, delivered(before), messages[at], handed);
                } else {
                    let n = delivered(before).len() as int;
                    assert(all.skip(n).len() == 0);
                    assert(to_hand_on(adapter, messages, at) =~= all.skip(n));
                }
            },
            _ => {},
        }
    }
}

/// The last move came after a message had been handed on.
pub open spec fn follows_a_delivery(moves: Seq<Move>) -> bool {
    &&& moves.len() > 0
    &&& state_after(moves.drop_last()) is Delivering
    &&& moves.last().input == PollInputView::HandedOn(true)
}

/// The messages of an answer are handed on in order, each once, and none that is to be handed on is
/// left out: what has been handed on at any point of a poll are the first of the messages that are
/// to be. After the last has been handed on the poll ends, and it ends before
/// that only where there is no one left to hand a message to, or where the answer reports an error.
/// Before the answer nothing is handed on.
pub proof fn law_polls_hand_on_every_message_once_and_in_order(
    adapter: AdapterView,
    channel_version: Seq<char>,
    moves: Seq<Move>,
)
    requires
        is_run(adapter, channel_version, moves),
    ensures
        match answer(moves) {
            None => delivered(moves).len() == 0,
            Some(document) => if poll::reported_error(document) is Some {
                delivered(moves).len() == 0 && state_after(moves) is Ended
            } else {
                let all = to_hand_on(adapter, document.items_at("msgs"@), 0);
                let done = delivered(moves);
                &&& done.len() <= all.len()
                &&& are_handed(all.take(done.len() as int), done)
                &&& state_after(moves) is Delivering || state_after(moves) is Ended
                &&& state_after(moves) is Ended && !cut_short(moves) ==> are_handed(all, done)
                &&& follows_a_delivery(moves) ==> {
                    let command = moves.last().step.command;
                    let earlier = delivered(moves.drop_last()).len() as int;
                    if earlier == all.len() {
                        &&& state_after(moves) is Ended
                        &&& command == (PollCommandView::Done { save: None, error: None })
                    } else {
                        &&& state_after(moves) is Delivering
                        &&& command matches PollCommandView::Deliver { message, .. }
                        &&& is_handed(all[earlier], message)
                    }
                }
            },
        },
{
    lemma_run(adapter, channel_version, moves);
    if moves.len() > 0 {
        let before = moves.drop_last();
        lemma_run(adapter, channel_version, before);
        if let Some(document) = answer(moves) {
            let all = to_hand_on(adapter, document.items_at("msgs"@), 0);
            let done = delivered(moves);
            assert(all.take(all.len() as int) =~= all);
            if poll::reported_error(document) is None && follows_a_delivery(moves) {
                let from = adapter_after(adapter, before);
                laws::law_polls_pass_over_nothing(
                    from,
                    document.items_at("msgs"@),
                    seen(before),
                    channel_version,
                    moves.last().step,
                );
                if moves.last().step.command is Deliver {
                    let n = delivered(before).len() as int;
                    assert(is_handed(all.take(n + 1)[n], done[n]));
                }
            }
        }
    }
}

/// After an answer, the adapter is at the position that the answer gives, or at the one it was at
/// where the answer gives none, and it has counted the messages that were handed on: all of them
/// once the poll has come to its end, and all but the last as long as it is not known what became
/// of that one, or where there was no one left to hand it to.
pub proof fn law_what_a_poll_leaves(
    adapter: AdapterView,
    channel_version: Seq<char>,
    moves: Seq<Move>,
)
    requires
        is_run(adapter, channel_version, moves),
    ensures
        ({
            let after = adapter_after(adapter, moves);
            let counted = after.runtime.messages_received - adapter.runtime.messages_received;
            match answer(moves) {
                Some(document) if poll::reported_error(document) is None => {
                    &&& after.cursor == poll::after_updates(adapter, document).cursor
                    &&& counted == if state_after(moves) is Ended && !cut_short(moves) {
                        delivered(moves).len() as int
                    } else {
                        delivered(moves).len() - 1
                    }
                },
                _ => after.cursor == adapter.cursor && counted == 0,
            }
        }),
{
    lemma_run(adapter, channel_version, moves);
}

/// At any point of a poll the adapter has of every user the context token that the user sent last,
/// counting the messages of the answer that the poll has seen; these are all of them once the poll
/// has come to its end with someone to hand messages to.
pub proof fn law_context_tokens_after_a_poll(
    adapter: AdapterView,
    channel_version: Seq<char>,
    moves: Seq<Move>,
    user: Seq<char>,
)
    requires
        is_run(adapter, channel_version, moves),
    ensures
        match answer(moves) {
            Some(document) if poll::reported_error(document) is None => {
                let messages = document.items_at("msgs"@);
                &&& 0 <= seen(moves) <= messages.len()
                &&& state_after(moves) is Ended && !cut_short(moves) ==> seen(moves)
                    == messages.len()
                &&& adapter_after(adapter, moves).context_token(user) == laws::last_context_token(
                    adapter,
                    messages,
                    0,
                    seen(moves),
                    user,
                )
            },
            _ => adapter_after(adapter, moves).context_token(user) == adapter.context_token(user),
        },
{
    lemma_run(adapter, channel_version, moves);
    if let Some(document) = answer(moves) {
        if poll::reported_error(document) is None {
            let messages = document.items_at("msgs"@);
            laws::law_last_context_token_is_kept(adapter, messages, 0, seen(moves), user);
        }
    }
}

/// What the state directory holds once the commands of the moves have been carried out.
pub open spec fn kept_after_all(kept: Kept, moves: Seq<Move>) -> Kept
    decreases moves.len(),
{
    if moves.len() == 0 {
        kept
    } else {
        laws::kept_after(kept_after_all(kept, moves.drop_last()), moves.last().step.command)
    }
}

/// At any point of a poll the state directory is in step with the adapter where it was so at the
/// start: in the position, in the token and in the account, each by itself.
pub proof fn law_whole_polls_keep_the_state_directory_in_step(
    kept: Kept,
    adapter: AdapterView,
    channel_version: Seq<char>,
    moves: Seq<Move>,
)
    requires
        is_run(adapter, channel_version, moves),
    ensures
        ({
            let after = adapter_after(adapter, moves);
            let holds = kept_after_all(kept, moves);
            &&& laws::position_in_step(kept, adapter) ==> laws::position_in_step(holds, after)
            &&& laws::token_in_step(kept, adapter) ==> laws::token_in_step(holds, after)
            &&& laws::account_in_step(kept, adapter) ==> laws::account_in_step(holds, after)
        }),
    decreases moves.len(),
{
    if moves.len() > 0 {
        let before = moves.drop_last();
        law_whole_polls_keep_the_state_directory_in_step(kept, adapter, channel_version, before);
        lemma_run(adapter, channel_version, before);
        laws::law_polls_keep_the_state_directory_in_step(
            kept_after_all(kept, before),
            adapter_after(adapter, before),
            state_after(before),
            moves.last().input,
            channel_version,
            moves.last().step,
        );
    }
}

/// The messages from `from` on that come from someone the adapter listens to, in order.
pub open spec fn admitted(
    adapter: AdapterView,
    messages: Seq<JsonView>,
    from: int,
) -> Seq<JsonView>
    decreases messages.len() - from,
{
    if from >= messages.len() {
        Seq::empty()
    } else if inbound::admits(adapter, messages[from]) {
        seq![messages[from]] + admitted(adapter, messages, from + 1)
    } else {
        admitted(adapter, messages, from + 1)
    }
}

/// The two documents report the same error, or none, give the same position, and hold the same
/// messages from people the adapter listens to, in the same order.
pub open spec fn differ_in_strangers(adapter: AdapterView, a: JsonView, b: JsonView) -> bool {
    &&& poll::reported_error(a) == poll::reported_error(b)
    &&& poll::next_cursor(a) == poll::next_cursor(b)
    &&& admitted(adapter, a.items_at("msgs"@), 0) == admitted(adapter, b.items_at("msgs"@), 0)
}

/// The two inputs are the same, or bring answers that differ in strangers' messages only.
pub open spec fn inputs_alike(adapter: AdapterView, a: PollInputView, b: PollInputView) -> bool {
    a == b || {
        &&& answer_in(PollStateView::Requested, a) matches Some(one)
        &&& answer_in(PollStateView::Requested, b) matches Some(other)
        &&& differ_in_strangers(adapter, one, other)
    }
}

/// The two adapters are the same but for the moments they have noted.
pub open spec fn adapters_alike(a: AdapterView, b: AdapterView) -> bool {
    &&& b == (AdapterView {
        runtime: StatusView {
            started_at: b.runtime.started_at,
            last_message_at: b.runtime.last_message_at,
            ..a.runtime
        },
        ..a
    })
    &&& a.runtime.started_at is Some == b.runtime.started_at is Some
    &&& a.runtime.last_message_at is Some == b.runtime.last_message_at is Some
}

/// The two polls have come equally far, with the same messages left from people the adapter listens
/// to.
pub open spec fn states_alike(adapter: AdapterView, a: PollStateView, b: PollStateView) -> bool {
    match (a, b) {
        (
            PollStateView::Delivering { messages: one, seen: i },
            PollStateView::Delivering { messages: other, seen: j },
        ) => admitted(adapter, one, i) == admitted(adapter, other, j),
        _ => a == b,
    }
}

/// The two messages are the same but for a drawn name and the present.
pub open spec fn messages_alike(a: MessageView, b: MessageView) -> bool {
    exists|message: JsonView| #[trigger] is_handed(message, a) && is_handed(message, b)
}

/// The two commands are the same but for drawn names and moments.
pub open spec fn commands_alike(a: PollCommandView, b: PollCommandView) -> bool {
    match (a, b) {
        (
            PollCommandView::Post { granted: Some((notice, one)), request: first },
            PollCommandView::Post { granted: Some((same, other)), request: second },
        ) => {
            &&& notice == same
            &&& other == (AccountView { saved_at: other.saved_at, ..one })
            &&& first == second
        },
        (
            PollCommandView::Deliver { save: one, message: first },
            PollCommandView::Deliver { save: other, message: second },
        ) => one == other && messages_alike(first, second),
        _ => a == b,
    }
}

proof fn lemma_admitted_goes_by_the_list(
    a: AdapterView,
    b: AdapterView,
    messages: Seq<JsonView>,
    from: int,
)
    requires
        a.allowed_users == b.allowed_users,
    ensures
        admitted(a, messages, from) == admitted(b, messages, from),
    decreases messages.len() - from,
{
    if from < messages.len() {
        lemma_admitted_goes_by_the_list(a, b, messages, from + 1);
    }
}

/// Where the same messages are left from people the adapter listens to, the next to hand on is the
/// same, the same are left after it, and the context tokens come out the same.
proof fn lemma_strangers_are_passed_over(
    a: AdapterView,
    one: Seq<JsonView>,
    i: int,
    b: AdapterView,
    other: Seq<JsonView>,
    j: int,
)
    requires
        0 <= i <= one.len(),
        0 <= j <= other.len(),
        a.allowed_users == b.allowed_users,
        a.context_tokens == b.context_tokens,
        admitted(a, one, i) == admitted(b, other, j),
    ensures
        ({
            let p = inbound::next_to_hand_on(a, one, i);
            let q = inbound::next_to_hand_on(b, other, j);
            &&& i <= p <= one.len()
            &&& j <= q <= other.len()
            &&& p < one.len() <==> q < other.len()
            &&& p < one.len() ==> {
                &&& one[p] == other[q]
                &&& admitted(a, one, p + 1) == admitted(b, other, q + 1)
                &&& inbound::after_seeing_range(a, one, i, p + 1).context_tokens
                    == inbound::after_seeing_range(b, other, j, q + 1).context_tokens
            }
            &&& p == one.len() ==> inbound::after_seeing_range(a, one, i, p).context_tokens
                == inbound::after_seeing_range(b, other, j, q).context_tokens
        }),
    decreases (one.len() - i) + (other.len() - j),
{
    if i < one.len() && !inbound::admits(a, one[i]) {
        lemma_strangers_are_passed_over(a, one, i + 1, b, other, j);
    } else if j < other.len() && !inbound::admits(b, other[j]) {
        lemma_strangers_are_passed_over(a, one, i, b, other, j + 1);
    } else if i < one.len() && j < other.len() {
        let rest = admitted(a, one, i + 1);
        assert(admitted(a, one, i)[0] == one[i]);
        assert(admitted(b, other, j)[0] == other[j]);
        assert(admitted(a, one, i).drop_first() =~= rest);
        assert(admitted(b, other, j).drop_first() =~= admitted(b, other, j + 1));
        let after = inbound::after_seeing(a, one[i]);
        let same = inbound::after_seeing(b, other[j]);
        if inbound::hands_on(a, one[i]) {
            reveal_with_fuel(inbound::after_seeing_range, 2);
        } else {
            lemma_admitted_goes_by_the_list(a, after, one, i + 1);
            lemma_admitted_goes_by_the_list(b, same, other, j + 1);
            lemma_strangers_are_passed_over(after, one, i + 1, same, other, j + 1);
            laws::law_handing_on_goes_by_the_list_alone(a, after, one, i + 1);
            laws::law_handing_on_goes_by_the_list_alone(b, same, other, j + 1);
            let p = inbound::next_to_hand_on(a, one, i);
            let q = inbound::next_to_hand_on(b, other, j);
            lemma_admitted_goes_by_the_list(a, after, one, p + 1);
            lemma_admitted_goes_by_the_list(b, same, other, q + 1);
        }
    } else if i < one.len() {
        assert(admitted(a, one, i).len() > 0);
    } else if j < other.len() {
        assert(admitted(b, other, j).len() > 0);
    }
}

proof fn lemma_deliveries_alike(
    first: AdapterView,
    a: AdapterView,
    one: Seq<JsonView>,
    i: int,
    b: AdapterView,
    other: Seq<JsonView>,
    j: int,
    save: Option<Seq<char>>,
    step: StepView,
    same: StepView,
)
    requires
        0 <= i <= one.len(),
        0 <= j <= other.len(),
        adapters_alike(a, b),
        a.allowed_users == first.allowed_users,
        admitted(first, one, i) == admitted(first, other, j),
        cycle::is_delivery(a, one, i, save, step),
        cycle::is_delivery(b, other, j, save, same),
    ensures
        adapters_alike(step.adapter, same.adapter),
        states_alike(first, step.state, same.state),
        commands_alike(step.command, same.command),
{
    lemma_admitted_goes_by_the_list(first, a, one, i);
    lemma_admitted_goes_by_the_list(first, b, other, j);
    lemma_strangers_are_passed_over(a, one, i, b, other, j);
    let p = inbound::next_to_hand_on(a, one, i);
    let q = inbound::next_to_hand_on(b, other, j);
    let (name, moment) = choose|fresh: Seq<char>, now: Timestamp|
        {
            &&& cycle::drawn_for(a, one, i, fresh)
            &&& now.wf()
            &&& step == #[trigger] cycle::hands_on_next(a, one, i, save, fresh, now)
        };
    let (fresh, now) = choose|fresh: Seq<char>, now: Timestamp|
        {
            &&& cycle::drawn_for(b, other, j, fresh)
            &&& now.wf()
            &&& same == #[trigger] cycle::hands_on_next(b, other, j, save, fresh, now)
        };
    if p < one.len() {
        inbound::lemma_seeing_keeps_the_rest(a, one, i, p + 1);
        inbound::lemma_seeing_keeps_the_rest(b, other, j, q + 1);
        lemma_admitted_goes_by_the_list(first, a, one, p + 1);
        lemma_admitted_goes_by_the_list(first, b, other, q + 1);
        let handed = step.command->Deliver_message;
        let again = same.command->Deliver_message;
        assert(handed == inbound::handed_on(one[p], name, moment));
        assert(again == inbound::handed_on(other[q], fresh, now));
        assert(is_handed(one[p], handed) && is_handed(one[p], again));
    } else {
        inbound::lemma_seeing_keeps_the_rest(a, one, i, p);
        inbound::lemma_seeing_keeps_the_rest(b, other, j, q);
    }
}

proof fn lemma_steps_alike(
    first: AdapterView,
    channel_version: Seq<char>,
    a: AdapterView,
    s: PollStateView,
    input: PollInputView,
    step: StepView,
    b: AdapterView,
    t: PollStateView,
    again: PollInputView,
    same: StepView,
)
    requires
        laws::possible(s),
        laws::possible(t),
        adapters_alike(a, b),
        a.allowed_users == first.allowed_users,
        states_alike(first, s, t),
        inputs_alike(first, input, again),
        cycle::is_poll_step(a, s, input, channel_version, step),
        cycle::is_poll_step(b, t, again, channel_version, same),
    ensures
        adapters_alike(step.adapter, same.adapter),
        states_alike(first, step.state, same.state),
        commands_alike(step.command, same.command),
{
    match (s, input) {
        (PollStateView::Requested, PollInputView::Reply(reply)) => {
            if let Some(document) = answer_in(s, input) {
                let other = answer_in(t, again).unwrap();
                if poll::reported_error(document) is None {
                    lemma_deliveries_alike(
                        first,
                        poll::after_updates(a, document),
                        document.items_at("msgs"@),
                        0,
                        poll::after_updates(b, other),
                        other.items_at("msgs"@),
                        0,
                        poll::next_cursor(document),
                        step,
                        same,
                    );
                }
            }
        },
        (PollStateView::Delivering { messages: one, seen: i }, PollInputView::HandedOn(true)) => {
            let other = t->Delivering_messages;
            let j = t->Delivering_seen;
            let now = choose|now: Timestamp|
                now.wf() && cycle::is_delivery(
                    #[trigger] a.after_delivery(now),
                    one,
                    i,
                    None,
                    step,
                );
            let later = choose|now: Timestamp|
                now.wf() && cycle::is_delivery(
                    #[trigger] b.after_delivery(now),
                    other,
                    j,
                    None,
                    same,
                );
            lemma_deliveries_alike(
                first,
                a.after_delivery(now),
                one,
                i,
                b.after_delivery(later),
                other,
                j,
                None,
                step,
                same,
            );
        },
        _ => {},
    }
}

/// What strangers write does not matter: two polls of the same adapter in which the same happens,
/// but for answers that differ in messages from people the adapter does not listen to, leave the
/// adapter at the same position, with the same login, context tokens, counts and notes, have come
/// equally far with the same result, and hand on the same messages, but for drawn names and
/// moments.
pub proof fn law_strangers_do_not_matter(
    adapter: AdapterView,
    channel_version: Seq<char>,
    one: Seq<Move>,
    other: Seq<Move>,
)
    requires
        is_run(adapter, channel_version, one),
        is_run(adapter, channel_version, other),
        one.len() == other.len(),
        forall|i: int|
            0 <= i < one.len() ==> inputs_alike(
                adapter,
                (#[trigger] one[i]).input,
                (#[trigger] other[i]).input,
            ),
    ensures
        adapters_alike(adapter_after(adapter, one), adapter_after(adapter, other)),
        states_alike(adapter, state_after(one), state_after(other)),
        one.len() > 0 ==> commands_alike(one.last().step.command, other.last().step.command),
        delivered(one).len() == delivered(other).len(),
        forall|k: int|
            0 <= k < delivered(one).len() ==> messages_alike(
                #[trigger] delivered(one)[k],
                delivered(other)[k],
            ),
    decreases one.len(),
{
    if one.len() > 0 {
        let before = one.drop_last();
        let earlier = other.drop_last();
        let last = one.len() - 1;
        assert forall|i: int| 0 <= i < before.len() implies inputs_alike(
            adapter,
            (#[trigger] before[i]).input,
            (#[trigger] earlier[i]).input,
        ) by {
            assert(inputs_alike(adapter, one[i].input, other[i].input));
        }
        law_strangers_do_not_matter(adapter, channel_version, before, earlier);
        lemma_run(adapter, channel_version, before);
        lemma_run(adapter, channel_version, earlier);
        assert(inputs_alike(adapter, one[last].input, other[last].input));
        lemma_steps_alike(
            adapter,
            channel_version,
            adapter_after(adapter, before),
            state_after(before),
            one.last().input,
            one.last().step,
            adapter_after(adapter, earlier),
            state_after(earlier),
            other.last().input,
            other.last().step,
        );
        assert forall|k: int| 0 <= k < delivered(one).len() implies messages_alike(
            #[trigger] delivered(one)[k],
            delivered(other)[k],
        ) by {
            if k < delivered(before).len() {
                assert(messages_alike(delivered(before)[k], delivered(earlier)[k]));
            }
        }
    }
}

} // verus!
