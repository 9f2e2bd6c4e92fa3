//! What the views of the library's types keep: everything that the types hold, whole.

use crate::adapter::{Login, LoginView};
use crate::channel::{
    ChannelContent, ChannelMessage, ChannelStatus, ChannelType, ChannelUser, ContentView,
    MessageView, StatusView, UserView,
};
use crate::cycle::{
    PollCommand, PollCommandView, PollInput, PollInputView, PollState, PollStateView,
};
use crate::http;
use crate::http::{GetRequest, HttpReply, PostRequest, ReplyView};
use crate::inbound::UpdateBatch;
use crate::json;
use crate::json::{Json, JsonView};
use crate::login::{
    LoginAction, LoginActionView, LoginEvent, LoginEventView, LoginState, LoginStateView,
};
use crate::poll::{PollEvent, PollEventView};
use crate::state;
use crate::state::{AccountData, AccountView, AdapterRuntimeState, PartView, PathPart, SyncData};
use crate::text;
use vstd::prelude::*;

verus! {

/// Lists are seen item by item, each whole.
pub proof fn law_lists_are_seen_whole(
    strings: Seq<String>,
    pairs: Seq<(String, String)>,
    path: Seq<PathPart>,
    values: Seq<Json>,
    i: int,
)
    ensures
        text::texts(strings).len() == strings.len(),
        0 <= i < strings.len() ==> text::texts(strings)[i] == strings[i]@,
        http::pairs(pairs).len() == pairs.len(),
        0 <= i < pairs.len() ==> http::pairs(pairs)[i] == (pairs[i].0@, pairs[i].1@),
        state::parts(path).len() == path.len(),
        0 <= i < path.len() ==> state::parts(path)[i] == path[i]@,
        json::items_view(values).len() == values.len(),
        0 <= i < values.len() ==> json::items_view(values)[i] == values[i]@,
{
    json::lemma_items_view(values);
}

/// What may be missing is seen whole where it is there.
pub proof fn law_what_may_be_missing_is_seen_whole(
    string: String,
    borrowed: &str,
    value: &Json,
    account: AccountData,
    sync: SyncData,
)
    ensures
        text::optional_text(Some(string)) == Some(string@),
        text::optional_text(None) is None,
        text::optional_str(Some(borrowed)) == Some(borrowed@),
        text::optional_str(None) is None,
        json::optional_view(Some(value)) == Some(value@),
        json::optional_view(None) is None,
        state::optional_account(Some(account)) == Some(account@),
        state::optional_account(None) is None,
        state::optional_cursor(Some(sync)) == Some(sync.get_updates_buf@),
        state::optional_cursor(None) is None,
{
}

/// A JSON value is seen whole.
pub proof fn law_values_are_seen_whole(value: Json)
    ensures
        value@ == match value {
            Json::Null => JsonView::Null,
            Json::Bool(b) => JsonView::Bool(b),
            Json::Number(None) => JsonView::Number(None),
            Json::Number(Some(n)) => JsonView::Number(Some(n as int)),
            Json::Text(s) => JsonView::Text(s@),
            Json::Array(items) => JsonView::Array(json::items_view(items@)),
            Json::Object(members) => JsonView::Object(json::members_view(members@)),
        },
{
}

/// A channel, a user and a content are seen whole.
pub proof fn law_what_a_channel_carries_is_seen_whole(
    channel: ChannelType,
    user: ChannelUser,
    content: ChannelContent,
)
    ensures
        channel matches ChannelType::Custom(name) && channel@ == name@,
        user@ == (UserView {
            platform_id: user.platform_id@,
            display_name: user.display_name@,
            openfang_user: text::optional_text(user.openfang_user),
        }),
        content@ == match content {
            ChannelContent::Text(said) => ContentView::Text(said@),
            ChannelContent::Image { url, caption } => ContentView::Image {
                url: url@,
                caption: text::optional_text(caption),
            },
            ChannelContent::File { url, filename } => ContentView::File {
                url: url@,
                filename: filename@,
            },
            ChannelContent::FileData { filename } => ContentView::FileData { filename: filename@ },
            ChannelContent::Voice { url, duration_seconds } => ContentView::Voice {
                url: url@,
                duration_seconds: duration_seconds as nat,
            },
            ChannelContent::Location { lat, lon } => ContentView::Location { lat: lat@, lon: lon@ },
            ChannelContent::Command { name, args } => ContentView::Command {
                name: name@,
                args: text::texts(args@),
            },
        },
{
}

/// A message and a status are seen whole.
pub proof fn law_messages_and_statuses_are_seen_whole(
    message: ChannelMessage,
    status: ChannelStatus,
    runtime: AdapterRuntimeState,
)
    ensures
        message@ == (MessageView {
            channel: message.channel@,
            platform_message_id: message.platform_message_id@,
            sender: message.sender@,
            content: message.content@,
            target_agent: text::optional_text(message.target_agent),
            timestamp: message.timestamp,
            is_group: message.is_group,
            thread_id: text::optional_text(message.thread_id),
            metadata: json::members_view(message.metadata@),
        }),
        status@ == (StatusView {
            connected: status.connected,
            started_at: status.started_at,
            last_message_at: status.last_message_at,
            messages_received: status.messages_received as nat,
            messages_sent: status.messages_sent as nat,
            last_error: text::optional_text(status.last_error),
        }),
        runtime@ == (StatusView {
            connected: runtime.connected,
            started_at: runtime.started_at,
            last_message_at: runtime.last_message_at,
            messages_received: runtime.messages_received as nat,
            messages_sent: runtime.messages_sent as nat,
            last_error: text::optional_text(runtime.last_error),
        }),
{
}

/// A login and what is saved of it are seen whole.
pub proof fn law_logins_are_seen_whole(login: Login, account: AccountData, part: PathPart)
    ensures
        login@ == (LoginView {
            bot_token: login.bot_token@,
            account_id: login.account_id@,
            user_id: text::optional_text(login.user_id),
        }),
        account@ == (AccountView {
            token: text::optional_text(account.token),
            account_id: text::optional_text(account.account_id),
            user_id: text::optional_text(account.user_id),
            saved_at: text::optional_text(account.saved_at),
        }),
        part@ == match part {
            PathPart::Home => PartView::Home,
            PathPart::Name(name) => PartView::Name(name@),
        },
{
}

/// Requests and replies are seen whole.
pub proof fn law_requests_and_replies_are_seen_whole(
    get: GetRequest,
    post: PostRequest,
    reply: HttpReply,
)
    ensures
        get@.url == get.url@,
        get@.query == http::pairs(get.query@),
        get@.timeout_secs == get.timeout_secs,
        post@.url == post.url@,
        post@.headers == http::pairs(post.headers@),
        post@.body == post.body@,
        post@.timeout_ms == post.timeout_ms,
        reply@ == match reply {
            HttpReply::TimedOut(message) => ReplyView::TimedOut(message@),
            HttpReply::Failed(message) => ReplyView::Failed(message@),
            HttpReply::Refused { status, text } => ReplyView::Refused {
                status: status as int,
                text: text@,
            },
            HttpReply::Body(bytes) => ReplyView::Body(bytes@),
        },
{
}

/// How far a login has come, what happens in it and what it does next are seen whole.
pub proof fn law_steps_of_a_login_are_seen_whole(
    progress: LoginState,
    event: LoginEvent,
    action: LoginAction,
)
    ensures
        progress@ == match progress {
            LoginState::Start => LoginStateView::Start,
            LoginState::CodeRequested => LoginStateView::CodeRequested,
            LoginState::Waiting { qrcode } => LoginStateView::Waiting { qrcode: qrcode@ },
            LoginState::StatusRequested { qrcode } => LoginStateView::StatusRequested {
                qrcode: qrcode@,
            },
            LoginState::Ended => LoginStateView::Ended,
        },
        event@ == match event {
            LoginEvent::Begin => LoginEventView::Begin,
            LoginEvent::Reply(reply) => LoginEventView::Reply(reply@),
            LoginEvent::Elapsed(secs) => LoginEventView::Elapsed(secs as int),
        },
        action@ == match action {
            LoginAction::Get(request) => LoginActionView::Get(request@),
            LoginAction::Show(lines) => LoginActionView::Show(text::texts(lines@)),
            LoginAction::CheckClock => LoginActionView::CheckClock,
            LoginAction::Pause { notice, secs } => LoginActionView::Pause {
                notice: text::optional_text(notice),
                secs: secs as nat,
            },
            LoginAction::Finished { login, notice } => LoginActionView::Finished {
                login: login@,
                notice: notice@,
            },
            LoginAction::Failed(message) => LoginActionView::Failed(message@),
            LoginAction::Nothing => LoginActionView::Nothing,
        },
{
}

/// How far a poll has come and what happens in it are seen whole.
pub proof fn law_steps_of_a_poll_are_seen_whole(
    state: PollState,
    batch: UpdateBatch,
    input: PollInput,
    event: PollEvent,
)
    ensures
        state@ == match state {
            PollState::Start => PollStateView::Start,
            PollState::LoggingIn(progress) => PollStateView::LoggingIn(progress@),
            PollState::Requested => PollStateView::Requested,
            PollState::Delivering(batch) => PollStateView::Delivering {
                messages: json::items_view(batch.messages@),
                seen: batch.seen as int,
            },
            PollState::Ended => PollStateView::Ended,
        },
        batch.messages_view() == json::items_view(batch.messages@),
        input@ == match input {
            PollInput::Begin => PollInputView::Begin,
            PollInput::Login(event) => PollInputView::Login(event@),
            PollInput::Reply(reply) => PollInputView::Reply(reply@),
            PollInput::HandedOn(done) => PollInputView::HandedOn(done),
        },
        event@ == match event {
            PollEvent::Shutdown(stop) => PollEventView::Shutdown(stop),
            PollEvent::Polled(Ok(())) => PollEventView::Polled(None),
            PollEvent::Polled(Err(message)) => PollEventView::Polled(Some(message@)),
        },
{
}

/// What a poll does next is seen whole.
pub proof fn law_commands_of_a_poll_are_seen_whole(command: PollCommand)
    ensures
        match command {
            PollCommand::Login(action) => command@ == PollCommandView::Login(action@),
            PollCommand::Post { granted: Some((notice, account)), request } => command@ == (
            PollCommandView::Post { granted: Some((notice@, account@)), request: request@ }),
            PollCommand::Post { granted: None, request } => command@ == (PollCommandView::Post {
                granted: None,
                request: request@,
            }),
            PollCommand::Deliver { save, message } => command@ == (PollCommandView::Deliver {
                save: state::optional_cursor(save),
                message: message@,
            }),
            PollCommand::Done { save, result: Ok(()) } => command@ == (PollCommandView::Done {
                save: state::optional_cursor(save),
                error: None,
            }),
            PollCommand::Done { save, result: Err(message) } => command@ == (
            PollCommandView::Done { save: state::optional_cursor(save), error: Some(message@) }),
            PollCommand::Nothing => command@ is Nothing,
        },
{
}

} // verus!
