//! One poll from beginning to end: the login where there is none, the request for updates, and
//! handing on what came.
//!
//! A poll goes on in steps. [`WeChatAdapter::poll_once`] takes the state that the last step left
//! and what has happened since, and says what to do next; whoever runs the poll does that and comes
//! back with the outcome, until the command is [`PollCommand::Done`].

use crate::adapter;
use crate::adapter::{AdapterView, Login, LoginView, WeChatAdapter};
use crate::channel::{ChannelMessage, MessageView};
use crate::http;
use crate::http::{HttpReply, PostRequest, PostView, ReplyView};
use crate::inbound;
use crate::inbound::UpdateBatch;
use crate::json::{Json, JsonView};
use crate::login;
use crate::login::{
    LoginAction, LoginActionView, LoginEvent, LoginEventView, LoginState, LoginStateView,
};
use crate::outside;
use crate::poll;
use crate::state;
use crate::state::{AccountData, AccountView, SyncData};
use crate::time::Timestamp;
use vstd::prelude::*;

verus! {

/// How far a poll has come.
pub enum PollState {
    /// Nothing has been done yet.
    Start,
    /// A login is going on.
    LoggingIn(LoginState),
    /// Updates have been asked for.
    Requested,
    /// A message of these has been handed on last.
    Delivering(UpdateBatch),
    /// The poll has come to its end.
    Ended,
}

/// What a [`PollState`] says.
pub enum PollStateView {
    Start,
    LoggingIn(LoginStateView),
    Requested,
    Delivering { messages: Seq<JsonView>, seen: int },
    Ended,
}

impl View for PollState {
    type V = PollStateView;

    open spec fn view(&self) -> PollStateView {
        match self {
            PollState::Start => PollStateView::Start,
            PollState::LoggingIn(state) => PollStateView::LoggingIn(state@),
            PollState::Requested => PollStateView::Requested,
            PollState::Delivering(batch) => PollStateView::Delivering {
                messages: batch.messages_view(),
                seen: batch.seen as int,
            },
            PollState::Ended => PollStateView::Ended,
        }
    }
}

impl PollState {
    /// A batch in the state is well formed.
    pub open spec fn wf(self) -> bool {
        self matches PollState::Delivering(batch) ==> batch.wf()
    }
}

/// What has happened in a poll.
pub enum PollInput {
    /// The poll is to begin.
    Begin,
    /// This has happened in the login.
    Login(LoginEvent),
    /// This became of the request for updates.
    Reply(HttpReply),
    /// The message was handed on, or there is no one left to hand messages to.
    HandedOn(bool),
}

/// What a [`PollInput`] says.
pub enum PollInputView {
    Begin,
    Login(LoginEventView),
    Reply(ReplyView),
    HandedOn(bool),
}

impl View for PollInput {
    type V = PollInputView;

    open spec fn view(&self) -> PollInputView {
        match self {
            PollInput::Begin => PollInputView::Begin,
            PollInput::Login(event) => PollInputView::Login(event@),
            PollInput::Reply(reply) => PollInputView::Reply(reply@),
            PollInput::HandedOn(done) => PollInputView::HandedOn(*done),
        }
    }
}

impl PollInput {
    /// A reply in the input is well formed.
    pub open spec fn wf(self) -> bool {
        match self {
            PollInput::Login(event) => event.wf(),
            PollInput::Reply(reply) => reply.wf(),
            _ => true,
        }
    }
}

/// What a poll does next.
pub enum PollCommand {
    /// Do what the login asks for.
    Login(LoginAction),
    /// Show the notice and save the login where there is a new one, and make this request.
    Post { granted: Option<(String, AccountData)>, request: PostRequest },
    /// Save the position where there is a new one, and hand this message on.
    Deliver { save: Option<SyncData>, message: ChannelMessage },
    /// Save the position where there is a new one; the poll has come to its end.
    Done { save: Option<SyncData>, result: Result<(), String> },
    /// Nothing: what happened does not concern the poll in this state.
    Nothing,
}

/// What a [`PollCommand`] says.
pub enum PollCommandView {
    Login(LoginActionView),
    Post { granted: Option<(Seq<char>, AccountView)>, request: PostView },
    Deliver { save: Option<Seq<char>>, message: MessageView },
    Done { save: Option<Seq<char>>, error: Option<Seq<char>> },
    Nothing,
}

impl View for PollCommand {
    type V = PollCommandView;

    open spec fn view(&self) -> PollCommandView {
        match self {
            PollCommand::Login(action) => PollCommandView::Login(action@),
            PollCommand::Post { granted, request } => PollCommandView::Post {
                granted: match granted {
                    Some((notice, account)) => Some((notice@, account@)),
                    None => None,
                },
                request: request@,
            },
            PollCommand::Deliver { save, message } => PollCommandView::Deliver {
                save: state::optional_cursor(*save),
                message: message@,
            },
            PollCommand::Done { save, result } => PollCommandView::Done {
                save: state::optional_cursor(*save),
                error: match result {
                    Ok(()) => None,
                    Err(message) => Some(message@),
                },
            },
            PollCommand::Nothing => PollCommandView::Nothing,
        }
    }
}

/// What a step of a poll leaves.
pub struct StepView {
    pub adapter: AdapterView,
    pub state: PollStateView,
    pub command: PollCommandView,
}

/// The end of a poll with an error.
pub open spec fn ends_with(adapter: AdapterView, message: Seq<char>) -> StepView {
    StepView {
        adapter,
        state: PollStateView::Ended,
        command: PollCommandView::Done { save: None, error: Some(message) },
    }
}

/// The step that asks for updates.
pub open spec fn asks_for_updates(
    adapter: AdapterView,
    granted: Option<(Seq<char>, AccountView)>,
    channel_version: Seq<char>,
) -> StepView {
    StepView {
        adapter,
        state: PollStateView::Requested,
        command: PollCommandView::Post {
            granted,
            request: poll::updates_request(adapter, channel_version),
        },
    }
}

/// The step that a login asks for, as long as it goes on.
pub open spec fn goes_on_logging_in(
    adapter: AdapterView,
    step: (LoginStateView, LoginActionView),
) -> StepView {
    StepView {
        adapter,
        state: PollStateView::LoggingIn(step.0),
        command: PollCommandView::Login(step.1),
    }
}

/// The step after a login has been granted: the adapter takes it over at `now`, and asks for
/// updates.
pub open spec fn after_login(
    adapter: AdapterView,
    login: LoginView,
    notice: Seq<char>,
    saved_at: Timestamp,
    now: Timestamp,
    channel_version: Seq<char>,
) -> StepView {
    asks_for_updates(
        adapter.logged_in(login, now),
        Some((notice, adapter::account_of(login, saved_at))),
        channel_version,
    )
}

/// The step hands on the next message, with `fresh` for its name and `now` for its time where it
/// has none of its own; where there is no such message, the poll ends.
pub open spec fn hands_on_next(
    adapter: AdapterView,
    messages: Seq<JsonView>,
    seen: int,
    save: Option<Seq<char>>,
    fresh: Seq<char>,
    now: Timestamp,
) -> StepView {
    let at = inbound::next_to_hand_on(adapter, messages, seen);
    if at < messages.len() {
        StepView {
            adapter: inbound::after_seeing_range(adapter, messages, seen, at + 1),
            state: PollStateView::Delivering { messages, seen: at + 1 },
            command: PollCommandView::Deliver {
                save,
                message: inbound::handed_on(messages[at], fresh, now),
            },
        }
    } else {
        StepView {
            adapter: inbound::after_seeing_range(adapter, messages, seen, at),
            state: PollStateView::Ended,
            command: PollCommandView::Done { save, error: None },
        }
    }
}

/// A name drawn for a message, where it needs one.
pub open spec fn drawn_for(
    adapter: AdapterView,
    messages: Seq<JsonView>,
    seen: int,
    fresh: Seq<char>,
) -> bool {
    let at = inbound::next_to_hand_on(adapter, messages, seen);
    at < messages.len() && messages[at].unsigned_at("message_id"@) is None ==> outside::is_uuid_v4(
        fresh,
    )
}

/// The step is one that hands on the next message.
pub open spec fn is_delivery(
    adapter: AdapterView,
    messages: Seq<JsonView>,
    seen: int,
    save: Option<Seq<char>>,
    step: StepView,
) -> bool {
    exists|fresh: Seq<char>, now: Timestamp|
        {
            &&& drawn_for(adapter, messages, seen, fresh)
            &&& now.wf()
            &&& step == #[trigger] hands_on_next(adapter, messages, seen, save, fresh, now)
        }
}

/// The step is one that follows the document which answers the request for updates.
pub open spec fn is_answer_step(
    adapter: AdapterView,
    document: JsonView,
    step: StepView,
) -> bool {
    match poll::reported_error(document) {
        Some(message) => step == ends_with(adapter, message),
        None => is_delivery(
            poll::after_updates(adapter, document),
            document.items_at("msgs"@),
            0,
            poll::next_cursor(document),
            step,
        ),
    }
}

/// The step is the one that a poll makes in this state after this input. Where the step reads the
/// clock or draws a name, any moment and any name will do.
pub open spec fn is_poll_step(
    adapter: AdapterView,
    state: PollStateView,
    input: PollInputView,
    channel_version: Seq<char>,
    step: StepView,
) -> bool {
    match (state, input) {
        (PollStateView::Start, PollInputView::Begin) => if adapter.bot_token is Some {
            step == asks_for_updates(adapter, None, channel_version)
        } else {
            step == goes_on_logging_in(
                adapter,
                login::login_step(adapter, LoginStateView::Start, LoginEventView::Begin),
            )
        },
        (PollStateView::LoggingIn(progress), PollInputView::Login(event)) => {
            let next = login::login_step(adapter, progress, event);
            match next.1 {
                LoginActionView::Finished { login, notice } => exists|
                    saved_at: Timestamp,
                    now: Timestamp,
                |
                    {
                        &&& saved_at.wf() && now.wf()
                        &&& step == #[trigger] after_login(
                            adapter,
                            login,
                            notice,
                            saved_at,
                            now,
                            channel_version,
                        )
                    },
                LoginActionView::Failed(message) => step == ends_with(adapter, message),
                _ => step == goes_on_logging_in(adapter, next),
            }
        },
        (PollStateView::Requested, PollInputView::Reply(reply)) => match http::payload(
            reply,
            "WeChat getUpdates failed"@,
        ) {
            Ok(document) => is_answer_step(adapter, document, step),
            Err(message) => step == ends_with(adapter, message),
        },
        (
            PollStateView::Delivering { messages, seen },
            PollInputView::HandedOn(true),
        ) => exists|now: Timestamp|
            now.wf() && is_delivery(
                #[trigger] adapter.after_delivery(now),
                messages,
                seen,
                None,
                step,
            ),
        (PollStateView::Delivering { .. }, PollInputView::HandedOn(false)) => step == (StepView {
            adapter,
            state: PollStateView::Ended,
            command: PollCommandView::Done { save: None, error: None },
        }),
        _ => step == (StepView { adapter, state, command: PollCommandView::Nothing }),
    }
}

impl WeChatAdapter {
    /// Asks for updates with the login there is.
    fn ask_for_updates(&self, granted: Option<(String, AccountData)>, channel_version: &str) -> (r:
        (PollState, PollCommand))
        requires
            self@.bot_token is Some,
        ensures
            (StepView { adapter: self@, state: r.0@, command: r.1@ }) == asks_for_updates(
                self@,
                match granted {
                    Some((notice, account)) => Some((notice@, account@)),
                    None => None,
                },
                channel_version@,
            ),
            r.1 matches PollCommand::Post { request, .. } ==> outside::json_document(request.body@)
                == Some(poll::updates_document(self@.cursor, channel_version@)),
    {
        match self.updates_request(channel_version) {
            Ok(request) => (PollState::Requested, PollCommand::Post { granted, request }),
            Err(message) => (
                PollState::Ended,
                PollCommand::Done { save: None, result: Err(message) },
            ),
        }
    }

    /// Takes over a login and asks for updates.
    fn take_login(&mut self, login: Login, notice: String, channel_version: &str) -> (r: (
        PollState,
        PollCommand,
    ))
        ensures
            r.0.wf(),
            exists|saved_at: Timestamp, now: Timestamp|
                {
                    &&& saved_at.wf() && now.wf()
                    &&& (StepView { adapter: final(self)@, state: r.0@, command: r.1@ })
                        == #[trigger] after_login(
                        old(self)@,
                        login@,
                        notice@,
                        saved_at,
                        now,
                        channel_version@,
                    )
                },
            r.1 matches PollCommand::Post { request, .. } ==> outside::json_document(request.body@)
                == Some(poll::updates_document(final(self)@.cursor, channel_version@)),
    {
        let ghost granted = login@;
        let account = self.finish_login(login);
        proof {
            let (saved_at, now) = choose|saved_at: Timestamp, now: Timestamp|
                {
                    &&& saved_at.wf() && now.wf()
                    &&& self@ == #[trigger] old(self)@.logged_in(granted, now)
                    &&& account@ == #[trigger] adapter::account_of(granted, saved_at)
                };
            let step = after_login(old(self)@, granted, notice@, saved_at, now, channel_version@);
            assert(step.adapter == self@);
        }
        self.ask_for_updates(Some((notice, account)), channel_version)
    }

    /// Hands on the next message of a batch.
    fn hand_on_next(&mut self, batch: UpdateBatch, save: Option<SyncData>) -> (r: (
        PollState,
        PollCommand,
    ))
        requires
            batch.wf(),
        ensures
            r.0.wf(),
            is_delivery(
                old(self)@,
                batch.messages_view(),
                batch.seen as int,
                state::optional_cursor(save),
                StepView { adapter: final(self)@, state: r.0@, command: r.1@ },
            ),
    {
        let ghost messages = batch.messages_view();
        let ghost seen = batch.seen as int;
        let ghost before = self@;
        let mut batch = batch;
        match self.next_message(&mut batch) {
            Some(message) => {
                let ghost at = inbound::next_to_hand_on(before, messages, seen);
                proof {
                    let (fresh, now) = choose|fresh: Seq<char>, now: Timestamp|
                        {
                            &&& messages[at].unsigned_at("message_id"@) is None
                                ==> outside::is_uuid_v4(fresh)
                            &&& now.wf()
                            &&& message@ == #[trigger] inbound::handed_on(messages[at], fresh, now)
                        };
                    let step = hands_on_next(
                        before,
                        messages,
                        seen,
                        state::optional_cursor(save),
                        fresh,
                        now,
                    );
                    assert(drawn_for(before, messages, seen, fresh));
                    assert(step.adapter == self@);
                }
                (PollState::Delivering(batch), PollCommand::Deliver { save, message })
            },
            None => {
                proof {
                    let now = Timestamp { secs: 0, nanos: 0 };
                    let step = hands_on_next(
                        before,
                        messages,
                        seen,
                        state::optional_cursor(save),
                        Seq::empty(),
                        now,
                    );
                    assert(drawn_for(before, messages, seen, Seq::empty()));
                    assert(now.wf());
                    assert(step.adapter == self@);
                }
                (PollState::Ended, PollCommand::Done { save, result: Ok(()) })
            },
        }
    }

    /// Goes on with a poll after the document that answers the request for updates.
    pub fn take_answer(&mut self, document: Json) -> (r: (PollState, PollCommand))
        ensures
            r.0.wf(),
            is_answer_step(
                old(self)@,
                document@,
                StepView { adapter: final(self)@, state: r.0@, command: r.1@ },
            ),
    {
        match self.take_updates(document) {
            Ok(updates) => self.hand_on_next(updates.batch, updates.save),
            Err(message) => (
                PollState::Ended,
                PollCommand::Done { save: None, result: Err(message) },
            ),
        }
    }

    /// Goes on with a poll after what has happened. The body of a request for updates reads as the
    /// document that asks for them.
    pub fn poll_once(&mut self, state: PollState, input: PollInput, channel_version: &str) -> (r: (
        PollState,
        PollCommand,
    ))
        requires
            state.wf(),
            input.wf(),
            state is Delivering && input == PollInput::HandedOn(true) ==> old(
                self,
            )@.runtime.messages_received < u64::MAX,
        ensures
            r.0.wf(),
            is_poll_step(
                old(self)@,
                state@,
                input@,
                channel_version@,
                StepView { adapter: final(self)@, state: r.0@, command: r.1@ },
            ),
            r.1 matches PollCommand::Post { request, .. } ==> outside::json_document(request.body@)
                == Some(poll::updates_document(final(self)@.cursor, channel_version@)),
    {
        match (state, input) {
            (PollState::Start, PollInput::Begin) => {
                if self.needs_login() {
                    let (state, action) = self.qr_login_step(LoginState::Start, LoginEvent::Begin);
                    (PollState::LoggingIn(state), PollCommand::Login(action))
                } else {
                    self.ask_for_updates(None, channel_version)
                }
            },
            (PollState::LoggingIn(progress), PollInput::Login(event)) => {
                let (next, action) = self.qr_login_step(progress, event);
                match action {
                    LoginAction::Finished { login, notice } => self.take_login(
                        login,
                        notice,
                        channel_version,
                    ),
                    LoginAction::Failed(message) => (
                        PollState::Ended,
                        PollCommand::Done { save: None, result: Err(message) },
                    ),
                    action => (PollState::LoggingIn(next), PollCommand::Login(action)),
                }
            },
            (PollState::Requested, PollInput::Reply(reply)) => {
                match http::read_payload(reply, "WeChat getUpdates failed") {
                    Ok(document) => self.take_answer(document),
                    Err(message) => (
                        PollState::Ended,
                        PollCommand::Done { save: None, result: Err(message) },
                    ),
                }
            },
            (PollState::Delivering(batch), PollInput::HandedOn(done)) => {
                if done {
                    self.message_delivered();
                    self.hand_on_next(batch, None)
                } else {
                    (PollState::Ended, PollCommand::Done { save: None, result: Ok(()) })
                }
            },
            (state, _) => (state, PollCommand::Nothing),
        }
    }
}

} // verus!
