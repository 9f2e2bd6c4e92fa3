//! Long polling for updates, and the pace at which it goes on.

use crate::adapter::{AdapterView, WeChatAdapter};
use crate::channel::StatusView;
use crate::http;
use crate::http::{PostRequest, PostView};
use crate::inbound;
use crate::inbound::UpdateBatch;
use crate::json;
use crate::json::{Json, JsonView};
use crate::outside;
use crate::state;
use crate::state::SyncData;
use crate::text;
use vstd::prelude::*;

verus! {

/// How long the server may hold a request for updates, in milliseconds.
pub const LONG_POLL_TIMEOUT_MS: u64 = 35_000;

/// The first pause after a failure, in seconds.
pub const INITIAL_BACKOFF_SECS: u64 = 2;

/// The longest pause after a failure, in seconds.
pub const MAX_BACKOFF_SECS: u64 = 30;

/// The error code by which the bot API says that the login has run out.
pub const SESSION_EXPIRED_ERRCODE: i64 = -14;

/// The document that asks for the updates after a position.
pub open spec fn updates_document(cursor: Seq<char>, channel_version: Seq<char>) -> JsonView {
    JsonView::Object(
        map![
            "get_updates_buf"@ => JsonView::Text(cursor),
            "base_info"@ => http::base_info(channel_version),
        ],
    )
}

/// The document that asks for the updates after a position.
pub fn build_updates_document(cursor: &str, channel_version: &str) -> (document: Json)
    ensures
        document@ == updates_document(cursor@, channel_version@),
        document.encodable(),
        document@.nested_within(outside::READABLE_LEVELS as nat),
{
    let mut document: Vec<(String, Json)> = Vec::new();
    json::push_member(&mut document, "get_updates_buf", Json::Text(cursor.to_owned()));
    json::push_member(&mut document, "base_info", http::build_base_info(channel_version));
    proof {
        reveal_with_fuel(JsonView::nested_within, 4);
    }
    Json::Object(document)
}

/// The request for updates, from an adapter that is logged in.
pub open spec fn updates_request(adapter: AdapterView, channel_version: Seq<char>) -> PostView {
    PostView {
        url: adapter.api_url("getupdates"@),
        headers: http::api_headers(adapter.bot_token),
        body: outside::json_bytes(updates_document(adapter.cursor, channel_version)),
        timeout_ms: LONG_POLL_TIMEOUT_MS as nat,
    }
}

/// A number in a document, or zero where it is missing.
pub open spec fn code_at(document: JsonView, name: Seq<char>) -> int {
    match document.signed_at(name) {
        Some(n) => n,
        None => 0,
    }
}

/// The message of an error that the bot API reports.
pub open spec fn api_error(ret: int, errcode: int, errmsg: Seq<char>) -> Seq<char> {
    "WeChat getUpdates API error ret="@ + text::signed_decimal(ret) + " errcode="@
        + text::signed_decimal(errcode) + " errmsg="@ + errmsg
}

/// The error that a document with updates reports, where it reports one.
pub open spec fn reported_error(document: JsonView) -> Option<Seq<char>> {
    let ret = code_at(document, "ret"@);
    let errcode = code_at(document, "errcode"@);
    let errmsg = match document.text_at("errmsg"@) {
        Some(message) => message,
        None => "unknown"@,
    };
    if ret != 0 || errcode != 0 {
        Some(api_error(ret, errcode, errmsg))
    } else {
        None
    }
}

/// The position after the updates of a document; an empty one does not count.
pub open spec fn next_cursor(document: JsonView) -> Option<Seq<char>> {
    match document.text_at("get_updates_buf"@) {
        Some(cursor) if cursor.len() > 0 => Some(cursor),
        _ => None,
    }
}

/// The adapter once it has been given the updates of a document.
pub open spec fn after_updates(adapter: AdapterView, document: JsonView) -> AdapterView {
    match next_cursor(document) {
        Some(cursor) => AdapterView { cursor, ..adapter },
        None => adapter,
    }
}

/// The message of an error that the bot API reports.
fn api_error_message(ret: i64, errcode: i64, errmsg: &str) -> (r: String)
    ensures
        r@ == api_error(ret as int, errcode as int, errmsg@),
{
    let mut r = "WeChat getUpdates API error ret=".to_owned();
    r.append(text::decimal_i64(ret).as_str());
    r.append(" errcode=");
    r.append(text::decimal_i64(errcode).as_str());
    r.append(" errmsg=");
    r.append(errmsg);
    r
}

/// The error that a document with updates reports, where it reports one.
pub fn read_reported_error(document: &Json) -> (r: Option<String>)
    ensures
        text::optional_text(r) == reported_error(document@),
{
    let ret: i64 = match document.i64_at("ret") {
        Some(n) => n,
        None => 0,
    };
    let errcode: i64 = match document.i64_at("errcode") {
        Some(n) => n,
        None => 0,
    };
    if ret != 0 || errcode != 0 {
        let errmsg = match document.str_at("errmsg") {
            Some(message) => message,
            None => "unknown",
        };
        Some(api_error_message(ret, errcode, errmsg))
    } else {
        None
    }
}

/// The array items under that name; none where there is no array.
fn take_items(document: Json, name: &str) -> (r: Vec<Json>)
    ensures
        json::items_view(r@) == document@.items_at(name@),
{
    match document {
        Json::Object(members) => {
            let mut members = members;
            let wanted = name.to_owned();
            while members.len() > 0
                invariant
                    wanted@ == name@,
                    document@.items_at(name@) == JsonView::Object(
                        json::members_view(members@),
                    ).items_at(name@),
                decreases members@.len(),
            {
                let ghost before = members@;
                let last = members.pop();
                assert(members@ == before.drop_last());
                if let Some((member, value)) = last {
                    assert(before.last() == (member, value));
                    if member == wanted {
                        let ghost said = value@;
                        assert(document@.items_at(name@) == match said {
                            JsonView::Array(items) => items,
                            _ => Seq::empty(),
                        });
                        if let Json::Array(items) = value {
                            return items;
                        }
                        return Vec::new();
                    }
                }
            }
            Vec::new()
        },
        _ => Vec::new(),
    }
}

/// What an answer with updates leaves to be done.
pub struct Updates {
    /// The position to save, where there is a new one.
    pub save: Option<SyncData>,
    /// The messages to see.
    pub batch: UpdateBatch,
}

impl Updates {
    /// These are what the document brings: its position, and its messages, none of them seen yet.
    pub open spec fn brings(self, document: JsonView) -> bool {
        &&& state::optional_cursor(self.save) == next_cursor(document)
        &&& self.batch.wf()
        &&& self.batch.seen == 0
        &&& self.batch.messages_view() == document.items_at("msgs"@)
    }
}

impl WeChatAdapter {
    /// The request for updates. Its body reads as the document that asks for them.
    pub fn updates_request(&self, channel_version: &str) -> (r: Result<PostRequest, String>)
        ensures
            match r {
                Ok(request) => {
                    &&& self@.bot_token is Some
                    &&& request@ == updates_request(self@, channel_version@)
                    &&& outside::json_document(request.body@) == Some(
                        updates_document(self@.cursor, channel_version@),
                    )
                },
                Err(message) => self@.bot_token is None && message@
                    == "WeChat token missing after login"@,
            },
    {
        let token = match self.get_token() {
            Some(token) => token,
            None => {
                return Err("WeChat token missing after login".to_owned());
            },
        };
        let document = build_updates_document(self.cursor(), channel_version);
        Ok(
            PostRequest {
                url: self.api_url("getupdates"),
                headers: http::build_headers(Some(token.as_str())),
                body: document.encode(),
                timeout_ms: LONG_POLL_TIMEOUT_MS,
            },
        )
    }

    /// The senders whose messages in a document with updates the adapter ignores because it does
    /// not listen to them; none where the document reports an error, since its messages are not
    /// looked at.
    pub fn ignored_senders(&self, document: &Json) -> (r: Vec<String>)
        ensures
            text::texts(r@) == if reported_error(document@) is Some {
                Seq::empty()
            } else {
                inbound::ignored_senders(self@, document@.items_at("msgs"@))
            },
    {
        let none: Vec<String> = Vec::new();
        assert(text::texts(none@) =~= Seq::empty());
        if read_reported_error(document).is_some() {
            return none;
        }
        match document.get("msgs") {
            Some(value) => match value.as_array() {
                Some(messages) => self.list_ignored(messages),
                None => none,
            },
            None => none,
        }
    }

    /// Takes over the updates of a document, unless it reports an error.
    pub fn take_updates(&mut self, document: Json) -> (r: Result<Updates, String>)
        ensures
            match r {
                Ok(taken) => {
                    &&& reported_error(document@) is None
                    &&& final(self)@ == after_updates(old(self)@, document@)
                    &&& taken.brings(document@)
                },
                Err(message) => {
                    &&& reported_error(document@) == Some(message@)
                    &&& final(self)@ == old(self)@
                },
            },
    {
        if let Some(message) = read_reported_error(&document) {
            return Err(message);
        }
        let mut save: Option<SyncData> = None;
        if let Some(cursor) = document.str_at("get_updates_buf") {
            if !cursor.is_empty() {
                self.set_cursor(cursor);
                save = Some(WeChatAdapter::save_cursor(cursor));
            }
        }
        let batch = UpdateBatch { messages: take_items(document, "msgs"), seen: 0 };
        Ok(Updates { save, batch })
    }
}

/// What the polling loop learns.
pub enum PollEvent {
    /// The signal to stop changed to this value.
    Shutdown(bool),
    /// A poll came to its end.
    Polled(Result<(), String>),
}

/// What a [`PollEvent`] says.
pub enum PollEventView {
    Shutdown(bool),
    Polled(Option<Seq<char>>),
}

impl View for PollEvent {
    type V = PollEventView;

    open spec fn view(&self) -> PollEventView {
        match self {
            PollEvent::Shutdown(stop) => PollEventView::Shutdown(*stop),
            PollEvent::Polled(Ok(())) => PollEventView::Polled(None),
            PollEvent::Polled(Err(message)) => PollEventView::Polled(Some(message@)),
        }
    }
}

/// What the polling loop does next.
#[derive(Clone, Copy, Debug, PartialEq, Eq, Structural)]
pub enum PollAction {
    /// End.
    Stop,
    /// Poll again at once.
    Poll,
    /// Poll again after so many seconds.
    PollAfter(u64),
}

/// The pace of the polling loop: the pause after the next failure, in seconds.
#[derive(Clone, Copy, Debug, PartialEq, Eq, Structural)]
pub struct Backoff {
    pub secs: u64,
}

/// The pause to make after the next failure, once one of `secs` has been made.
pub open spec fn longer(secs: int) -> int {
    if secs * 2 <= MAX_BACKOFF_SECS {
        secs * 2
    } else {
        MAX_BACKOFF_SECS as int
    }
}

/// A failure with that message says that the login has run out.
pub open spec fn session_expired(message: Seq<char>) -> bool {
    text::occurs(message, text::signed_decimal(SESSION_EXPIRED_ERRCODE as int))
}

/// The adapter once a poll has failed: it notes the failure, and forgets a login that has run out.
pub open spec fn after_failure(adapter: AdapterView, message: Seq<char>) -> AdapterView {
    AdapterView {
        bot_token: if session_expired(message) {
            None
        } else {
            adapter.bot_token
        },
        runtime: StatusView { last_error: Some(message), ..adapter.runtime },
        ..adapter
    }
}

/// The polling loop's next state and action.
pub open spec fn poll_step(adapter: AdapterView, pause: int, event: PollEventView) -> (
    AdapterView,
    int,
    PollAction,
) {
    match event {
        PollEventView::Shutdown(true) => (adapter, pause, PollAction::Stop),
        PollEventView::Shutdown(false) => (adapter, pause, PollAction::Poll),
        PollEventView::Polled(None) => (adapter, INITIAL_BACKOFF_SECS as int, PollAction::Poll),
        PollEventView::Polled(Some(message)) => (
            after_failure(adapter, message),
            longer(pause),
            PollAction::PollAfter(pause as u64),
        ),
    }
}

impl Backoff {
    /// The pace lies between the first and the longest pause.
    pub open spec fn wf(self) -> bool {
        INITIAL_BACKOFF_SECS <= self.secs <= MAX_BACKOFF_SECS
    }

    /// The pace to begin with.
    pub fn new() -> (backoff: Backoff)
        ensures
            backoff.secs == INITIAL_BACKOFF_SECS,
            backoff.wf(),
    {
        Backoff { secs: INITIAL_BACKOFF_SECS }
    }
}

impl WeChatAdapter {
    /// Goes on with the polling loop after an event.
    pub fn poll_updates(&mut self, backoff: &mut Backoff, event: PollEvent) -> (action: PollAction)
        requires
            old(backoff).wf(),
        ensures
            (final(self)@, final(backoff).secs as int, action) == poll_step(
                old(self)@,
                old(backoff).secs as int,
                event@,
            ),
            final(backoff).wf(),
    {
        match event {
            PollEvent::Shutdown(stop) => {
                if stop {
                    PollAction::Stop
                } else {
                    PollAction::Poll
                }
            },
            PollEvent::Polled(Ok(())) => {
                backoff.secs = INITIAL_BACKOFF_SECS;
                PollAction::Poll
            },
            PollEvent::Polled(Err(message)) => {
                let code = text::decimal_i64(SESSION_EXPIRED_ERRCODE);
                let expired = text::contains(message.as_str(), code.as_str());
                self.set_runtime_error(message);
                if expired {
                    self.drop_token();
                }
                let pause: u64 = backoff.secs;
                backoff.secs = if pause * 2 <= MAX_BACKOFF_SECS {
                    pause * 2
                } else {
                    MAX_BACKOFF_SECS
                };
                PollAction::PollAfter(pause)
            },
        }
    }
}

} // verus!
