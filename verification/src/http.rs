//! Requests to the bot API and what comes back.

use crate::json;
use crate::json::{Json, JsonView};
use crate::outside;
use crate::text;
use vstd::prelude::*;

verus! {

/// A request for a document.
pub struct GetRequest {
    pub url: String,
    /// Names and values for the query part of the URL, not yet escaped.
    pub query: Vec<(String, String)>,
    pub timeout_secs: u64,
}

/// What a [`GetRequest`] says.
#[verifier::ext_equal]
pub struct GetView {
    pub url: Seq<char>,
    pub query: Seq<(Seq<char>, Seq<char>)>,
    pub timeout_secs: nat,
}

/// A request that hands over a JSON document.
pub struct PostRequest {
    pub url: String,
    /// Header names and values.
    pub headers: Vec<(String, String)>,
    /// The document, written out.
    pub body: Vec<u8>,
    pub timeout_ms: u64,
}

/// What a [`PostRequest`] says.
#[verifier::ext_equal]
pub struct PostView {
    pub url: Seq<char>,
    pub headers: Seq<(Seq<char>, Seq<char>)>,
    pub body: Seq<u8>,
    pub timeout_ms: nat,
}

/// The character sequences of a list of name and value pairs.
pub open spec fn pairs(list: Seq<(String, String)>) -> Seq<(Seq<char>, Seq<char>)> {
    list.map_values(|pair: (String, String)| (pair.0@, pair.1@))
}

impl View for GetRequest {
    type V = GetView;

    open spec fn view(&self) -> GetView {
        GetView {
            url: self.url@,
            query: pairs(self.query@),
            timeout_secs: self.timeout_secs as nat,
        }
    }
}

impl View for PostRequest {
    type V = PostView;

    open spec fn view(&self) -> PostView {
        PostView {
            url: self.url@,
            headers: pairs(self.headers@),
            body: self.body@,
            timeout_ms: self.timeout_ms as nat,
        }
    }
}

/// What became of a request.
pub enum HttpReply {
    /// No answer came within the time allowed; with the client's message.
    TimedOut(String),
    /// The request, or reading its answer, failed otherwise; with the client's message.
    Failed(String),
    /// The server answered with a status other than success, and with this text.
    Refused { status: u16, text: String },
    /// The server answered with success and with these bytes.
    Body(Vec<u8>),
}

/// What an [`HttpReply`] says.
pub enum ReplyView {
    TimedOut(Seq<char>),
    Failed(Seq<char>),
    Refused { status: int, text: Seq<char> },
    Body(Seq<u8>),
}

impl View for HttpReply {
    type V = ReplyView;

    open spec fn view(&self) -> ReplyView {
        match self {
            HttpReply::TimedOut(message) => ReplyView::TimedOut(message@),
            HttpReply::Failed(message) => ReplyView::Failed(message@),
            HttpReply::Refused { status, text } => ReplyView::Refused {
                status: *status as int,
                text: text@,
            },
            HttpReply::Body(bytes) => ReplyView::Body(bytes@),
        }
    }
}

impl HttpReply {
    /// A status that stands in the reply is one that HTTP has.
    pub open spec fn wf(self) -> bool {
        self matches HttpReply::Refused { status, .. } ==> valid_status(status as int)
    }
}

/// The status codes that HTTP has.
pub open spec fn valid_status(status: int) -> bool {
    100 <= status <= 999
}

/// The status codes that report success.
pub open spec fn success_status(status: int) -> bool {
    200 <= status < 300
}

/// Tells whether a status code reports success.
pub fn is_success(status: u16) -> (r: bool)
    ensures
        r == success_status(status as int),
{
    200 <= status && status < 300
}

/// A status code with its phrase.
pub open spec fn status_text(status: int) -> Seq<char> {
    text::decimal(status as nat) + seq![' '] + outside::status_phrase(status)
}

/// The message for an answer whose status line reports no success.
pub open spec fn refusal_with(
    what: Seq<char>,
    status_line: Seq<char>,
    text: Seq<char>,
) -> Seq<char> {
    what + " "@ + status_line + ": "@ + text
}

/// The message for an answer with a status other than success.
pub open spec fn refusal(what: Seq<char>, status: int, text: Seq<char>) -> Seq<char> {
    refusal_with(what, status_text(status), text)
}

/// The message for an answer whose status line reports no success.
pub fn compose_refusal(what: &str, status_line: &str, text: &str) -> (r: String)
    ensures
        r@ == refusal_with(what@, status_line@, text@),
{
    let mut r = what.to_owned();
    r.append(" ");
    r.append(status_line);
    r.append(": ");
    r.append(text);
    r
}

/// The message for an answer with a status other than success.
pub fn refusal_message(what: &str, status: u16, text: &str) -> (r: String)
    requires
        valid_status(status as int),
    ensures
        r@ == refusal(what@, status as int, text@),
{
    compose_refusal(what, outside::status_line(status).as_str(), text)
}

/// The document that a reply brings, or the message that says why it brings none. `what` names the
/// request in the message for a refusal.
/// Bytes that are no document are reported in the words that `reqwest` has for them.
pub open spec fn payload(reply: ReplyView, what: Seq<char>) -> Result<JsonView, Seq<char>> {
    match reply {
        ReplyView::TimedOut(message) => Err(message),
        ReplyView::Failed(message) => Err(message),
        ReplyView::Refused { status, text } => Err(refusal(what, status, text)),
        ReplyView::Body(bytes) => match outside::json_document(bytes) {
            Some(document) => Ok(document),
            None => Err("error decoding response body"@),
        },
    }
}

/// Reads the document that a reply brings.
pub fn read_payload(reply: HttpReply, what: &str) -> (r: Result<Json, String>)
    requires
        reply.wf(),
    ensures
        match r {
            Ok(document) => payload(reply@, what@) == Ok::<JsonView, Seq<char>>(document@),
            Err(message) => payload(reply@, what@) == Err::<JsonView, Seq<char>>(message@),
        },
{
    match reply {
        HttpReply::TimedOut(message) => Err(message),
        HttpReply::Failed(message) => Err(message),
        HttpReply::Refused { status, text } => Err(refusal_message(what, status, text.as_str())),
        HttpReply::Body(bytes) => match Json::decode(bytes.as_slice()) {
            Some(document) => Ok(document),
            None => Err("error decoding response body".to_owned()),
        },
    }
}

/// The headers of a request to the bot API: the token goes along where there is one and it can
/// stand in a header.
pub open spec fn api_headers(token: Option<Seq<char>>) -> Seq<(Seq<char>, Seq<char>)> {
    let fixed = seq![
        ("content-type"@, "application/json"@),
        ("AuthorizationType"@, "ilink_bot_token"@),
    ];
    match token {
        Some(token) if token.len() > 0 && outside::is_header_text("Bearer "@ + token) => fixed.push(
            ("authorization"@, "Bearer "@ + token),
        ),
        _ => fixed,
    }
}

/// The headers of a request to the bot API.
pub fn build_headers(token: Option<&str>) -> (headers: Vec<(String, String)>)
    ensures
        pairs(headers@) == api_headers(text::optional_str(token)),
{
    let mut headers: Vec<(String, String)> = Vec::new();
    headers.push(("content-type".to_owned(), "application/json".to_owned()));
    headers.push(("AuthorizationType".to_owned(), "ilink_bot_token".to_owned()));
    if let Some(token) = token {
        if !token.is_empty() {
            let mut value = "Bearer ".to_owned();
            value.append(token);
            if outside::header_value_accepts(value.as_str()) {
                headers.push(("authorization".to_owned(), value));
            }
        }
    }
    assert(pairs(headers@) =~= api_headers(text::optional_str(token)));
    headers
}

/// What every request to the bot API says of its sender.
pub open spec fn base_info(channel_version: Seq<char>) -> JsonView {
    JsonView::Object(map!["channel_version"@ => JsonView::Text(channel_version)])
}

/// What every request to the bot API says of its sender.
pub fn build_base_info(channel_version: &str) -> (info: Json)
    ensures
        info@ == base_info(channel_version@),
        info.encodable(),
{
    let mut members: Vec<(String, Json)> = Vec::new();
    json::push_member(&mut members, "channel_version", Json::Text(channel_version.to_owned()));
    Json::Object(members)
}

/// An error of the kind that input and output report, with its message.
#[derive(Clone, Debug, PartialEq, Eq)]
pub struct IoError {
    pub message: String,
}

/// An error with that message.
pub fn io_error(message: String) -> (error: IoError)
    ensures
        error.message@ == message@,
{
    IoError { message }
}

} // verus!
