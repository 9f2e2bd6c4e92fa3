//! Logging in with a QR code.
//!
//! A login goes on in steps. [`WeChatAdapter::qr_login_step`] takes the state that the last step
//! left and what has happened since, and says what to do next; whoever runs the login does that and
//! comes back with the outcome, until the action is [`LoginAction::Finished`] or
//! [`LoginAction::Failed`].

use crate::adapter::{AdapterView, Login, LoginView, WeChatAdapter};
use crate::http;
use crate::http::{GetRequest, GetView, HttpReply, ReplyView};
use crate::json::{Json, JsonView};
use crate::outbound::API_TIMEOUT_SECS;
use crate::outside;
use crate::text;
use vstd::prelude::*;

verus! {

/// How long a request for the status of a QR code may take, in seconds.
pub const QR_STATUS_TIMEOUT_SECS: u64 = 45;

/// How long to wait for the confirmation of a login, in seconds.
pub const LOGIN_DEADLINE_SECS: u64 = 480;

/// How long to pause between two requests for the status of a QR code, in seconds.
pub const LOGIN_PAUSE_SECS: u64 = 1;

/// How far a login has come.
pub enum LoginState {
    /// Nothing has been done yet.
    Start,
    /// A QR code has been asked for.
    CodeRequested,
    /// The QR code has been shown, and the clock is to be looked at.
    Waiting { qrcode: String },
    /// The status of the QR code has been asked for.
    StatusRequested { qrcode: String },
    /// The login has come to its end.
    Ended,
}

/// What a [`LoginState`] says.
pub enum LoginStateView {
    Start,
    CodeRequested,
    Waiting { qrcode: Seq<char> },
    StatusRequested { qrcode: Seq<char> },
    Ended,
}

impl View for LoginState {
    type V = LoginStateView;

    open spec fn view(&self) -> LoginStateView {
        match self {
            LoginState::Start => LoginStateView::Start,
            LoginState::CodeRequested => LoginStateView::CodeRequested,
            LoginState::Waiting { qrcode } => LoginStateView::Waiting { qrcode: qrcode@ },
            LoginState::StatusRequested { qrcode } => LoginStateView::StatusRequested {
                qrcode: qrcode@,
            },
            LoginState::Ended => LoginStateView::Ended,
        }
    }
}

/// What has happened in a login.
pub enum LoginEvent {
    /// The login is to begin.
    Begin,
    /// This became of the last request.
    Reply(HttpReply),
    /// So many whole seconds have gone by since the QR code was shown.
    Elapsed(u64),
}

/// What a [`LoginEvent`] says.
pub enum LoginEventView {
    Begin,
    Reply(ReplyView),
    Elapsed(int),
}

impl View for LoginEvent {
    type V = LoginEventView;

    open spec fn view(&self) -> LoginEventView {
        match self {
            LoginEvent::Begin => LoginEventView::Begin,
            LoginEvent::Reply(reply) => LoginEventView::Reply(reply@),
            LoginEvent::Elapsed(secs) => LoginEventView::Elapsed(*secs as int),
        }
    }
}

impl LoginEvent {
    /// A reply in the event is well formed.
    pub open spec fn wf(self) -> bool {
        self matches LoginEvent::Reply(reply) ==> reply.wf()
    }
}

/// What a login does next.
pub enum LoginAction {
    /// Make this request, and report what became of it.
    Get(GetRequest),
    /// Show these lines, start the clock, and report the time gone by.
    Show(Vec<String>),
    /// Report the time gone by.
    CheckClock,
    /// Show the notice where there is one, pause for so many seconds, and report the time gone by.
    Pause { notice: Option<String>, secs: u64 },
    /// Show the notice; the login is granted.
    Finished { login: Login, notice: String },
    /// The login has failed.
    Failed(String),
    /// Nothing: what happened does not concern the login in this state.
    Nothing,
}

/// What a [`LoginAction`] says.
pub enum LoginActionView {
    Get(GetView),
    Show(Seq<Seq<char>>),
    CheckClock,
    Pause { notice: Option<Seq<char>>, secs: nat },
    Finished { login: LoginView, notice: Seq<char> },
    Failed(Seq<char>),
    Nothing,
}

impl View for LoginAction {
    type V = LoginActionView;

    open spec fn view(&self) -> LoginActionView {
        match self {
            LoginAction::Get(request) => LoginActionView::Get(request@),
            LoginAction::Show(lines) => LoginActionView::Show(text::texts(lines@)),
            LoginAction::CheckClock => LoginActionView::CheckClock,
            LoginAction::Pause { notice, secs } => LoginActionView::Pause {
                notice: text::optional_text(*notice),
                secs: *secs as nat,
            },
            LoginAction::Finished { login, notice } => LoginActionView::Finished {
                login: login@,
                notice: notice@,
            },
            LoginAction::Failed(message) => LoginActionView::Failed(message@),
            LoginAction::Nothing => LoginActionView::Nothing,
        }
    }
}

/// The request for a QR code.
pub open spec fn code_request(adapter: AdapterView) -> GetView {
    GetView {
        url: adapter.api_url("get_bot_qrcode"@) + "?bot_type=3"@,
        query: Seq::empty(),
        timeout_secs: API_TIMEOUT_SECS as nat,
    }
}

/// The request for the status of a QR code.
pub open spec fn status_request(adapter: AdapterView, qrcode: Seq<char>) -> GetView {
    GetView {
        url: adapter.api_url("get_qrcode_status"@),
        query: seq![("qrcode"@, qrcode)],
        timeout_secs: QR_STATUS_TIMEOUT_SECS as nat,
    }
}

/// The lines that ask the user to scan a QR code: with its address, and its picture where there is
/// one, or else, where there is no address, with the code itself.
pub open spec fn prompt(
    qrcode: Seq<char>,
    image_url: Seq<char>,
    picture: Option<Seq<char>>,
) -> Seq<Seq<char>> {
    let head = "\nWeChat QR login required."@;
    if image_url.len() == 0 {
        seq![head, "Scan payload: "@ + qrcode]
    } else {
        match picture {
            Some(picture) => seq![
                head,
                "Scan URL: "@ + image_url,
                "\n"@ + picture + "\n"@,
            ],
            None => seq![head, "Scan URL: "@ + image_url],
        }
    }
}

/// The address of the QR code's picture; empty where the document gives none.
pub open spec fn image_url(document: JsonView) -> Seq<char> {
    match document.text_at("qrcode_img_content"@) {
        Some(url) => url,
        None => Seq::empty(),
    }
}

/// The picture of a QR code for the terminal: none where the text is too long to be drawn.
pub open spec fn terminal_picture(data: Seq<char>) -> Option<Seq<char>> {
    if outside::is_drawable(data) {
        outside::qr_picture(data)
    } else {
        None
    }
}

/// The step after a failure.
pub open spec fn failed(message: Seq<char>) -> (LoginStateView, LoginActionView) {
    (LoginStateView::Ended, LoginActionView::Failed(message))
}

/// The step after the document with the QR code.
pub open spec fn on_code(document: JsonView) -> (LoginStateView, LoginActionView) {
    match document.text_at("qrcode"@) {
        Some(qrcode) => (
            LoginStateView::Waiting { qrcode },
            LoginActionView::Show(
                prompt(qrcode, image_url(document), terminal_picture(image_url(document))),
            ),
        ),
        None => failed("WeChat QR response missing qrcode"@),
    }
}

/// The step after the document that confirms the login.
pub open spec fn on_confirmation(document: JsonView) -> (LoginStateView, LoginActionView) {
    match document.text_at("bot_token"@) {
        Some(bot_token) => match document.text_at("ilink_bot_id"@) {
            Some(account_id) => (
                LoginStateView::Ended,
                LoginActionView::Finished {
                    login: LoginView {
                        bot_token,
                        account_id,
                        user_id: document.text_at("ilink_user_id"@),
                    },
                    notice: "WeChat connected."@,
                },
            ),
            None => failed("WeChat login missing ilink_bot_id"@),
        },
        None => failed("WeChat login missing bot_token"@),
    }
}

/// The status that a document gives; one that gives none is taken to say that the user has not
/// scanned the code yet.
pub open spec fn login_status(document: JsonView) -> Seq<char> {
    match document.text_at("status"@) {
        Some(status) => status,
        None => "wait"@,
    }
}

/// The step after the document with the status of the QR code.
pub open spec fn on_status(qrcode: Seq<char>, document: JsonView) -> (
    LoginStateView,
    LoginActionView,
) {
    let status = login_status(document);
    if status == "confirmed"@ {
        on_confirmation(document)
    } else if status == "expired"@ {
        failed("WeChat QR code expired before confirmation"@)
    } else {
        (
            LoginStateView::Waiting { qrcode },
            LoginActionView::Pause {
                notice: if status == "scaned"@ {
                    Some("WeChat QR 已扫码，等待手机确认..."@)
                } else {
                    None
                },
                secs: LOGIN_PAUSE_SECS as nat,
            },
        )
    }
}

/// The status that a document gives, where it is none of those that a login knows.
pub open spec fn unknown_status(document: JsonView) -> Option<Seq<char>> {
    let status = login_status(document);
    if status == "wait"@ || status == "scaned"@ || status == "expired"@ || status == "confirmed"@ {
        None
    } else {
        Some(status)
    }
}

/// A login's next state and action.
pub open spec fn login_step(
    adapter: AdapterView,
    state: LoginStateView,
    event: LoginEventView,
) -> (LoginStateView, LoginActionView) {
    match (state, event) {
        (LoginStateView::Start, LoginEventView::Begin) => (
            LoginStateView::CodeRequested,
            LoginActionView::Get(code_request(adapter)),
        ),
        (LoginStateView::CodeRequested, LoginEventView::Reply(reply)) => match http::payload(
            reply,
            "WeChat QR code fetch failed"@,
        ) {
            Ok(document) => on_code(document),
            Err(message) => failed(message),
        },
        (LoginStateView::Waiting { qrcode }, LoginEventView::Elapsed(secs)) => if secs
            < LOGIN_DEADLINE_SECS {
            (
                LoginStateView::StatusRequested { qrcode },
                LoginActionView::Get(status_request(adapter, qrcode)),
            )
        } else {
            failed("Timed out waiting for WeChat QR confirmation"@)
        },
        (
            LoginStateView::StatusRequested { qrcode },
            LoginEventView::Reply(ReplyView::TimedOut(_)),
        ) => (LoginStateView::Waiting { qrcode }, LoginActionView::CheckClock),
        (LoginStateView::StatusRequested { qrcode }, LoginEventView::Reply(reply)) =>
            match http::payload(reply, "WeChat QR status failed"@) {
            Ok(document) => on_status(qrcode, document),
            Err(message) => failed(message),
        },
        _ => (state, LoginActionView::Nothing),
    }
}

/// The picture of a QR code for the terminal: none where the text is too long to be drawn.
pub fn render_terminal_qr(data: &str) -> (r: Option<String>)
    ensures
        text::optional_text(r) == terminal_picture(data@),
{
    if data.as_bytes().len() <= outside::DRAWABLE_BYTES {
        outside::draw_qr(data)
    } else {
        None
    }
}

/// The lines that ask the user to scan a QR code.
pub fn build_prompt(qrcode: &str, image_url: &str, picture: Option<String>) -> (lines: Vec<String>)
    ensures
        text::texts(lines@) == prompt(qrcode@, image_url@, text::optional_text(picture)),
{
    let mut lines: Vec<String> = Vec::new();
    lines.push("\nWeChat QR login required.".to_owned());
    if image_url.is_empty() {
        let mut line = "Scan payload: ".to_owned();
        line.append(qrcode);
        lines.push(line);
    } else {
        let mut line = "Scan URL: ".to_owned();
        line.append(image_url);
        lines.push(line);
        if let Some(picture) = picture {
            let mut line = "\n".to_owned();
            line.append(picture.as_str());
            line.append("\n");
            lines.push(line);
        }
    }
    assert(text::texts(lines@) =~= prompt(qrcode@, image_url@, text::optional_text(picture)));
    lines
}

/// Ends a login with a message.
fn fail(message: String) -> (r: (LoginState, LoginAction))
    ensures
        (r.0@, r.1@) == failed(message@),
{
    (LoginState::Ended, LoginAction::Failed(message))
}

/// Goes on with a login after the document with the QR code.
pub fn take_code(document: &Json) -> (r: (LoginState, LoginAction))
    ensures
        (r.0@, r.1@) == on_code(document@),
{
    match document.str_at("qrcode") {
        Some(qrcode) => {
            let image_url = match document.str_at("qrcode_img_content") {
                Some(url) => url,
                None => "",
            };
            proof {
                reveal_strlit("");
                assert(""@ =~= Seq::<char>::empty());
            }
            let picture = if image_url.is_empty() {
                None
            } else {
                render_terminal_qr(image_url)
            };
            let lines = build_prompt(qrcode, image_url, picture);
            (LoginState::Waiting { qrcode: qrcode.to_owned() }, LoginAction::Show(lines))
        },
        None => fail("WeChat QR response missing qrcode".to_owned()),
    }
}

/// Goes on with a login after the document that confirms it.
fn take_confirmation(document: &Json) -> (r: (LoginState, LoginAction))
    ensures
        (r.0@, r.1@) == on_confirmation(document@),
{
    let bot_token = match document.str_at("bot_token") {
        Some(token) => token,
        None => {
            return fail("WeChat login missing bot_token".to_owned());
        },
    };
    let account_id = match document.str_at("ilink_bot_id") {
        Some(id) => id,
        None => {
            return fail("WeChat login missing ilink_bot_id".to_owned());
        },
    };
    let user_id = match document.str_at("ilink_user_id") {
        Some(id) => Some(id.to_owned()),
        None => None,
    };
    let login = Login {
        bot_token: bot_token.to_owned(),
        account_id: account_id.to_owned(),
        user_id,
    };
    (LoginState::Ended, LoginAction::Finished { login, notice: "WeChat connected.".to_owned() })
}

/// Goes on with a login after the document with the status of the QR code.
pub fn take_status(qrcode: String, document: &Json) -> (r: (LoginState, LoginAction))
    ensures
        (r.0@, r.1@) == on_status(qrcode@, document@),
{
    let status = match document.str_at("status") {
        Some(status) => status,
        None => "wait",
    };
    if text::same(status, "confirmed") {
        return take_confirmation(document);
    }
    if text::same(status, "expired") {
        return fail("WeChat QR code expired before confirmation".to_owned());
    }
    let notice = if text::same(status, "scaned") {
        Some("WeChat QR 已扫码，等待手机确认...".to_owned())
    } else {
        None
    };
    (LoginState::Waiting { qrcode }, LoginAction::Pause { notice, secs: LOGIN_PAUSE_SECS })
}

/// The status that a document gives, where it is none of those that a login knows.
pub fn unhandled_status(document: &Json) -> (r: Option<&str>)
    ensures
        text::optional_str(r) == unknown_status(document@),
{
    match document.str_at("status") {
        Some(status) => {
            if text::same(status, "wait") || text::same(status, "scaned") || text::same(
                status,
                "expired",
            ) || text::same(status, "confirmed") {
                None
            } else {
                Some(status)
            }
        },
        None => None,
    }
}

impl WeChatAdapter {
    /// The request for a QR code.
    fn qr_code_request(&self) -> (request: GetRequest)
        ensures
            request@ == code_request(self@),
    {
        let mut url = self.api_url("get_bot_qrcode");
        url.append("?bot_type=3");
        let query: Vec<(String, String)> = Vec::new();
        assert(http::pairs(query@) =~= Seq::empty());
        GetRequest { url, query, timeout_secs: API_TIMEOUT_SECS }
    }

    /// The request for the status of a QR code.
    fn qr_status_request(&self, qrcode: &str) -> (request: GetRequest)
        ensures
            request@ == status_request(self@, qrcode@),
    {
        let mut query: Vec<(String, String)> = Vec::new();
        query.push(("qrcode".to_owned(), qrcode.to_owned()));
        assert(http::pairs(query@) =~= seq![("qrcode"@, qrcode@)]);
        GetRequest {
            url: self.api_url("get_qrcode_status"),
            query,
            timeout_secs: QR_STATUS_TIMEOUT_SECS,
        }
    }

    /// Goes on with a login after what has happened.
    pub fn qr_login_step(&self, state: LoginState, event: LoginEvent) -> (r: (
        LoginState,
        LoginAction,
    ))
        requires
            event.wf(),
        ensures
            (r.0@, r.1@) == login_step(self@, state@, event@),
    {
        match (state, event) {
            (LoginState::Start, LoginEvent::Begin) => (
                LoginState::CodeRequested,
                LoginAction::Get(self.qr_code_request()),
            ),
            (LoginState::CodeRequested, LoginEvent::Reply(reply)) => match http::read_payload(
                reply,
                "WeChat QR code fetch failed",
            ) {
                Ok(document) => take_code(&document),
                Err(message) => fail(message),
            },
            (LoginState::Waiting { qrcode }, LoginEvent::Elapsed(secs)) => {
                if secs < LOGIN_DEADLINE_SECS {
                    let request = self.qr_status_request(qrcode.as_str());
                    (LoginState::StatusRequested { qrcode }, LoginAction::Get(request))
                } else {
                    fail("Timed out waiting for WeChat QR confirmation".to_owned())
                }
            },
            (
                LoginState::StatusRequested { qrcode },
                LoginEvent::Reply(HttpReply::TimedOut(_)),
            ) => (LoginState::Waiting { qrcode }, LoginAction::CheckClock),
            (LoginState::StatusRequested { qrcode }, LoginEvent::Reply(reply)) => {
                match http::read_payload(reply, "WeChat QR status failed") {
                    Ok(document) => take_status(qrcode, &document),
                    Err(message) => fail(message),
                }
            },
            (state, _) => (state, LoginAction::Nothing),
        }
    }
}

} // verus!
