use openfang_wechat::adapter::WeChatAdapter;
use openfang_wechat::http::HttpReply;
use openfang_wechat::json::Json;
use openfang_wechat::login::{
    build_prompt, render_terminal_qr, take_code, take_status, unhandled_status, LoginAction,
    LoginEvent, LoginState,
};

fn adapter() -> WeChatAdapter {
    WeChatAdapter::new(
        "TOKEN".to_string(),
        "ACCOUNT".to_string(),
        "USER".to_string(),
        vec![],
        Some("https://x.org/".to_string()),
        None,
        None,
    )
}

fn body(document: &str) -> LoginEvent {
    LoginEvent::Reply(HttpReply::Body(document.as_bytes().to_vec()))
}

fn asked() -> LoginState {
    LoginState::StatusRequested { qrcode: "q1".to_string() }
}

fn failure(step: (LoginState, LoginAction)) -> String {
    match step {
        (LoginState::Ended, LoginAction::Failed(message)) => message,
        _ => panic!("the login did not fail"),
    }
}

fn waits_for(state: &LoginState, code: &str) -> bool {
    matches!(state, LoginState::Waiting { qrcode } if qrcode == code)
}

#[test]
fn login_begins_with_a_code() {
    let (state, action) = adapter().qr_login_step(LoginState::Start, LoginEvent::Begin);
    assert!(matches!(state, LoginState::CodeRequested));
    match action {
        LoginAction::Get(request) => {
            assert_eq!(request.url, "https://x.org/ilink/bot/get_bot_qrcode?bot_type=3");
            assert_eq!(request.query.len(), 0);
            assert_eq!(request.timeout_secs, 15);
        }
        _ => panic!("no request"),
    }
}

#[test]
fn code_is_shown() {
    let (state, action) =
        adapter().qr_login_step(LoginState::CodeRequested, body(r#"{"qrcode": "q1"}"#));
    assert!(waits_for(&state, "q1"));
    match action {
        LoginAction::Show(lines) => {
            assert_eq!(
                lines,
                vec![
                    "\nWeChat QR login required.".to_string(),
                    "Scan payload: q1".to_string()
                ]
            );
        }
        _ => panic!("nothing shown"),
    }
}

#[test]
fn code_is_drawn_where_it_has_an_address() {
    let document =
        Json::decode(br#"{"qrcode": "q1", "qrcode_img_content": "hello"}"#).unwrap();
    let (state, action) = take_code(&document);
    assert!(waits_for(&state, "q1"));
    match action {
        LoginAction::Show(lines) => {
            assert_eq!(lines.len(), 3);
            assert_eq!(lines[1], "Scan URL: hello");
            let picture = render_terminal_qr("hello").unwrap();
            assert_eq!(lines[2], format!("\n{picture}\n"));
        }
        _ => panic!("nothing shown"),
    }
}

#[test]
fn prompt_without_a_picture_names_the_address() {
    assert_eq!(
        build_prompt("q", "u", None),
        vec!["\nWeChat QR login required.".to_string(), "Scan URL: u".to_string()]
    );
    assert_eq!(
        build_prompt("q", "u", Some("##".to_string()))[2],
        "\n##\n"
    );
    assert_eq!(build_prompt("q", "", Some("##".to_string())).len(), 2);
}

#[test]
fn picture_has_the_size_of_the_code() {
    let picture = render_terminal_qr("hello").unwrap();
    // 21 modules and a quiet zone of 4 on either side, two rows to a line.
    let lines: Vec<&str> = picture.lines().collect();
    assert_eq!(lines.len(), 15);
    for line in lines {
        assert_eq!(line.chars().count(), 29);
    }
    assert_ne!(render_terminal_qr("hello"), render_terminal_qr("hallo"));
    assert_eq!(render_terminal_qr(&"x".repeat(5000)), None);
}

#[test]
fn answer_without_a_code_fails() {
    for document in ["{}", r#"{"qrcode": 5}"#, "[]"] {
        let step = adapter().qr_login_step(LoginState::CodeRequested, body(document));
        assert_eq!(failure(step), "WeChat QR response missing qrcode");
    }
}

#[test]
fn request_for_a_code_may_fail() {
    let step = adapter().qr_login_step(
        LoginState::CodeRequested,
        LoginEvent::Reply(HttpReply::Refused { status: 503, text: "later".to_string() }),
    );
    assert_eq!(failure(step), "WeChat QR code fetch failed 503 Service Unavailable: later");
    let step = adapter().qr_login_step(
        LoginState::CodeRequested,
        LoginEvent::Reply(HttpReply::TimedOut("too slow".to_string())),
    );
    assert_eq!(failure(step), "too slow");
    let step = adapter().qr_login_step(
        LoginState::CodeRequested,
        LoginEvent::Reply(HttpReply::Failed("no route".to_string())),
    );
    assert_eq!(failure(step), "no route");
    let step = adapter().qr_login_step(LoginState::CodeRequested, body("not json"));
    assert_eq!(failure(step), "error decoding response body");
}

#[test]
fn status_is_asked_for_while_there_is_time() {
    for elapsed in [0, 479] {
        let (state, action) = adapter().qr_login_step(
            LoginState::Waiting { qrcode: "q1".to_string() },
            LoginEvent::Elapsed(elapsed),
        );
        assert!(matches!(state, LoginState::StatusRequested { qrcode } if qrcode == "q1"));
        match action {
            LoginAction::Get(request) => {
                assert_eq!(request.url, "https://x.org/ilink/bot/get_qrcode_status");
                assert_eq!(request.query, vec![("qrcode".to_string(), "q1".to_string())]);
                assert_eq!(request.timeout_secs, 45);
            }
            _ => panic!("no request"),
        }
    }
    for elapsed in [480, u64::MAX] {
        let step = adapter().qr_login_step(
            LoginState::Waiting { qrcode: "q1".to_string() },
            LoginEvent::Elapsed(elapsed),
        );
        assert_eq!(failure(step), "Timed out waiting for WeChat QR confirmation");
    }
}

#[test]
fn timeouts_keep_the_login_waiting() {
    let (state, action) = adapter().qr_login_step(
        asked(),
        LoginEvent::Reply(HttpReply::TimedOut("too slow".to_string())),
    );
    assert!(waits_for(&state, "q1"));
    assert!(matches!(action, LoginAction::CheckClock));
}

#[test]
fn other_failures_end_the_login() {
    let step = adapter().qr_login_step(
        asked(),
        LoginEvent::Reply(HttpReply::Failed("no route".to_string())),
    );
    assert_eq!(failure(step), "no route");
    let step = adapter().qr_login_step(
        asked(),
        LoginEvent::Reply(HttpReply::Refused { status: 400, text: "bad".to_string() }),
    );
    assert_eq!(failure(step), "WeChat QR status failed 400 Bad Request: bad");
    let step = adapter().qr_login_step(asked(), body(""));
    assert_eq!(failure(step), "error decoding response body");
}

#[test]
fn unconfirmed_login_waits_on() {
    for document in ["{}", r#"{"status": "wait"}"#, r#"{"status": "new"}"#, r#"{"status": 1}"#] {
        let (state, action) = adapter().qr_login_step(asked(), body(document));
        assert!(waits_for(&state, "q1"));
        match action {
            LoginAction::Pause { notice, secs } => {
                assert_eq!(notice, None);
                assert_eq!(secs, 1);
            }
            _ => panic!("no pause"),
        }
    }
}

#[test]
fn scanned_code_is_announced() {
    let (state, action) = adapter().qr_login_step(asked(), body(r#"{"status": "scaned"}"#));
    assert!(waits_for(&state, "q1"));
    match action {
        LoginAction::Pause { notice, secs } => {
            assert_eq!(notice, Some("WeChat QR 已扫码，等待手机确认...".to_string()));
            assert_eq!(secs, 1);
        }
        _ => panic!("no pause"),
    }
}

#[test]
fn expired_code_ends_the_login() {
    let step = adapter().qr_login_step(asked(), body(r#"{"status": "expired"}"#));
    assert_eq!(failure(step), "WeChat QR code expired before confirmation");
}

#[test]
fn confirmation_grants_the_login() {
    let (state, action) = adapter().qr_login_step(
        asked(),
        body(
            r#"{"status": "confirmed", "bot_token": "t", "ilink_bot_id": "a",
                "ilink_user_id": "u"}"#,
        ),
    );
    assert!(matches!(state, LoginState::Ended));
    match action {
        LoginAction::Finished { login, notice } => {
            assert_eq!(login.bot_token, "t");
            assert_eq!(login.account_id, "a");
            assert_eq!(login.user_id, Some("u".to_string()));
            assert_eq!(notice, "WeChat connected.");
        }
        _ => panic!("not granted"),
    }
}

#[test]
fn confirmation_may_leave_the_user_out() {
    let document =
        Json::decode(br#"{"status": "confirmed", "bot_token": "", "ilink_bot_id": "a"}"#).unwrap();
    match take_status("q1".to_string(), &document) {
        (LoginState::Ended, LoginAction::Finished { login, .. }) => {
            assert_eq!(login.bot_token, "");
            assert_eq!(login.user_id, None);
        }
        _ => panic!("not granted"),
    }
}

#[test]
fn confirmation_must_name_token_and_account() {
    let step = adapter().qr_login_step(
        asked(),
        body(r#"{"status": "confirmed", "ilink_bot_id": "a"}"#),
    );
    assert_eq!(failure(step), "WeChat login missing bot_token");
    let step = adapter().qr_login_step(
        asked(),
        body(r#"{"status": "confirmed", "bot_token": "t"}"#),
    );
    assert_eq!(failure(step), "WeChat login missing ilink_bot_id");
}

#[test]
fn ended_login_stays_ended() {
    for event in [LoginEvent::Begin, LoginEvent::Elapsed(0), body("{}")] {
        let (state, action) = adapter().qr_login_step(LoginState::Ended, event);
        assert!(matches!(state, LoginState::Ended));
        assert!(matches!(action, LoginAction::Nothing));
    }
    let (state, action) = adapter().qr_login_step(LoginState::Start, LoginEvent::Elapsed(3));
    assert!(matches!(state, LoginState::Start));
    assert!(matches!(action, LoginAction::Nothing));
}

#[test]
fn unknown_status_is_told() {
    for (document, expected) in [
        (r#"{"status": "new"}"#, Some("new")),
        (r#"{"status": ""}"#, Some("")),
        (r#"{"status": "wait"}"#, None),
        (r#"{"status": "scaned"}"#, None),
        (r#"{"status": "expired"}"#, None),
        (r#"{"status": "confirmed"}"#, None),
        (r#"{"status": 3}"#, None),
        ("{}", None),
    ] {
        let document = Json::decode(document.as_bytes()).unwrap();
        assert_eq!(unhandled_status(&document), expected);
    }
}

#[test]
fn long_texts_are_not_drawn() {
    assert!(render_terminal_qr("").is_some());
    assert!(render_terminal_qr(&"x".repeat(128)).is_some());
    assert_eq!(render_terminal_qr(&"x".repeat(129)), None);
    // Three bytes each: what counts is the length in UTF-8.
    assert!(render_terminal_qr(&"\u{4e2d}".repeat(42)).is_some());
    assert_eq!(render_terminal_qr(&"\u{4e2d}".repeat(43)), None);
    // Many short segments make the largest codes.
    let mixed: String = "a1234".repeat(26).chars().take(128).collect();
    let picture = render_terminal_qr(&mixed).unwrap();
    let width = picture.lines().next().unwrap().chars().count();
    assert!(width <= 65 + 8);
    assert_eq!(render_terminal_qr(&"a1234".repeat(26)), None);
}

#[test]
fn long_address_is_named_without_a_picture() {
    let address = "x".repeat(129);
    let (state, action) = adapter().qr_login_step(
        LoginState::CodeRequested,
        body(&format!(r#"{{"qrcode": "q1", "qrcode_img_content": "{address}"}}"#)),
    );
    assert!(waits_for(&state, "q1"));
    match action {
        LoginAction::Show(lines) => {
            assert_eq!(
                lines,
                vec!["\nWeChat QR login required.".to_string(), format!("Scan URL: {address}")]
            );
        }
        _ => panic!("nothing shown"),
    }
    let address = "x".repeat(128);
    let (_, action) = adapter().qr_login_step(
        LoginState::CodeRequested,
        body(&format!(r#"{{"qrcode": "q1", "qrcode_img_content": "{address}"}}"#)),
    );
    match action {
        LoginAction::Show(lines) => assert_eq!(lines.len(), 3),
        _ => panic!("nothing shown"),
    }
}
