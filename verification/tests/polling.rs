use openfang_wechat::adapter::WeChatAdapter;
use openfang_wechat::channel::{ChannelContent, ChannelMessage};
use openfang_wechat::cycle::{PollCommand, PollInput, PollState};
use openfang_wechat::http::{HttpReply, PostRequest};
use openfang_wechat::json::Json;
use openfang_wechat::login::{LoginAction, LoginEvent, LoginState};
use openfang_wechat::poll::{read_reported_error, Backoff, PollAction, PollEvent};
use openfang_wechat::state::SyncData;
use openfang_wechat::text;

fn adapter() -> WeChatAdapter {
    WeChatAdapter::new(
        "TOKEN".to_string(),
        "ACCOUNT".to_string(),
        "USER".to_string(),
        vec!["alice".to_string()],
        Some("https://x.org".to_string()),
        None,
        None,
    )
}

fn logged_in() -> WeChatAdapter {
    let mut adapter = adapter();
    let sync = SyncData { get_updates_buf: "p0".to_string() };
    adapter.load_persisted_state(Some("tok"), None, None, Some(sync));
    adapter
}

fn body(document: &str) -> HttpReply {
    HttpReply::Body(document.as_bytes().to_vec())
}

fn post(command: PollCommand) -> PostRequest {
    match command {
        PollCommand::Post { granted: None, request } => request,
        _ => panic!("no plain request"),
    }
}

fn delivery(command: PollCommand) -> (Option<SyncData>, ChannelMessage) {
    match command {
        PollCommand::Deliver { save, message } => (save, message),
        _ => panic!("nothing to hand on"),
    }
}

fn end(command: PollCommand) -> (Option<SyncData>, Result<(), String>) {
    match command {
        PollCommand::Done { save, result } => (save, result),
        _ => panic!("not at its end"),
    }
}

fn said(message: &ChannelMessage) -> &str {
    match &message.content {
        ChannelContent::Text(said) => said,
        _ => panic!("not a text"),
    }
}

const TWO_MESSAGES: &str = r#"{
    "ret": 0,
    "get_updates_buf": "p1",
    "msgs": [
        {"from_user_id": "mallory", "item_list": [{"type": 1, "text_item": {"text": "x"}}]},
        {"from_user_id": "alice", "message_id": 7, "create_time_ms": 1500, "context_token": "c1",
         "item_list": [{"type": 1, "text_item": {"text": "one"}}]},
        {"from_user_id": "alice", "message_id": 8, "create_time_ms": 2500,
         "item_list": [{"type": 3, "voice_item": {"text": "two"}}]}
    ]
}"#;

#[test]
fn poll_asks_for_updates() {
    let mut adapter = logged_in();
    let (state, command) = adapter.poll_once(PollState::Start, PollInput::Begin, "1.2");
    assert!(matches!(state, PollState::Requested));
    let request = post(command);
    assert_eq!(request.url, "https://x.org/ilink/bot/getupdates");
    assert_eq!(request.timeout_ms, 35_000);
    assert_eq!(request.headers.len(), 3);
    assert_eq!(request.headers[2], ("authorization".to_string(), "Bearer tok".to_string()));
    assert_eq!(
        String::from_utf8(request.body).unwrap(),
        r#"{"base_info":{"channel_version":"1.2"},"get_updates_buf":"p0"}"#
    );
}

#[test]
fn updates_need_a_token() {
    let error = match adapter().updates_request("1") {
        Ok(_) => panic!("asked without a token"),
        Err(error) => error,
    };
    assert_eq!(error, "WeChat token missing after login");
}

#[test]
fn poll_hands_messages_on() {
    let mut adapter = logged_in();
    let (state, command) =
        adapter.poll_once(PollState::Requested, PollInput::Reply(body(TWO_MESSAGES)), "1");
    let (save, message) = delivery(command);
    assert_eq!(save.unwrap().get_updates_buf, "p1");
    assert_eq!(adapter.cursor(), "p1");
    assert_eq!(said(&message), "one");
    assert_eq!(message.platform_message_id, "7");
    assert_eq!(message.timestamp.timestamp_millis(), 1500);
    assert_eq!(adapter.status().messages_received, 0);
    assert_eq!(adapter.get_context_token("alice"), Some("c1".to_string()));
    assert_eq!(adapter.get_context_token("mallory"), None);

    let (state, command) = adapter.poll_once(state, PollInput::HandedOn(true), "1");
    assert_eq!(adapter.status().messages_received, 1);
    assert!(adapter.status().last_message_at.is_some());
    let (save, message) = delivery(command);
    assert!(save.is_none());
    assert_eq!(said(&message), "two");
    assert_eq!(message.platform_message_id, "8");

    let (state, command) = adapter.poll_once(state, PollInput::HandedOn(true), "1");
    assert!(matches!(state, PollState::Ended));
    assert_eq!(end(command), (None, Ok(())));
    assert_eq!(adapter.status().messages_received, 2);

    let (state, command) = adapter.poll_once(state, PollInput::HandedOn(true), "1");
    assert!(matches!(state, PollState::Ended));
    assert!(matches!(command, PollCommand::Nothing));
    assert_eq!(adapter.status().messages_received, 2);
}

#[test]
fn poll_ends_where_no_one_listens() {
    let mut adapter = logged_in();
    let (state, _) =
        adapter.poll_once(PollState::Requested, PollInput::Reply(body(TWO_MESSAGES)), "1");
    let (state, command) = adapter.poll_once(state, PollInput::HandedOn(false), "1");
    assert!(matches!(state, PollState::Ended));
    assert_eq!(end(command), (None, Ok(())));
    assert_eq!(adapter.status().messages_received, 0);
}

#[test]
fn empty_answer_ends_the_poll() {
    let mut adapter = logged_in();
    let (state, command) =
        adapter.poll_once(PollState::Requested, PollInput::Reply(body("{}")), "1");
    assert!(matches!(state, PollState::Ended));
    assert_eq!(end(command), (None, Ok(())));
    assert_eq!(adapter.cursor(), "p0");
    let (_, command) = adapter.poll_once(
        PollState::Requested,
        PollInput::Reply(body(r#"{"get_updates_buf": "", "msgs": 5}"#)),
        "1",
    );
    assert_eq!(end(command), (None, Ok(())));
    assert_eq!(adapter.cursor(), "p0");
    let (_, command) = adapter.poll_once(
        PollState::Requested,
        PollInput::Reply(body(r#"{"get_updates_buf": "p2"}"#)),
        "1",
    );
    let (save, result) = end(command);
    assert_eq!(save.unwrap().get_updates_buf, "p2");
    assert_eq!(result, Ok(()));
    assert_eq!(adapter.cursor(), "p2");
}

#[test]
fn failed_polls_change_nothing() {
    let replies = vec![
        (
            HttpReply::Refused { status: 502, text: "oops".to_string() },
            "WeChat getUpdates failed 502 Bad Gateway: oops",
        ),
        (HttpReply::TimedOut("too slow".to_string()), "too slow"),
        (HttpReply::Failed("no route".to_string()), "no route"),
        (body("<html>"), "error decoding response body"),
        (
            body(r#"{"ret": -3, "errcode": 5, "errmsg": "no", "get_updates_buf": "p9"}"#),
            "WeChat getUpdates API error ret=-3 errcode=5 errmsg=no",
        ),
        (
            body(r#"{"errcode": -14}"#),
            "WeChat getUpdates API error ret=0 errcode=-14 errmsg=unknown",
        ),
    ];
    for (reply, expected) in replies {
        let mut adapter = logged_in();
        let (state, command) =
            adapter.poll_once(PollState::Requested, PollInput::Reply(reply), "1");
        assert!(matches!(state, PollState::Ended));
        assert_eq!(end(command), (None, Err(expected.to_string())));
        assert_eq!(adapter.cursor(), "p0");
        assert_eq!(adapter.get_token(), Some("tok".to_string()));
        assert_eq!(adapter.status().last_error, None);
    }
}

#[test]
fn codes_that_are_no_numbers_do_not_count() {
    let document = Json::decode(br#"{"ret": "1", "errcode": 1.5}"#).unwrap();
    assert_eq!(read_reported_error(&document), None);
    let document = Json::decode(br#"{"ret": 9223372036854775807}"#).unwrap();
    assert_eq!(
        read_reported_error(&document),
        Some("WeChat getUpdates API error ret=9223372036854775807 errcode=0 errmsg=unknown"
            .to_string())
    );
    let document = Json::decode(br#"{"ret": -9223372036854775808}"#).unwrap();
    assert_eq!(
        read_reported_error(&document),
        Some("WeChat getUpdates API error ret=-9223372036854775808 errcode=0 errmsg=unknown"
            .to_string())
    );
    let document = Json::decode(br#"{"ret": 9223372036854775808}"#).unwrap();
    assert_eq!(read_reported_error(&document), None);
}

#[test]
fn document_may_be_taken_over_by_itself() {
    let mut adapter = logged_in();
    let document = Json::decode(TWO_MESSAGES.as_bytes()).unwrap();
    let (_, command) = adapter.take_answer(document);
    assert_eq!(said(&delivery(command).1), "one");
    let document = Json::decode(TWO_MESSAGES.as_bytes()).unwrap();
    let updates = match adapter.take_updates(document) {
        Ok(updates) => updates,
        Err(message) => panic!("{}", message),
    };
    assert_eq!(updates.batch.messages.len(), 3);
    assert_eq!(updates.batch.seen, 0);
    assert_eq!(updates.save.unwrap().get_updates_buf, "p1");
    let document = Json::decode(br#"{"ret": 1}"#).unwrap();
    assert!(adapter.take_updates(document).is_err());
}

#[test]
fn poll_without_a_login_logs_in_first() {
    let mut adapter = adapter();
    let (state, command) = adapter.poll_once(PollState::Start, PollInput::Begin, "1");
    assert!(matches!(state, PollState::LoggingIn(LoginState::CodeRequested)));
    assert!(matches!(command, PollCommand::Login(LoginAction::Get(_))));

    let code = PollInput::Login(LoginEvent::Reply(body(r#"{"qrcode": "q"}"#)));
    let (state, command) = adapter.poll_once(state, code, "1");
    assert!(matches!(command, PollCommand::Login(LoginAction::Show(_))));

    let (state, command) =
        adapter.poll_once(state, PollInput::Login(LoginEvent::Elapsed(0)), "1");
    assert!(matches!(command, PollCommand::Login(LoginAction::Get(_))));

    let confirmation = PollInput::Login(LoginEvent::Reply(body(
        r#"{"status": "confirmed", "bot_token": "t", "ilink_bot_id": "a"}"#,
    )));
    let (state, command) = adapter.poll_once(state, confirmation, "1");
    assert!(matches!(state, PollState::Requested));
    match command {
        PollCommand::Post { granted: Some((notice, account)), request } => {
            assert_eq!(notice, "WeChat connected.");
            assert_eq!(account.token, Some("t".to_string()));
            assert_eq!(account.account_id, Some("a".to_string()));
            assert_eq!(account.user_id, None);
            assert!(account.saved_at.is_some());
            assert_eq!(request.headers[2].1, "Bearer t");
        }
        _ => panic!("no request"),
    }
    assert_eq!(adapter.get_token(), Some("t".to_string()));
    assert!(adapter.status().connected);
}

#[test]
fn failed_login_ends_the_poll() {
    let mut adapter = adapter();
    let (state, _) = adapter.poll_once(PollState::Start, PollInput::Begin, "1");
    let (state, command) =
        adapter.poll_once(state, PollInput::Login(LoginEvent::Reply(body("{}"))), "1");
    assert!(matches!(state, PollState::Ended));
    assert_eq!(end(command), (None, Err("WeChat QR response missing qrcode".to_string())));
    assert!(adapter.needs_login());
}

#[test]
fn poll_ignores_what_does_not_concern_it() {
    let mut adapter = logged_in();
    let (state, command) = adapter.poll_once(PollState::Start, PollInput::HandedOn(true), "1");
    assert!(matches!(state, PollState::Start));
    assert!(matches!(command, PollCommand::Nothing));
    let (state, command) = adapter.poll_once(PollState::Requested, PollInput::Begin, "1");
    assert!(matches!(state, PollState::Requested));
    assert!(matches!(command, PollCommand::Nothing));
}

fn fail(adapter: &mut WeChatAdapter, backoff: &mut Backoff, message: &str) -> PollAction {
    adapter.poll_updates(backoff, PollEvent::Polled(Err(message.to_string())))
}

#[test]
fn pauses_double_up_to_the_longest() {
    let mut adapter = logged_in();
    let mut backoff = Backoff::new();
    for secs in [2, 4, 8, 16, 30, 30, 30] {
        assert_eq!(fail(&mut adapter, &mut backoff, "boom"), PollAction::PollAfter(secs));
    }
    assert_eq!(backoff.secs, 30);
    assert_eq!(adapter.status().last_error, Some("boom".to_string()));
    assert_eq!(adapter.get_token(), Some("tok".to_string()));
    let action = adapter.poll_updates(&mut backoff, PollEvent::Polled(Ok(())));
    assert_eq!(action, PollAction::Poll);
    assert_eq!(adapter.status().last_error, Some("boom".to_string()));
    assert_eq!(fail(&mut adapter, &mut backoff, "boom"), PollAction::PollAfter(2));
}

#[test]
fn expired_login_is_renewed() {
    for document in [r#"{"errcode": -14}"#, r#"{"ret": -14, "errcode": 3}"#] {
        let mut adapter = logged_in();
        let (_, command) =
            adapter.poll_once(PollState::Requested, PollInput::Reply(body(document)), "1");
        let message = end(command).1.unwrap_err();
        let mut backoff = Backoff::new();
        assert_eq!(fail(&mut adapter, &mut backoff, &message), PollAction::PollAfter(2));
        assert_eq!(adapter.get_token(), None);
        assert_eq!(adapter.cursor(), "p0");
        let (state, _) = adapter.poll_once(PollState::Start, PollInput::Begin, "1");
        assert!(matches!(state, PollState::LoggingIn(_)));
    }
}

#[test]
fn any_failure_that_holds_the_code_counts_as_expired() {
    for (message, expired) in [
        ("-14", true),
        ("errcode=-140", true),
        ("x-14y", true),
        ("14", false),
        ("- 14", false),
        ("", false),
        ("-1", false),
    ] {
        let mut adapter = logged_in();
        let mut backoff = Backoff::new();
        fail(&mut adapter, &mut backoff, message);
        assert_eq!(adapter.needs_login(), expired);
        assert_eq!(adapter.status().last_error, Some(message.to_string()));
    }
}

#[test]
fn loop_ends_only_when_told() {
    let mut adapter = logged_in();
    let mut backoff = Backoff { secs: 8 };
    let action = adapter.poll_updates(&mut backoff, PollEvent::Shutdown(false));
    assert_eq!(action, PollAction::Poll);
    assert_eq!(backoff.secs, 8);
    let action = adapter.poll_updates(&mut backoff, PollEvent::Shutdown(true));
    assert_eq!(action, PollAction::Stop);
    assert_eq!(text::decimal_i64(-14), "-14");
}

#[test]
fn ignored_senders_are_told() {
    let adapter = logged_in();
    let document = Json::decode(
        br#"{"msgs": [{"from_user_id": "mallory"}, {"from_user_id": "alice"}, {"from_user_id": ""},
             {}, {"from_user_id": "bob"}, {"from_user_id": "mallory"}]}"#,
    )
    .unwrap();
    assert_eq!(
        adapter.ignored_senders(&document),
        vec!["mallory".to_string(), "bob".to_string(), "mallory".to_string()]
    );
    let failed =
        Json::decode(br#"{"ret": 1, "msgs": [{"from_user_id": "mallory"}]}"#).unwrap();
    assert_eq!(adapter.ignored_senders(&failed).len(), 0);
    let none = Json::decode(br#"{"msgs": 5}"#).unwrap();
    assert_eq!(adapter.ignored_senders(&none).len(), 0);
}

fn whole_poll(adapter: &mut WeChatAdapter, answer: &str) -> Vec<(String, String)> {
    let mut handed = vec![];
    let (mut state, mut command) =
        adapter.poll_once(PollState::Requested, PollInput::Reply(body(answer)), "1");
    while let PollCommand::Deliver { message, .. } = command {
        handed.push((message.platform_message_id.clone(), said(&message).to_string()));
        let next = adapter.poll_once(state, PollInput::HandedOn(true), "1");
        state = next.0;
        command = next.1;
    }
    assert!(matches!(state, PollState::Ended));
    assert!(matches!(command, PollCommand::Done { result: Ok(()), .. }));
    handed
}

#[test]
fn strangers_do_not_matter() {
    let without = r#"{"get_updates_buf": "p1", "msgs": [
        {"from_user_id": "alice", "message_id": 1, "context_token": "c1",
         "item_list": [{"type": 1, "text_item": {"text": "a"}}]},
        {"from_user_id": "alice", "message_id": 2, "context_token": "c2"},
        {"from_user_id": "alice", "message_id": 3,
         "item_list": [{"type": 1, "text_item": {"text": "b"}}]}]}"#;
    let with = r#"{"get_updates_buf": "p1", "msgs": [
        {"from_user_id": "bob", "message_id": 9, "context_token": "x",
         "item_list": [{"type": 1, "text_item": {"text": "z"}}]},
        {"from_user_id": "alice", "message_id": 1, "context_token": "c1",
         "item_list": [{"type": 1, "text_item": {"text": "a"}}]},
        {"from_user_id": "alice", "message_id": 2, "context_token": "c2"},
        {"from_user_id": "eve", "message_id": 8,
         "item_list": [{"type": 1, "text_item": {"text": "y"}}]},
        {"from_user_id": "alice", "message_id": 3,
         "item_list": [{"type": 1, "text_item": {"text": "b"}}]},
        {}]}"#;
    let expected = vec![
        ("1".to_string(), "a".to_string()),
        ("3".to_string(), "b".to_string()),
    ];
    for answer in [without, with] {
        let mut adapter = logged_in();
        assert_eq!(whole_poll(&mut adapter, answer), expected);
        assert_eq!(adapter.cursor(), "p1");
        assert_eq!(adapter.get_context_token("alice"), Some("c2".to_string()));
        assert_eq!(adapter.get_context_token("bob"), None);
        assert_eq!(adapter.status().messages_received, 2);
    }
}

#[test]
fn shutdown_signals_do_not_change_the_pace() {
    let mut adapter = logged_in();
    let mut backoff = Backoff::new();
    assert_eq!(fail(&mut adapter, &mut backoff, "boom"), PollAction::PollAfter(2));
    adapter.poll_updates(&mut backoff, PollEvent::Shutdown(false));
    assert_eq!(fail(&mut adapter, &mut backoff, "boom"), PollAction::PollAfter(4));
}

#[test]
fn counter_matters_only_where_a_message_was_handed_on() {
    let mut adapter = logged_in();
    for state in [PollState::Start, PollState::Requested, PollState::Ended] {
        let (_, command) = adapter.poll_once(state, PollInput::HandedOn(true), "1");
        assert!(matches!(command, PollCommand::Nothing));
    }
    assert_eq!(adapter.status().messages_received, 0);
}
