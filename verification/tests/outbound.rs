use openfang_wechat::adapter::WeChatAdapter;
use openfang_wechat::channel::{ChannelContent, ChannelUser};
use openfang_wechat::http::{build_headers, compose_refusal, io_error, refusal_message};
use openfang_wechat::inbound::extract_text_from_items;
use openfang_wechat::json::Json;
use openfang_wechat::outbound::build_send_document;
use openfang_wechat::time::Timestamp;
use serde_json::Value;

fn adapter(base: Option<&str>) -> WeChatAdapter {
    WeChatAdapter::new(
        "TOKEN".to_string(),
        "ACCOUNT".to_string(),
        "USER".to_string(),
        vec![],
        base.map(|url| url.to_string()),
        None,
        None,
    )
}

fn logged_in(base: Option<&str>) -> WeChatAdapter {
    let mut adapter = adapter(base);
    adapter.load_persisted_state(Some(" tok "), None, None, None);
    adapter
}

fn read(bytes: &[u8]) -> Value {
    serde_json::from_slice(bytes).unwrap()
}

fn header<'a>(headers: &'a [(String, String)], name: &str) -> Option<&'a str> {
    headers
        .iter()
        .find(|(known, _)| known == name)
        .map(|(_, value)| value.as_str())
}

#[test]
fn send_needs_a_login() {
    let error = match adapter(None).send_text("alice", "hi", "1.2.3") {
        Ok(_) => panic!("sent without a login"),
        Err(error) => error,
    };
    assert_eq!(error.message, "WeChat is not logged in");
}

#[test]
fn send_request_says_everything() {
    let mut adapter = logged_in(Some("https://example.org/api///"));
    adapter.update_context_token("alice", "ctx");
    let request = match adapter.send_text_as("alice", "hi \"you\"\n", "f00", "1.2.3") {
        Ok(request) => request,
        Err(error) => panic!("{}", error.message),
    };
    assert_eq!(request.url, "https://example.org/api/ilink/bot/sendmessage");
    assert_eq!(request.timeout_ms, 15_000);
    assert_eq!(header(&request.headers, "content-type"), Some("application/json"));
    assert_eq!(header(&request.headers, "AuthorizationType"), Some("ilink_bot_token"));
    assert_eq!(header(&request.headers, "authorization"), Some("Bearer tok"));
    assert_eq!(request.headers.len(), 3);
    assert_eq!(
        String::from_utf8(request.body).unwrap(),
        concat_lines(&[
            r#"{"base_info":{"channel_version":"1.2.3"},"msg":{"client_id":"openfang-f00","#,
            r#""context_token":"ctx","from_user_id":"","item_list":[{"text_item":{"text":"#,
            r#""hi \"you\"\n"},"type":1}],"message_state":2,"message_type":2,"#,
            r#""to_user_id":"alice"}}"#,
        ])
    );
}

fn concat_lines(lines: &[&str]) -> String {
    lines.concat()
}

#[test]
fn send_without_context_sends_an_empty_one() {
    let mut adapter = logged_in(None);
    adapter.update_context_token("bob", "ctx");
    let request = match adapter.send_text_as("alice", "hi", "f00", "1") {
        Ok(request) => request,
        Err(error) => panic!("{}", error.message),
    };
    assert_eq!(request.url, "https://ilinkai.weixin.qq.com/ilink/bot/sendmessage");
    let body = read(&request.body);
    assert_eq!(body["msg"]["context_token"].as_str(), Some(""));
    assert_eq!(body["msg"]["to_user_id"].as_str(), Some("alice"));
}

#[test]
fn context_token_is_echoed() {
    let mut adapter = logged_in(None);
    let message = Json::decode(
        br#"{"from_user_id": "alice", "context_token": "t-9", "item_list": []}"#,
    )
    .unwrap();
    let now = Timestamp::new(0, 0).unwrap();
    assert!(adapter.accept_message(&message, "f", now).is_none());
    let request = match adapter.send_text("alice", "hi", "1") {
        Ok(request) => request,
        Err(error) => panic!("{}", error.message),
    };
    assert_eq!(read(&request.body)["msg"]["context_token"].as_str(), Some("t-9"));
    let request = match adapter.send_text("bob", "hi", "1") {
        Ok(request) => request,
        Err(error) => panic!("{}", error.message),
    };
    assert_eq!(read(&request.body)["msg"]["context_token"].as_str(), Some(""));
}

#[test]
fn client_identifier_is_drawn() {
    let adapter = logged_in(None);
    let mut ids: Vec<String> = vec![];
    for _ in 0..2 {
        let request = match adapter.send_text("alice", "hi", "1") {
            Ok(request) => request,
            Err(error) => panic!("{}", error.message),
        };
        let body = read(&request.body);
        let id = body["msg"]["client_id"].as_str().unwrap().to_string();
        let drawn = id.strip_prefix("openfang-").unwrap();
        assert_eq!(drawn.len(), 36);
        assert_eq!(drawn.as_bytes()[14], b'4');
        ids.push(id);
    }
    assert_ne!(ids[0], ids[1]);
}

#[test]
fn sent_items_say_the_content() {
    let document = build_send_document("alice", "  hello\n", "c", "t", "1");
    let items = document.get("msg").unwrap().get("item_list").unwrap().as_array().unwrap();
    assert_eq!(extract_text_from_items(items), "hello");
}

#[test]
fn written_document_reads_back() {
    let document = build_send_document("al\u{1F600}ice", "tab\t\u{0}quote\"", "c", "t", "1");
    let again = Json::decode(&document.encode()).unwrap();
    let msg = again.get("msg").unwrap();
    assert_eq!(msg.str_at("to_user_id"), Some("al\u{1F600}ice"));
    assert_eq!(msg.u64_at("message_type"), Some(2));
    assert_eq!(
        msg.get("item_list").unwrap().as_array().unwrap()[0]
            .get("text_item")
            .unwrap()
            .str_at("text"),
        Some("tab\t\u{0}quote\"")
    );
}

fn user(id: &str) -> ChannelUser {
    ChannelUser {
        platform_id: id.to_string(),
        display_name: "someone".to_string(),
        openfang_user: None,
    }
}

#[test]
fn contents_become_plain_text() {
    let cases = vec![
        (ChannelContent::Text("hi".to_string()), "hi"),
        (
            ChannelContent::Image { url: "u".to_string(), caption: Some("c".to_string()) },
            "[image] c\nu",
        ),
        (ChannelContent::Image { url: "u".to_string(), caption: None }, "[image] u"),
        (
            ChannelContent::File { url: "u".to_string(), filename: "f.txt".to_string() },
            "[file] f.txt\nu",
        ),
        (ChannelContent::FileData { filename: "f.txt".to_string() }, "[file] f.txt"),
        (
            ChannelContent::Voice { url: "u".to_string(), duration_seconds: 120 },
            "[voice 120s] u",
        ),
        (
            ChannelContent::Location { lat: "1.5".to_string(), lon: "-2".to_string() },
            "[location] 1.5, -2",
        ),
        (ChannelContent::Command { name: "help".to_string(), args: vec![] }, "/help"),
        (
            ChannelContent::Command {
                name: "run".to_string(),
                args: vec!["a".to_string(), "".to_string(), "b c".to_string()],
            },
            "/run a  b c",
        ),
    ];
    let adapter = logged_in(None);
    for (content, expected) in cases {
        assert_eq!(content.to_plain_text(), expected);
        let request = match adapter.send(&user("alice"), &content, "1") {
            Ok(request) => request,
            Err(error) => panic!("{}", error.message),
        };
        let body = read(&request.body);
        assert_eq!(body["msg"]["item_list"][0]["text_item"]["text"].as_str(), Some(expected));
        assert_eq!(body["msg"]["to_user_id"].as_str(), Some("alice"));
    }
    assert!(self::adapter(None)
        .send(&user("alice"), &ChannelContent::Text("hi".to_string()), "1")
        .is_err());
}

#[test]
fn sent_messages_are_counted() {
    let mut adapter = logged_in(None);
    assert!(adapter.finish_send(200, "").is_ok());
    assert!(adapter.finish_send(299, "").is_ok());
    assert_eq!(adapter.status().messages_sent, 2);
}

#[test]
fn refused_sends_are_reported() {
    let mut adapter = logged_in(None);
    let error = match adapter.finish_send(403, "nope") {
        Ok(()) => panic!("a refusal passed for a success"),
        Err(error) => error,
    };
    assert_eq!(error.message, "WeChat sendMessage failed 403 Forbidden: nope");
    let error = match adapter.finish_send(302, "") {
        Ok(()) => panic!("a refusal passed for a success"),
        Err(error) => error,
    };
    assert_eq!(error.message, "WeChat sendMessage failed 302 Found: ");
    assert_eq!(adapter.status().messages_sent, 0);
}

#[test]
fn refusals_name_the_status() {
    assert_eq!(refusal_message("X", 404, "gone"), "X 404 Not Found: gone");
    assert_eq!(refusal_message("X", 500, ""), "X 500 Internal Server Error: ");
    assert_eq!(refusal_message("X", 599, "t"), "X 599 <unknown status code>: t");
    assert_eq!(compose_refusal("a", "b", "c"), "a b: c");
}

#[test]
fn token_goes_along_where_it_may() {
    assert_eq!(header(&build_headers(Some("tok")), "authorization"), Some("Bearer tok"));
    assert_eq!(header(&build_headers(Some("a\tb")), "authorization"), Some("Bearer a\tb"));
    assert_eq!(
        header(&build_headers(Some("\u{4f60}")), "authorization"),
        Some("Bearer \u{4f60}")
    );
    for token in [None, Some(""), Some("a\nb"), Some("a\u{7f}"), Some("\u{0}"), Some("\u{1f}")] {
        let headers = build_headers(token);
        assert_eq!(headers.len(), 2);
        assert_eq!(header(&headers, "authorization"), None);
    }
}

#[test]
fn errors_carry_their_message() {
    assert_eq!(io_error("broken".to_string()).message, "broken");
}
