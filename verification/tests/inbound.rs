use openfang_wechat::adapter::WeChatAdapter;
use openfang_wechat::channel::{ChannelContent, ChannelMessage, ChannelType};
use openfang_wechat::inbound::{extract_text_from_items, UpdateBatch};
use openfang_wechat::json::Json;
use openfang_wechat::time::Timestamp;

fn text(s: &str) -> Json {
    Json::Text(s.to_string())
}

fn number(n: i128) -> Json {
    Json::Number(Some(n))
}

fn object(members: Vec<(&str, Json)>) -> Json {
    Json::Object(
        members
            .into_iter()
            .map(|(name, value)| (name.to_string(), value))
            .collect(),
    )
}

fn text_item(said: &str) -> Json {
    object(vec![
        ("type", number(1)),
        ("text_item", object(vec![("text", text(said))])),
    ])
}

fn voice_item(said: &str) -> Json {
    object(vec![
        ("type", number(3)),
        ("voice_item", object(vec![("text", text(said))])),
    ])
}

fn message(from: &str, said: &str) -> Json {
    object(vec![
        ("from_user_id", text(from)),
        ("item_list", Json::Array(vec![text_item(said)])),
    ])
}

fn adapter(allowed: Vec<&str>) -> WeChatAdapter {
    WeChatAdapter::new(
        "TOKEN".to_string(),
        "ACCOUNT".to_string(),
        "USER".to_string(),
        allowed.into_iter().map(|name| name.to_string()).collect(),
        None,
        None,
        None,
    )
}

fn moment() -> Timestamp {
    Timestamp::new(1_700_000_000, 123_456_789).unwrap()
}

fn said(message: &ChannelMessage) -> &str {
    match &message.content {
        ChannelContent::Text(said) => said,
        _ => panic!("not a text"),
    }
}

#[test]
fn wechat_extracts_text_from_text_item() {
    let items = vec![object(vec![
        ("type", number(1)),
        ("text_item", object(vec![("text", text("hello wechat"))])),
    ])];
    assert_eq!(extract_text_from_items(&items), "hello wechat");
}

#[test]
fn wechat_extracts_transcribed_voice_text() {
    let items = vec![object(vec![
        ("type", number(3)),
        ("voice_item", object(vec![("text", text("voice text"))])),
    ])];
    assert_eq!(extract_text_from_items(&items), "voice text");
}

#[test]
fn no_items_say_nothing() {
    assert_eq!(extract_text_from_items(&[]), "");
    assert_eq!(extract_text_from_items(&[Json::Null, text("x")]), "");
}

#[test]
fn text_is_trimmed() {
    assert_eq!(extract_text_from_items(&[text_item(" \t hi there\u{3000}\n")]), "hi there");
    assert_eq!(extract_text_from_items(&[voice_item("\u{a0}hi ")]), "hi");
}

#[test]
fn blank_text_item_ends_the_search() {
    assert_eq!(extract_text_from_items(&[text_item("  "), text_item("later")]), "");
}

#[test]
fn blank_transcript_is_passed_over() {
    assert_eq!(extract_text_from_items(&[voice_item("  "), text_item("later")]), "later");
}

#[test]
fn items_of_other_kinds_are_passed_over() {
    let picture = object(vec![
        ("type", number(2)),
        ("text_item", object(vec![("text", text("no"))])),
    ]);
    let odd = object(vec![
        ("type", Json::Number(None)),
        ("text_item", object(vec![("text", text("no"))])),
    ]);
    let kindless = object(vec![("text_item", object(vec![("text", text("no"))]))]);
    let hollow = object(vec![("type", number(1)), ("text_item", text("no"))]);
    let wordless = object(vec![
        ("type", number(1)),
        ("text_item", object(vec![("text", number(5))])),
    ]);
    let items = vec![picture, odd, kindless, hollow, wordless, voice_item("yes")];
    assert_eq!(extract_text_from_items(&items), "yes");
}

#[test]
fn message_with_number_and_time_is_handed_on() {
    let mut adapter = adapter(vec![]);
    let message = object(vec![
        ("from_user_id", text("alice")),
        ("message_id", number(18_446_744_073_709_551_615)),
        ("create_time_ms", number(1_600_000_000_789)),
        ("item_list", Json::Array(vec![text_item(" hello ")])),
    ]);
    let handed = adapter.accept_message(&message, "fresh", moment()).unwrap();
    assert_eq!(handed.channel, ChannelType::Custom("wechat".to_string()));
    assert_eq!(handed.platform_message_id, "18446744073709551615");
    assert_eq!(handed.sender.platform_id, "alice");
    assert_eq!(handed.sender.display_name, "alice");
    assert_eq!(handed.sender.openfang_user, None);
    assert_eq!(said(&handed), "hello");
    assert_eq!(handed.target_agent, None);
    assert_eq!(handed.timestamp, Timestamp { secs: 1_600_000_000, nanos: 789_000_000 });
    assert!(!handed.is_group);
    assert_eq!(handed.thread_id, None);
    assert_eq!(handed.metadata.len(), 0);
}

#[test]
fn message_without_number_or_time_gets_them() {
    let mut adapter = adapter(vec![]);
    let handed = adapter.accept_message(&message("alice", "x"), "fresh", moment()).unwrap();
    assert_eq!(handed.platform_message_id, "wechat-fresh");
    assert_eq!(handed.timestamp, Timestamp { secs: 1_700_000_000, nanos: 123_000_000 });
}

#[test]
fn negative_or_textual_number_does_not_count() {
    let mut adapter = adapter(vec![]);
    let negative = object(vec![
        ("from_user_id", text("alice")),
        ("message_id", number(-1)),
        ("item_list", Json::Array(vec![text_item("x")])),
    ]);
    let handed = adapter.accept_message(&negative, "a", moment()).unwrap();
    assert_eq!(handed.platform_message_id, "wechat-a");
    let textual = object(vec![
        ("from_user_id", text("alice")),
        ("message_id", text("7")),
        ("item_list", Json::Array(vec![text_item("x")])),
    ]);
    let handed = adapter.accept_message(&textual, "b", moment()).unwrap();
    assert_eq!(handed.platform_message_id, "wechat-b");
}

#[test]
fn time_out_of_range_gives_way_to_the_present() {
    let mut adapter = adapter(vec![]);
    let message = object(vec![
        ("from_user_id", text("alice")),
        ("create_time_ms", number(i64::MAX as i128)),
        ("item_list", Json::Array(vec![text_item("x")])),
    ]);
    let handed = adapter.accept_message(&message, "fresh", moment()).unwrap();
    assert_eq!(handed.timestamp, moment());
}

#[test]
fn time_before_the_epoch_is_kept() {
    let mut adapter = adapter(vec![]);
    let message = object(vec![
        ("from_user_id", text("alice")),
        ("create_time_ms", number(-1)),
        ("item_list", Json::Array(vec![text_item("x")])),
    ]);
    let handed = adapter.accept_message(&message, "fresh", moment()).unwrap();
    assert_eq!(handed.timestamp, Timestamp { secs: -1, nanos: 999_000_000 });
}

#[test]
fn message_without_sender_or_words_is_not_handed_on() {
    let mut adapter = adapter(vec![]);
    assert!(adapter.accept_message(&message("", "x"), "f", moment()).is_none());
    assert!(adapter.accept_message(&message("alice", "  "), "f", moment()).is_none());
    assert!(adapter.accept_message(&Json::Null, "f", moment()).is_none());
    let senderless = object(vec![("item_list", Json::Array(vec![text_item("x")]))]);
    assert!(adapter.accept_message(&senderless, "f", moment()).is_none());
    let itemless = object(vec![("from_user_id", text("alice")), ("item_list", text("x"))]);
    assert!(adapter.accept_message(&itemless, "f", moment()).is_none());
}

#[test]
fn strangers_leave_no_trace() {
    let mut adapter = adapter(vec!["alice"]);
    let stranger = object(vec![
        ("from_user_id", text("bob")),
        ("context_token", text("secret")),
        ("item_list", Json::Array(vec![text_item("x")])),
    ]);
    assert!(adapter.accept_message(&stranger, "f", moment()).is_none());
    assert_eq!(adapter.get_context_token("bob"), None);
}

#[test]
fn allow_list_names_users_or_everyone() {
    assert!(adapter(vec![]).is_allowed("anyone"));
    assert!(adapter(vec!["bob", "*"]).is_allowed("anyone"));
    assert!(adapter(vec!["bob"]).is_allowed("bob"));
    assert!(!adapter(vec!["bob"]).is_allowed("bobby"));
    assert!(!adapter(vec!["bob"]).is_allowed("*"));
    assert!(!adapter(vec!["bob"]).is_allowed(""));
}

#[test]
fn context_token_is_kept_even_where_nothing_is_said() {
    let mut adapter = adapter(vec![]);
    let silent = object(vec![
        ("from_user_id", text("alice")),
        ("context_token", text("t1")),
    ]);
    assert!(adapter.accept_message(&silent, "f", moment()).is_none());
    assert_eq!(adapter.get_context_token("alice"), Some("t1".to_string()));
    let blank = object(vec![
        ("from_user_id", text("alice")),
        ("context_token", text("")),
    ]);
    assert!(adapter.accept_message(&blank, "f", moment()).is_none());
    assert_eq!(adapter.get_context_token("alice"), Some("t1".to_string()));
    assert_eq!(adapter.get_context_token("bob"), None);
}

#[test]
fn last_context_token_counts() {
    let mut adapter = adapter(vec![]);
    for token in ["t1", "t2", "t3"] {
        let message = object(vec![
            ("from_user_id", text("alice")),
            ("context_token", text(token)),
        ]);
        assert!(adapter.accept_message(&message, "f", moment()).is_none());
    }
    assert_eq!(adapter.get_context_token("alice"), Some("t3".to_string()));
}

#[test]
fn batch_is_handed_on_once_and_in_order() {
    let mut adapter = adapter(vec!["alice", "carol"]);
    let mut batch = UpdateBatch {
        messages: vec![
            message("bob", "0"),
            message("alice", "1"),
            message("alice", "  "),
            message("carol", "3"),
            message("", "4"),
        ],
        seen: 0,
    };
    let first = adapter.next_message(&mut batch).unwrap();
    assert_eq!(said(&first), "1");
    assert_eq!(batch.seen, 2);
    let second = adapter.next_message(&mut batch).unwrap();
    assert_eq!(said(&second), "3");
    assert_eq!(batch.seen, 4);
    assert!(adapter.next_message(&mut batch).is_none());
    assert_eq!(batch.seen, 5);
    assert!(adapter.next_message(&mut batch).is_none());
    assert_eq!(batch.messages.len(), 5);
}

#[test]
fn names_are_drawn_in_the_form_of_a_random_uuid() {
    let mut adapter = adapter(vec![]);
    let mut batch = UpdateBatch {
        messages: vec![message("alice", "1"), message("alice", "2")],
        seen: 0,
    };
    let first = adapter.next_message(&mut batch).unwrap().platform_message_id;
    let second = adapter.next_message(&mut batch).unwrap().platform_message_id;
    assert_ne!(first, second);
    for id in [first, second] {
        let drawn: Vec<char> = id.strip_prefix("wechat-").unwrap().chars().collect();
        assert_eq!(drawn.len(), 36);
        for (i, c) in drawn.iter().enumerate() {
            if [8, 13, 18, 23].contains(&i) {
                assert_eq!(*c, '-');
            } else {
                assert!(c.is_ascii_digit() || ('a'..='f').contains(c));
            }
        }
        assert_eq!(drawn[14], '4');
        assert!(['8', '9', 'a', 'b'].contains(&drawn[19]));
    }
}

#[test]
fn present_stands_in_for_a_missing_time() {
    let mut adapter = adapter(vec![]);
    let mut batch = UpdateBatch { messages: vec![message("alice", "1")], seen: 0 };
    let before = Timestamp::now().timestamp_millis();
    let handed = adapter.next_message(&mut batch).unwrap().timestamp.timestamp_millis();
    let after = Timestamp::now().timestamp_millis();
    assert!(before <= handed && handed <= after);
    // The clock has passed the beginning of the year 2024.
    assert!(before > 1_704_067_200_000);
}
