use openfang_wechat::adapter::{Login, WeChatAdapter};
use openfang_wechat::channel::ChannelType;
use openfang_wechat::state::{AccountData, PathPart, SyncData};
use openfang_wechat::time::Timestamp;

fn adapter() -> WeChatAdapter {
    WeChatAdapter::new(
        "WECHAT_BOT_TOKEN".to_string(),
        "WECHAT_ACCOUNT_ID".to_string(),
        "WECHAT_USER_ID".to_string(),
        vec![],
        None,
        None,
        None,
    )
}

fn account(token: &str, account_id: &str) -> AccountData {
    AccountData {
        token: Some(token.to_string()),
        account_id: Some(account_id.to_string()),
        user_id: None,
        saved_at: None,
    }
}

fn moment(secs: i64) -> Timestamp {
    Timestamp::new(secs, 0).unwrap()
}

fn name(s: &str) -> PathPart {
    PathPart::Name(s.to_string())
}

#[test]
fn wechat_defaults_to_custom_channel_type() {
    let adapter = WeChatAdapter::new(
        "WECHAT_BOT_TOKEN".to_string(),
        "WECHAT_ACCOUNT_ID".to_string(),
        "WECHAT_USER_ID".to_string(),
        vec![],
        None,
        None,
        None,
    );
    assert_eq!(
        adapter.channel_type(),
        ChannelType::Custom("wechat".to_string())
    );
}

#[test]
fn new_adapter_knows_its_configuration_only() {
    let adapter = adapter();
    assert_eq!(adapter.name(), "wechat");
    assert_eq!(adapter.bot_token_env(), "WECHAT_BOT_TOKEN");
    assert_eq!(adapter.account_id_env(), "WECHAT_ACCOUNT_ID");
    assert_eq!(adapter.user_id_env(), "WECHAT_USER_ID");
    assert_eq!(adapter.get_token(), None);
    assert!(adapter.needs_login());
    assert!(!adapter.is_stopping());
    assert_eq!(adapter.cursor(), "");
    let status = adapter.status();
    assert!(!status.connected);
    assert_eq!(status.started_at, None);
    assert_eq!(status.last_message_at, None);
    assert_eq!(status.messages_received, 0);
    assert_eq!(status.messages_sent, 0);
    assert_eq!(status.last_error, None);
}

#[test]
fn urls_do_not_depend_on_trailing_slashes() {
    for base in ["https://x.org", "https://x.org/", "https://x.org///"] {
        let adapter = WeChatAdapter::new(
            "a".to_string(),
            "b".to_string(),
            "c".to_string(),
            vec![],
            Some(base.to_string()),
            Some("https://cdn".to_string()),
            None,
        );
        assert_eq!(adapter.api_url("getupdates"), "https://x.org/ilink/bot/getupdates");
    }
    assert_eq!(adapter().api_url("e"), "https://ilinkai.weixin.qq.com/ilink/bot/e");
}

#[test]
fn environment_comes_first() {
    let mut adapter = adapter();
    adapter.load_persisted_state(
        Some("  env-token\n"),
        Some(" env-account "),
        Some(account("saved-token", "saved-account")),
        Some(SyncData { get_updates_buf: "pos".to_string() }),
    );
    assert_eq!(adapter.get_token(), Some("env-token".to_string()));
    assert_eq!(adapter.cursor(), "pos");
}

#[test]
fn blank_environment_gives_way_to_what_was_saved() {
    let mut adapter = adapter();
    adapter.load_persisted_state(Some(" \t"), None, Some(account("saved", "acc")), None);
    assert_eq!(adapter.get_token(), Some("saved".to_string()));
    assert!(!adapter.needs_login());
    assert_eq!(adapter.cursor(), "");
}

#[test]
fn empty_saved_token_does_not_count() {
    let mut adapter = adapter();
    adapter.load_persisted_state(None, None, Some(account("", "acc")), None);
    assert_eq!(adapter.get_token(), None);
    let blank = AccountData { token: None, account_id: None, user_id: None, saved_at: None };
    adapter.load_persisted_state(None, None, Some(blank), None);
    assert_eq!(adapter.get_token(), None);
}

#[test]
fn known_token_is_not_replaced_by_a_saved_one() {
    let mut adapter = adapter();
    adapter.load_persisted_state(Some("first"), None, None, None);
    adapter.load_persisted_state(None, None, Some(account("second", "acc")), None);
    assert_eq!(adapter.get_token(), Some("first".to_string()));
    adapter.load_persisted_state(Some("third"), None, None, None);
    assert_eq!(adapter.get_token(), Some("third".to_string()));
}

#[test]
fn saved_login_is_resumed() {
    let mut earlier = adapter();
    let login = Login {
        bot_token: "tok".to_string(),
        account_id: "acc".to_string(),
        user_id: Some("usr".to_string()),
    };
    let saved = earlier.complete_login(login, moment(0), moment(60));
    assert_eq!(
        saved,
        AccountData {
            token: Some("tok".to_string()),
            account_id: Some("acc".to_string()),
            user_id: Some("usr".to_string()),
            saved_at: Some("1970-01-01T00:00:00+00:00".to_string()),
        }
    );
    assert_eq!(earlier.get_token(), Some("tok".to_string()));
    let status = earlier.status();
    assert!(status.connected);
    assert_eq!(status.started_at, Some(moment(60)));
    assert_eq!(status.last_error, None);

    let mut later = adapter();
    later.load_persisted_state(None, None, Some(saved), Some(WeChatAdapter::save_cursor("p")));
    assert_eq!(later.get_token(), Some("tok".to_string()));
    assert_eq!(later.cursor(), "p");
    assert!(!later.needs_login());
}

#[test]
fn login_is_stamped_with_the_present() {
    let mut adapter = adapter();
    let login = Login {
        bot_token: "tok".to_string(),
        account_id: "acc".to_string(),
        user_id: None,
    };
    let saved = adapter.finish_login(login);
    assert_eq!(saved.user_id, None);
    let stamp = saved.saved_at.unwrap();
    assert!(stamp.starts_with("20"));
    assert!(stamp.ends_with("+00:00"));
    assert!(adapter.status().started_at.is_some());
}

#[test]
fn account_data_is_put_together() {
    let data = WeChatAdapter::save_account_data("t", "a", Some("u"), "now".to_string());
    assert_eq!(data.token, Some("t".to_string()));
    assert_eq!(data.account_id, Some("a".to_string()));
    assert_eq!(data.user_id, Some("u".to_string()));
    assert_eq!(data.saved_at, Some("now".to_string()));
}

#[test]
fn first_start_is_kept() {
    let mut adapter = adapter();
    adapter.set_runtime_error("old".to_string());
    assert_eq!(adapter.status().last_error, Some("old".to_string()));
    adapter.start_at(moment(1));
    assert!(!adapter.status().connected);
    assert_eq!(adapter.status().started_at, Some(moment(1)));
    assert_eq!(adapter.status().last_error, None);
    adapter.start_at(moment(2));
    assert_eq!(adapter.status().started_at, Some(moment(1)));
    adapter.stop();
    assert_eq!(adapter.status().started_at, Some(moment(1)));
}

#[test]
fn connected_means_logged_in() {
    let mut adapter = adapter();
    adapter.load_persisted_state(Some("tok"), None, None, None);
    adapter.start();
    assert!(adapter.status().connected);
    assert!(adapter.status().started_at.is_some());
    adapter.stop();
    assert!(!adapter.status().connected);
    assert!(adapter.is_stopping());
    assert_eq!(adapter.get_token(), Some("tok".to_string()));
    adapter.start();
    assert!(adapter.status().connected);
}

#[test]
fn deliveries_are_counted() {
    let mut adapter = adapter();
    adapter.record_received(moment(5));
    assert_eq!(adapter.status().messages_received, 1);
    assert_eq!(adapter.status().last_message_at, Some(moment(5)));
    adapter.message_delivered();
    assert_eq!(adapter.status().messages_received, 2);
    assert_ne!(adapter.status().last_message_at, Some(moment(5)));
}

#[test]
fn state_lies_below_the_home_directory() {
    let adapter = adapter();
    assert_eq!(
        adapter.account_path(true),
        vec![PathPart::Home, name(".openfang"), name("wechat"), name("account.json")]
    );
    assert_eq!(
        adapter.sync_path(false),
        vec![name("."), name(".openfang"), name("wechat"), name("sync.json")]
    );
    assert_eq!(
        adapter.state_path(true),
        vec![PathPart::Home, name(".openfang"), name("wechat")]
    );
}

#[test]
fn state_directory_may_be_given() {
    let adapter = WeChatAdapter::new(
        "a".to_string(),
        "b".to_string(),
        "c".to_string(),
        vec![],
        None,
        None,
        Some("/var/bot".to_string()),
    );
    assert_eq!(adapter.state_path(true), vec![name("/var/bot")]);
    assert_eq!(adapter.account_path(true), vec![name("/var/bot"), name("account.json")]);
    assert_eq!(adapter.sync_path(true), vec![name("/var/bot"), name("sync.json")]);
}

#[test]
fn position_is_resumed_whatever_the_environment_holds() {
    for (token, account_id) in [(None, None), (Some("t"), None), (None, Some("a"))] {
        let mut adapter = adapter();
        adapter.load_persisted_state(
            token,
            account_id,
            Some(account("saved", "acc")),
            Some(WeChatAdapter::save_cursor("pos")),
        );
        assert_eq!(adapter.cursor(), "pos");
        assert_eq!(adapter.get_token(), Some(token.unwrap_or("saved").to_string()));
    }
}
