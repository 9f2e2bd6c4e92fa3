//! The adapter: its configuration, its login, and what it knows of the users it talks to.

use crate::channel::{ChannelStatus, ChannelType, StatusView};
use crate::outside;
use crate::state;
use crate::state::{
    AccountData, AccountView, AdapterRuntimeState, PartView, PathPart, SyncData,
};
use crate::text;
use crate::time::Timestamp;
use vstd::hash_map::StringHashMap;
use vstd::prelude::*;

verus! {

/// Where the bot API is, unless another place is given.
pub const DEFAULT_API_BASE_URL: &'static str = "https://ilinkai.weixin.qq.com";

/// Where media are, unless another place is given.
pub const DEFAULT_CDN_BASE_URL: &'static str = "https://novac2c.cdn.weixin.qq.com/c2c";

/// WeChat iLink adapter with QR login and long polling.
pub struct WeChatAdapter {
    bot_token_env: String,
    account_id_env: String,
    user_id_env: String,
    api_base_url: String,
    cdn_base_url: String,
    state_dir: Option<String>,
    allowed_users: Vec<String>,
    bot_token: Option<String>,
    account_id: Option<String>,
    context_tokens: StringHashMap<String>,
    cursor: String,
    runtime: AdapterRuntimeState,
    stopping: bool,
}

/// What a [`WeChatAdapter`] knows.
#[verifier::ext_equal]
pub struct AdapterView {
    /// The environment variables that may hold a login.
    pub bot_token_env: Seq<char>,
    pub account_id_env: Seq<char>,
    pub user_id_env: Seq<char>,
    pub api_base_url: Seq<char>,
    pub cdn_base_url: Seq<char>,
    /// The directory to keep state in, where one was given.
    pub state_dir: Option<Seq<char>>,
    /// Whom to listen to.
    pub allowed_users: Seq<Seq<char>>,
    pub bot_token: Option<Seq<char>>,
    pub account_id: Option<Seq<char>>,
    /// The context token that each user sent last.
    pub context_tokens: Map<Seq<char>, Seq<char>>,
    /// The position in the stream of updates.
    pub cursor: Seq<char>,
    pub runtime: StatusView,
    /// The adapter was told to stop.
    pub stopping: bool,
}

impl View for WeChatAdapter {
    type V = AdapterView;

    closed spec fn view(&self) -> AdapterView {
        AdapterView {
            bot_token_env: self.bot_token_env@,
            account_id_env: self.account_id_env@,
            user_id_env: self.user_id_env@,
            api_base_url: self.api_base_url@,
            cdn_base_url: self.cdn_base_url@,
            state_dir: text::optional_text(self.state_dir),
            allowed_users: text::texts(self.allowed_users@),
            bot_token: text::optional_text(self.bot_token),
            account_id: text::optional_text(self.account_id),
            context_tokens: self.context_tokens@.map_values(|token: String| token@),
            cursor: self.cursor@,
            runtime: self.runtime@,
            stopping: self.stopping,
        }
    }
}

/// An adapter with this configuration that knows nothing yet.
pub open spec fn configured(
    bot_token_env: Seq<char>,
    account_id_env: Seq<char>,
    user_id_env: Seq<char>,
    allowed_users: Seq<Seq<char>>,
    api_base_url: Option<Seq<char>>,
    cdn_base_url: Option<Seq<char>>,
    state_dir: Option<Seq<char>>,
) -> AdapterView {
    AdapterView {
        bot_token_env,
        account_id_env,
        user_id_env,
        api_base_url: match api_base_url {
            Some(url) => url,
            None => DEFAULT_API_BASE_URL@,
        },
        cdn_base_url: match cdn_base_url {
            Some(url) => url,
            None => DEFAULT_CDN_BASE_URL@,
        },
        state_dir,
        allowed_users,
        bot_token: None,
        account_id: None,
        context_tokens: Map::empty(),
        cursor: Seq::empty(),
        runtime: state::idle(),
        stopping: false,
    }
}

/// A value from the environment counts where it is more than white space.
pub open spec fn from_environment(value: Option<Seq<char>>) -> Option<Seq<char>> {
    match value {
        Some(value) if text::trimmed(value).len() > 0 => Some(text::trimmed(value)),
        _ => None,
    }
}

/// The first of the values that is there.
pub open spec fn first_of(a: Option<Seq<char>>, b: Option<Seq<char>>) -> Option<Seq<char>> {
    match a {
        Some(value) => Some(value),
        None => b,
    }
}

/// The token of a saved login; an empty one does not count.
pub open spec fn saved_token(account: Option<AccountView>) -> Option<Seq<char>> {
    match account {
        Some(AccountView { token: Some(token), .. }) if token.len() > 0 => Some(token),
        _ => None,
    }
}

/// The account of a saved login.
pub open spec fn saved_account_id(account: Option<AccountView>) -> Option<Seq<char>> {
    match account {
        Some(account) => account.account_id,
        None => None,
    }
}

/// A login as the bot API grants it.
#[derive(Clone, Debug, PartialEq, Eq)]
pub struct Login {
    pub bot_token: String,
    pub account_id: String,
    pub user_id: Option<String>,
}

/// What a [`Login`] says.
pub struct LoginView {
    pub bot_token: Seq<char>,
    pub account_id: Seq<char>,
    pub user_id: Option<Seq<char>>,
}

impl View for Login {
    type V = LoginView;

    open spec fn view(&self) -> LoginView {
        LoginView {
            bot_token: self.bot_token@,
            account_id: self.account_id@,
            user_id: text::optional_text(self.user_id),
        }
    }
}

/// What is saved of a login.
pub open spec fn account_of(login: LoginView, saved_at: Timestamp) -> AccountView {
    AccountView {
        token: Some(login.bot_token),
        account_id: Some(login.account_id),
        user_id: login.user_id,
        saved_at: Some(outside::rfc3339(saved_at.secs as int, saved_at.nanos as int)),
    }
}

impl AdapterView {
    /// The adapter once a login has been granted.
    pub open spec fn logged_in(self, login: LoginView, now: Timestamp) -> AdapterView {
        AdapterView {
            bot_token: Some(login.bot_token),
            account_id: Some(login.account_id),
            runtime: StatusView {
                connected: true,
                started_at: state::started(self.runtime.started_at, now),
                last_error: None,
                ..self.runtime
            },
            ..self
        }
    }

    /// The adapter once it has been started.
    pub open spec fn after_start(self, now: Timestamp) -> AdapterView {
        self.with_runtime(
            StatusView {
                connected: self.bot_token is Some,
                started_at: state::started(self.runtime.started_at, now),
                last_error: None,
                ..self.runtime
            },
        )
    }

    /// The adapter once it has been told to stop.
    pub open spec fn after_stop(self) -> AdapterView {
        AdapterView {
            runtime: StatusView { connected: false, ..self.runtime },
            stopping: true,
            ..self
        }
    }

    /// The adapter once a message has been handed on.
    pub open spec fn after_delivery(self, now: Timestamp) -> AdapterView {
        self.with_runtime(
            StatusView {
                messages_received: self.runtime.messages_received + 1,
                last_message_at: Some(now),
                ..self.runtime
            },
        )
    }

    /// The adapter once a message has been sent.
    pub open spec fn after_sending(self) -> AdapterView {
        self.with_runtime(
            StatusView { messages_sent: self.runtime.messages_sent + 1, ..self.runtime },
        )
    }

    /// The adapter after it has been given what the environment and the state directory hold: the
    /// environment comes first, then what is known already, then what was saved.
    pub open spec fn loaded(
        self,
        env_token: Option<Seq<char>>,
        env_account_id: Option<Seq<char>>,
        account: Option<AccountView>,
        cursor: Option<Seq<char>>,
    ) -> AdapterView {
        AdapterView {
            bot_token: first_of(
                first_of(from_environment(env_token), self.bot_token),
                saved_token(account),
            ),
            account_id: first_of(
                first_of(from_environment(env_account_id), self.account_id),
                saved_account_id(account),
            ),
            cursor: match cursor {
                Some(cursor) => cursor,
                None => self.cursor,
            },
            ..self
        }
    }

    /// The URL of an endpoint of the bot API.
    pub open spec fn api_url(self, endpoint: Seq<char>) -> Seq<char> {
        text::without_trailing(self.api_base_url, '/') + "/ilink/bot/"@ + endpoint
    }

    /// The adapter listens to that user: to everyone where no one is named, and to everyone where
    /// `*` is.
    pub open spec fn allows(self, user_id: Seq<char>) -> bool {
        ||| self.allowed_users.len() == 0
        ||| self.allowed_users.contains("*"@)
        ||| self.allowed_users.contains(user_id)
    }

    /// The context token to send along to that user.
    pub open spec fn context_token(self, user_id: Seq<char>) -> Option<Seq<char>> {
        if self.context_tokens.contains_key(user_id) {
            Some(self.context_tokens[user_id])
        } else {
            None
        }
    }

    /// The adapter with its counters and notes replaced.
    pub open spec fn with_runtime(self, runtime: StatusView) -> AdapterView {
        AdapterView { runtime, ..self }
    }

    /// The directory to keep state in.
    pub open spec fn state_path(self, home_is_set: bool) -> Seq<PartView> {
        match self.state_dir {
            Some(dir) => seq![PartView::Name(dir)],
            None => state::default_dir(home_is_set),
        }
    }
}

impl WeChatAdapter {
    /// An adapter with this configuration.
    pub fn new(
        bot_token_env: String,
        account_id_env: String,
        user_id_env: String,
        allowed_users: Vec<String>,
        api_base_url: Option<String>,
        cdn_base_url: Option<String>,
        state_dir: Option<String>,
    ) -> (adapter: WeChatAdapter)
        ensures
            adapter@ == configured(
                bot_token_env@,
                account_id_env@,
                user_id_env@,
                text::texts(allowed_users@),
                text::optional_text(api_base_url),
                text::optional_text(cdn_base_url),
                text::optional_text(state_dir),
            ),
    {
        let adapter = WeChatAdapter {
            bot_token_env,
            account_id_env,
            user_id_env,
            api_base_url: match api_base_url {
                Some(url) => url,
                None => DEFAULT_API_BASE_URL.to_owned(),
            },
            cdn_base_url: match cdn_base_url {
                Some(url) => url,
                None => DEFAULT_CDN_BASE_URL.to_owned(),
            },
            state_dir,
            allowed_users,
            bot_token: None,
            account_id: None,
            context_tokens: StringHashMap::new(),
            cursor: String::new(),
            runtime: AdapterRuntimeState::default(),
            stopping: false,
        };
        assert(adapter@.context_tokens =~= Map::empty());
        adapter
    }

    /// The environment variable that may hold the bot's token.
    pub fn bot_token_env(&self) -> (name: &str)
        ensures
            name@ == self@.bot_token_env,
    {
        self.bot_token_env.as_str()
    }

    /// The environment variable that may hold the bot's account.
    pub fn account_id_env(&self) -> (name: &str)
        ensures
            name@ == self@.account_id_env,
    {
        self.account_id_env.as_str()
    }

    /// The environment variable that may hold the user's identifier.
    pub fn user_id_env(&self) -> (name: &str)
        ensures
            name@ == self@.user_id_env,
    {
        self.user_id_env.as_str()
    }

    /// Takes over what the environment and the state directory hold: the values of the two
    /// environment variables where they are set, and the two files where they could be read.
    pub fn load_persisted_state(
        &mut self,
        env_token: Option<&str>,
        env_account_id: Option<&str>,
        account: Option<AccountData>,
        sync: Option<SyncData>,
    )
        ensures
            final(self)@ == old(self)@.loaded(
                text::optional_str(env_token),
                text::optional_str(env_account_id),
                state::optional_account(account),
                state::optional_cursor(sync),
            ),
    {
        if let Some(value) = env_token {
            let token = text::trim(value);
            if !token.as_str().is_empty() {
                self.bot_token = Some(token);
            }
        }
        if let Some(value) = env_account_id {
            let account_id = text::trim(value);
            if !account_id.as_str().is_empty() {
                self.account_id = Some(account_id);
            }
        }
        if let Some(account) = account {
            if self.bot_token.is_none() {
                if let Some(token) = account.token {
                    if !token.as_str().is_empty() {
                        self.bot_token = Some(token);
                    }
                }
            }
            if self.account_id.is_none() {
                if let Some(account_id) = account.account_id {
                    self.account_id = Some(account_id);
                }
            }
        }
        if let Some(sync) = sync {
            self.cursor = sync.get_updates_buf;
        }
    }

    /// The URL of an endpoint of the bot API.
    pub fn api_url(&self, endpoint: &str) -> (url: String)
        ensures
            url@ == self@.api_url(endpoint@),
    {
        let mut url = text::trim_trailing(self.api_base_url.as_str(), '/');
        url.append("/ilink/bot/");
        url.append(endpoint);
        url
    }

    /// The bot's token, where it is logged in.
    pub fn get_token(&self) -> (token: Option<String>)
        ensures
            text::optional_text(token) == self@.bot_token,
    {
        text::copy_optional(&self.bot_token)
    }

    /// Notes what went wrong last.
    pub fn set_runtime_error(&mut self, message: String)
        ensures
            final(self)@ == old(self)@.with_runtime(
                (StatusView { last_error: Some(message@), ..old(self)@.runtime }),
            ),
    {
        self.runtime.last_error = Some(message);
    }

    /// Tells whether the adapter listens to that user.
    pub fn is_allowed(&self, user_id: &str) -> (r: bool)
        ensures
            r == self@.allows(user_id@),
    {
        if self.allowed_users.len() == 0 {
            return true;
        }
        let everyone = "*".to_owned();
        let wanted = user_id.to_owned();
        let ghost names = text::texts(self.allowed_users@);
        let mut k: usize = 0;
        while k < self.allowed_users.len()
            invariant
                k <= self.allowed_users@.len(),
                everyone@ == "*"@,
                wanted@ == user_id@,
                names == text::texts(self.allowed_users@),
                forall|i: int|
                    0 <= i < k ==> (#[trigger] names[i]) != "*"@ && names[i] != user_id@,
            decreases self.allowed_users@.len() - k,
        {
            let entry = &self.allowed_users[k];
            assert(names[k as int] == entry@);
            if *entry == everyone || *entry == wanted {
                return true;
            }
            k += 1;
        }
        false
    }

    /// Notes the context token that came with a message of that user.
    pub fn update_context_token(&mut self, user_id: &str, token: &str)
        ensures
            final(self)@ == (AdapterView {
                context_tokens: old(self)@.context_tokens.insert(user_id@, token@),
                ..old(self)@
            }),
    {
        self.context_tokens.insert(user_id.to_owned(), token.to_owned());
        assert(self@.context_tokens =~= old(self)@.context_tokens.insert(user_id@, token@));
    }

    /// The context token to send along to that user.
    pub fn get_context_token(&self, user_id: &str) -> (token: Option<String>)
        ensures
            text::optional_text(token) == self@.context_token(user_id@),
    {
        match self.context_tokens.get(user_id) {
            Some(token) => Some(token.clone()),
            None => None,
        }
    }

    /// The channel's name.
    pub fn name(&self) -> (name: &str)
        ensures
            name@ == "wechat"@,
    {
        "wechat"
    }

    /// The channel's kind.
    pub fn channel_type(&self) -> (channel: ChannelType)
        ensures
            channel@ == "wechat"@,
    {
        ChannelType::Custom("wechat".to_owned())
    }

    /// The state as the adapter's owner sees it.
    pub fn status(&self) -> (status: ChannelStatus)
        ensures
            status@ == self@.runtime,
    {
        self.runtime.to_status()
    }

    /// What is to be saved of a login.
    pub fn save_account_data(
        token: &str,
        account_id: &str,
        user_id: Option<&str>,
        saved_at: String,
    ) -> (account: AccountData)
        ensures
            account@ == (AccountView {
                token: Some(token@),
                account_id: Some(account_id@),
                user_id: text::optional_str(user_id),
                saved_at: Some(saved_at@),
            }),
    {
        AccountData {
            token: Some(token.to_owned()),
            account_id: Some(account_id.to_owned()),
            user_id: match user_id {
                Some(id) => Some(id.to_owned()),
                None => None,
            },
            saved_at: Some(saved_at),
        }
    }

    /// What is to be saved of a position in the stream of updates.
    pub fn save_cursor(cursor: &str) -> (sync: SyncData)
        ensures
            sync.get_updates_buf@ == cursor@,
    {
        SyncData { get_updates_buf: cursor.to_owned() }
    }

    /// Takes over a login granted at `now`, and gives what is to be saved of it.
    pub fn complete_login(&mut self, login: Login, saved_at: Timestamp, now: Timestamp) -> (account:
        AccountData)
        requires
            saved_at.wf(),
        ensures
            final(self)@ == old(self)@.logged_in(login@, now),
            account@ == account_of(login@, saved_at),
    {
        let account = Self::save_account_data(
            login.bot_token.as_str(),
            login.account_id.as_str(),
            match &login.user_id {
                Some(id) => Some(id.as_str()),
                None => None,
            },
            saved_at.to_rfc3339(),
        );
        self.bot_token = Some(login.bot_token);
        self.account_id = Some(login.account_id);
        self.runtime.connected = true;
        self.runtime.note_start(now);
        self.runtime.last_error = None;
        account
    }

    /// Takes over a login granted just now, and gives what is to be saved of it.
    pub fn finish_login(&mut self, login: Login) -> (account: AccountData)
        ensures
            exists|saved_at: Timestamp, now: Timestamp|
                {
                    &&& saved_at.wf() && now.wf()
                    &&& final(self)@ == #[trigger] old(self)@.logged_in(login@, now)
                    &&& account@ == #[trigger] account_of(login@, saved_at)
                },
    {
        let saved_at = Timestamp::now();
        let now = Timestamp::now();
        self.complete_login(login, saved_at, now)
    }

    /// Starts the adapter at `now`.
    pub fn start_at(&mut self, now: Timestamp)
        ensures
            final(self)@ == old(self)@.after_start(now),
    {
        self.runtime.connected = self.bot_token.is_some();
        self.runtime.note_start(now);
        self.runtime.last_error = None;
    }

    /// Starts the adapter.
    pub fn start(&mut self)
        ensures
            exists|now: Timestamp|
                now.wf() && final(self)@ == #[trigger] old(self)@.after_start(now),
    {
        let now = Timestamp::now();
        self.start_at(now);
    }

    /// Tells the adapter to stop.
    pub fn stop(&mut self)
        ensures
            final(self)@ == old(self)@.after_stop(),
    {
        self.stopping = true;
        self.runtime.connected = false;
    }

    /// Tells whether the adapter was told to stop.
    pub fn is_stopping(&self) -> (r: bool)
        ensures
            r == self@.stopping,
    {
        self.stopping
    }

    /// Tells whether a login has to come first.
    pub fn needs_login(&self) -> (r: bool)
        ensures
            r == (self@.bot_token is None),
    {
        self.bot_token.is_none()
    }

    /// Counts a message handed on at `now`.
    pub fn record_received(&mut self, now: Timestamp)
        requires
            old(self)@.runtime.messages_received < u64::MAX,
        ensures
            final(self)@ == old(self)@.after_delivery(now),
    {
        self.runtime.messages_received = self.runtime.messages_received + 1;
        self.runtime.last_message_at = Some(now);
    }

    /// Counts a message handed on just now.
    pub fn message_delivered(&mut self)
        requires
            old(self)@.runtime.messages_received < u64::MAX,
        ensures
            exists|now: Timestamp|
                now.wf() && final(self)@ == #[trigger] old(self)@.after_delivery(now),
    {
        let now = Timestamp::now();
        self.record_received(now);
    }

    /// Counts a message sent.
    pub(crate) fn record_sent(&mut self)
        requires
            old(self)@.runtime.messages_sent < u64::MAX,
        ensures
            final(self)@ == old(self)@.after_sending(),
    {
        self.runtime.messages_sent = self.runtime.messages_sent + 1;
    }

    /// Forgets the login.
    pub(crate) fn drop_token(&mut self)
        ensures
            final(self)@ == (AdapterView { bot_token: None, ..old(self)@ }),
    {
        self.bot_token = None;
    }

    /// Moves on in the stream of updates.
    pub(crate) fn set_cursor(&mut self, cursor: &str)
        ensures
            final(self)@ == (AdapterView { cursor: cursor@, ..old(self)@ }),
    {
        self.cursor = cursor.to_owned();
    }

    /// The position in the stream of updates.
    pub fn cursor(&self) -> (cursor: &str)
        ensures
            cursor@ == self@.cursor,
    {
        self.cursor.as_str()
    }

    /// The file that keeps the login.
    pub fn account_path(&self, home_is_set: bool) -> (path: Vec<PathPart>)
        ensures
            state::parts(path@) == self@.state_path(home_is_set).push(
                PartView::Name("account.json"@),
            ),
    {
        let mut path = self.state_path(home_is_set);
        let ghost dir = path@;
        path.push(PathPart::Name("account.json".to_owned()));
        assert(state::parts(path@) =~= state::parts(dir).push(PartView::Name("account.json"@)));
        path
    }

    /// The file that keeps the position in the stream of updates.
    pub fn sync_path(&self, home_is_set: bool) -> (path: Vec<PathPart>)
        ensures
            state::parts(path@) == self@.state_path(home_is_set).push(PartView::Name("sync.json"@)),
    {
        let mut path = self.state_path(home_is_set);
        let ghost dir = path@;
        path.push(PathPart::Name("sync.json".to_owned()));
        assert(state::parts(path@) =~= state::parts(dir).push(PartView::Name("sync.json"@)));
        path
    }

    /// The directory to keep state in.
    pub fn state_path(&self, home_is_set: bool) -> (path: Vec<PathPart>)
        ensures
            state::parts(path@) == self@.state_path(home_is_set),
    {
        match &self.state_dir {
            Some(dir) => {
                let mut path: Vec<PathPart> = Vec::new();
                path.push(PathPart::Name(dir.clone()));
                assert(state::parts(path@) =~= self@.state_path(home_is_set));
                path
            },
            None => state::default_state_dir(home_is_set),
        }
    }
}

} // verus!
