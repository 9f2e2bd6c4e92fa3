//! What the adapter remembers: the part that outlives the process, and the part that does not.

use crate::channel::{ChannelStatus, StatusView};
use crate::text;
use crate::time::Timestamp;
use vstd::prelude::*;

verus! {

/// The login that is kept in the state directory.
#[derive(Clone, Debug, PartialEq, Eq)]
pub struct AccountData {
    pub token: Option<String>,
    pub account_id: Option<String>,
    pub user_id: Option<String>,
    /// When the login was saved, in the notation of RFC 3339.
    pub saved_at: Option<String>,
}

/// What an [`AccountData`] says.
pub struct AccountView {
    pub token: Option<Seq<char>>,
    pub account_id: Option<Seq<char>>,
    pub user_id: Option<Seq<char>>,
    pub saved_at: Option<Seq<char>>,
}

impl View for AccountData {
    type V = AccountView;

    open spec fn view(&self) -> AccountView {
        AccountView {
            token: text::optional_text(self.token),
            account_id: text::optional_text(self.account_id),
            user_id: text::optional_text(self.user_id),
            saved_at: text::optional_text(self.saved_at),
        }
    }
}

/// The position in the stream of updates that is kept in the state directory.
#[derive(Clone, Debug, PartialEq, Eq)]
pub struct SyncData {
    pub get_updates_buf: String,
}

/// What an optional [`AccountData`] says.
pub open spec fn optional_account(account: Option<AccountData>) -> Option<AccountView> {
    match account {
        Some(account) => Some(account@),
        None => None,
    }
}

/// The position that an optional [`SyncData`] holds.
pub open spec fn optional_cursor(sync: Option<SyncData>) -> Option<Seq<char>> {
    match sync {
        Some(sync) => Some(sync.get_updates_buf@),
        None => None,
    }
}

/// A piece of a path in the file system.
#[derive(Clone, Debug, PartialEq, Eq)]
pub enum PathPart {
    /// The user's home directory.
    Home,
    /// A name, or a path of its own.
    Name(String),
}

/// What a [`PathPart`] says.
pub enum PartView {
    Home,
    Name(Seq<char>),
}

impl View for PathPart {
    type V = PartView;

    open spec fn view(&self) -> PartView {
        match self {
            PathPart::Home => PartView::Home,
            PathPart::Name(name) => PartView::Name(name@),
        }
    }
}

/// What the pieces of a path say.
pub open spec fn parts(path: Seq<PathPart>) -> Seq<PartView> {
    path.map_values(|part: PathPart| part@)
}

/// Where state is kept unless a directory is given: below the home directory, or below the current
/// one where there is no home.
pub open spec fn default_dir(home_is_set: bool) -> Seq<PartView> {
    seq![
        if home_is_set {
            PartView::Home
        } else {
            PartView::Name("."@)
        },
        PartView::Name(".openfang"@),
        PartView::Name("wechat"@),
    ]
}

/// Where state is kept unless a directory is given.
pub fn default_state_dir(home_is_set: bool) -> (path: Vec<PathPart>)
    ensures
        parts(path@) == default_dir(home_is_set),
{
    let mut path: Vec<PathPart> = Vec::new();
    if home_is_set {
        path.push(PathPart::Home);
    } else {
        path.push(PathPart::Name(".".to_owned()));
    }
    path.push(PathPart::Name(".openfang".to_owned()));
    path.push(PathPart::Name("wechat".to_owned()));
    assert(parts(path@) =~= default_dir(home_is_set));
    path
}

/// What the adapter counts and notes while it runs.
pub struct AdapterRuntimeState {
    pub connected: bool,
    pub started_at: Option<Timestamp>,
    pub last_message_at: Option<Timestamp>,
    pub messages_received: u64,
    pub messages_sent: u64,
    pub last_error: Option<String>,
}

impl View for AdapterRuntimeState {
    type V = StatusView;

    open spec fn view(&self) -> StatusView {
        StatusView {
            connected: self.connected,
            started_at: self.started_at,
            last_message_at: self.last_message_at,
            messages_received: self.messages_received as nat,
            messages_sent: self.messages_sent as nat,
            last_error: text::optional_text(self.last_error),
        }
    }
}

/// The state of an adapter that has done nothing yet.
pub open spec fn idle() -> StatusView {
    StatusView {
        connected: false,
        started_at: None,
        last_message_at: None,
        messages_received: 0,
        messages_sent: 0,
        last_error: None,
    }
}

impl Default for AdapterRuntimeState {
    fn default() -> (state: AdapterRuntimeState)
        ensures
            state@ == idle(),
    {
        AdapterRuntimeState {
            connected: false,
            started_at: None,
            last_message_at: None,
            messages_received: 0,
            messages_sent: 0,
            last_error: None,
        }
    }
}

impl AdapterRuntimeState {
    /// The state as the adapter's owner sees it.
    pub fn to_status(&self) -> (status: ChannelStatus)
        ensures
            status@ == self@,
    {
        ChannelStatus {
            connected: self.connected,
            started_at: self.started_at,
            last_message_at: self.last_message_at,
            messages_received: self.messages_received,
            messages_sent: self.messages_sent,
            last_error: text::copy_optional(&self.last_error),
        }
    }

    /// Notes the start, unless one is noted already.
    pub fn note_start(&mut self, now: Timestamp)
        ensures
            final(self)@ == (StatusView {
                started_at: started(old(self)@.started_at, now),
                ..old(self)@
            }),
    {
        if self.started_at.is_none() {
            self.started_at = Some(now);
        }
    }
}

/// The start that is noted once `now` has been offered as one: the first stays.
pub open spec fn started(noted: Option<Timestamp>, now: Timestamp) -> Option<Timestamp> {
    match noted {
        Some(first) => Some(first),
        None => Some(now),
    }
}

} // verus!
