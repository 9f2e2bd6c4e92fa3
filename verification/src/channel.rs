//! What a channel carries: users, messages and the adapter's status.

use crate::json;
use crate::json::{Json, JsonView};
use crate::text;
use crate::time::Timestamp;
use vstd::prelude::*;

verus! {

/// The kind of a channel.
#[derive(Clone, Debug, PartialEq, Eq)]
pub enum ChannelType {
    /// A channel known by its name.
    Custom(String),
}

impl View for ChannelType {
    type V = Seq<char>;

    open spec fn view(&self) -> Seq<char> {
        match self {
            ChannelType::Custom(name) => name@,
        }
    }
}

/// Someone on a channel.
#[derive(Clone, Debug, PartialEq, Eq)]
pub struct ChannelUser {
    /// The platform's identifier of the user.
    pub platform_id: String,
    /// The name to show.
    pub display_name: String,
    /// The user's identity outside the platform, where it is known.
    pub openfang_user: Option<String>,
}

/// What a [`ChannelUser`] says.
pub struct UserView {
    pub platform_id: Seq<char>,
    pub display_name: Seq<char>,
    pub openfang_user: Option<Seq<char>>,
}

impl View for ChannelUser {
    type V = UserView;

    open spec fn view(&self) -> UserView {
        UserView {
            platform_id: self.platform_id@,
            display_name: self.display_name@,
            openfang_user: text::optional_text(self.openfang_user),
        }
    }
}

/// The content of a message.
#[derive(Clone, Debug, PartialEq, Eq)]
pub enum ChannelContent {
    Text(String),
    Image { url: String, caption: Option<String> },
    File { url: String, filename: String },
    /// A file that comes with its data; only its name is of use here.
    FileData { filename: String },
    Voice { url: String, duration_seconds: u64 },
    /// A place, with its coordinates in decimal notation.
    Location { lat: String, lon: String },
    Command { name: String, args: Vec<String> },
}

/// What a [`ChannelContent`] says.
pub enum ContentView {
    Text(Seq<char>),
    Image { url: Seq<char>, caption: Option<Seq<char>> },
    File { url: Seq<char>, filename: Seq<char> },
    FileData { filename: Seq<char> },
    Voice { url: Seq<char>, duration_seconds: nat },
    Location { lat: Seq<char>, lon: Seq<char> },
    Command { name: Seq<char>, args: Seq<Seq<char>> },
}

impl View for ChannelContent {
    type V = ContentView;

    open spec fn view(&self) -> ContentView {
        match self {
            ChannelContent::Text(t) => ContentView::Text(t@),
            ChannelContent::Image { url, caption } => ContentView::Image {
                url: url@,
                caption: text::optional_text(*caption),
            },
            ChannelContent::File { url, filename } => ContentView::File {
                url: url@,
                filename: filename@,
            },
            ChannelContent::FileData { filename } => ContentView::FileData { filename: filename@ },
            ChannelContent::Voice { url, duration_seconds } => ContentView::Voice {
                url: url@,
                duration_seconds: *duration_seconds as nat,
            },
            ChannelContent::Location { lat, lon } => ContentView::Location { lat: lat@, lon: lon@ },
            ChannelContent::Command { name, args } => ContentView::Command {
                name: name@,
                args: text::texts(args@),
            },
        }
    }
}

/// A message that came in on a channel.
pub struct ChannelMessage {
    pub channel: ChannelType,
    /// The platform's identifier of the message.
    pub platform_message_id: String,
    pub sender: ChannelUser,
    pub content: ChannelContent,
    /// The agent the message is meant for, where it names one.
    pub target_agent: Option<String>,
    pub timestamp: Timestamp,
    pub is_group: bool,
    pub thread_id: Option<String>,
    /// Further properties, by name.
    pub metadata: Vec<(String, Json)>,
}

/// What a [`ChannelMessage`] says.
pub struct MessageView {
    pub channel: Seq<char>,
    pub platform_message_id: Seq<char>,
    pub sender: UserView,
    pub content: ContentView,
    pub target_agent: Option<Seq<char>>,
    pub timestamp: Timestamp,
    pub is_group: bool,
    pub thread_id: Option<Seq<char>>,
    pub metadata: Map<Seq<char>, JsonView>,
}

impl View for ChannelMessage {
    type V = MessageView;

    open spec fn view(&self) -> MessageView {
        MessageView {
            channel: self.channel@,
            platform_message_id: self.platform_message_id@,
            sender: self.sender@,
            content: self.content@,
            target_agent: text::optional_text(self.target_agent),
            timestamp: self.timestamp,
            is_group: self.is_group,
            thread_id: text::optional_text(self.thread_id),
            metadata: json::members_view(self.metadata@),
        }
    }
}

/// The state of an adapter as its owner sees it.
#[derive(Clone, Debug, PartialEq, Eq)]
pub struct ChannelStatus {
    pub connected: bool,
    pub started_at: Option<Timestamp>,
    pub last_message_at: Option<Timestamp>,
    pub messages_received: u64,
    pub messages_sent: u64,
    pub last_error: Option<String>,
}

/// What a [`ChannelStatus`] says.
pub struct StatusView {
    pub connected: bool,
    pub started_at: Option<Timestamp>,
    pub last_message_at: Option<Timestamp>,
    pub messages_received: nat,
    pub messages_sent: nat,
    pub last_error: Option<Seq<char>>,
}

impl View for ChannelStatus {
    type V = StatusView;

    open spec fn view(&self) -> StatusView {
        StatusView {
            connected: self.connected,
            started_at: self.started_at,
            last_message_at: self.last_message_at,
            messages_received: self.messages_received as nat,
            messages_sent: self.messages_sent as nat,
            last_error: text::optional_text(self.last_error),
        }
    }
}

/// The plain text that stands for a content on a channel that carries text only.
pub open spec fn plain_text(content: ContentView) -> Seq<char> {
    match content {
        ContentView::Text(t) => t,
        ContentView::Image { url, caption: Some(caption) } => "[image] "@ + caption + "\n"@ + url,
        ContentView::Image { url, caption: None } => "[image] "@ + url,
        ContentView::File { url, filename } => "[file] "@ + filename + "\n"@ + url,
        ContentView::FileData { filename } => "[file] "@ + filename,
        ContentView::Voice { url, duration_seconds } => "[voice "@ + text::decimal(duration_seconds)
            + "s] "@ + url,
        ContentView::Location { lat, lon } => "[location] "@ + lat + ", "@ + lon,
        ContentView::Command { name, args } => if args.len() == 0 {
            "/"@ + name
        } else {
            "/"@ + name + " "@ + text::joined(args, " "@)
        },
    }
}

impl ChannelContent {
    /// The plain text that stands for the content.
    pub fn to_plain_text(&self) -> (r: String)
        ensures
            r@ == plain_text(self@),
    {
        match self {
            ChannelContent::Text(t) => t.clone(),
            ChannelContent::Image { url, caption } => {
                let mut r = "[image] ".to_owned();
                if let Some(caption) = caption {
                    r.append(caption.as_str());
                    r.append("\n");
                }
                r.append(url.as_str());
                r
            },
            ChannelContent::File { url, filename } => {
                let mut r = "[file] ".to_owned();
                r.append(filename.as_str());
                r.append("\n");
                r.append(url.as_str());
                r
            },
            ChannelContent::FileData { filename } => {
                let mut r = "[file] ".to_owned();
                r.append(filename.as_str());
                r
            },
            ChannelContent::Voice { url, duration_seconds } => {
                let mut r = "[voice ".to_owned();
                r.append(text::decimal_u64(*duration_seconds).as_str());
                r.append("s] ");
                r.append(url.as_str());
                r
            },
            ChannelContent::Location { lat, lon } => {
                let mut r = "[location] ".to_owned();
                r.append(lat.as_str());
                r.append(", ");
                r.append(lon.as_str());
                r
            },
            ChannelContent::Command { name, args } => {
                let mut r = "/".to_owned();
                r.append(name.as_str());
                if args.len() > 0 {
                    r.append(" ");
                    r.append(text::join(args, " ").as_str());
                }
                r
            },
        }
    }
}

} // verus!
