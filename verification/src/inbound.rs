//! Messages that come in: which of them count, what they say, and what is handed on.

use crate::adapter::{AdapterView, WeChatAdapter};
use crate::channel::{
    ChannelContent, ChannelMessage, ChannelType, ChannelUser, ContentView, MessageView, UserView,
};
use crate::json;
use crate::json::{Json, JsonView};
use crate::outside;
use crate::text;
use crate::time;
use crate::time::Timestamp;
use vstd::prelude::*;

verus! {

/// The kind of an item that holds text.
pub const TEXT_ITEM: u64 = 1;

/// The kind of an item that holds a voice recording.
pub const VOICE_ITEM: u64 = 3;

/// The text inside the part of an item that has that name.
pub open spec fn inner_text(item: JsonView, part: Seq<char>) -> Option<Seq<char>> {
    match item.member(part) {
        Some(value) => value.text_at("text"@),
        None => None,
    }
}

/// What an item says: a text item its text, a voice recording its transcript unless that is blank,
/// and any other item nothing.
pub open spec fn item_text(item: JsonView) -> Option<Seq<char>> {
    let kind = item.unsigned_at("type"@);
    if kind == Some(TEXT_ITEM as int) {
        match inner_text(item, "text_item"@) {
            Some(t) => Some(text::trimmed(t)),
            None => None,
        }
    } else if kind == Some(VOICE_ITEM as int) {
        match inner_text(item, "voice_item"@) {
            Some(t) if text::trimmed(t).len() > 0 => Some(text::trimmed(t)),
            _ => None,
        }
    } else {
        None
    }
}

/// What a list of items says: what the first of them says that says anything.
pub open spec fn items_text(items: Seq<JsonView>) -> Seq<char>
    decreases items.len(),
{
    if items.len() == 0 {
        Seq::empty()
    } else {
        match item_text(items.first()) {
            Some(t) => t,
            None => items_text(items.drop_first()),
        }
    }
}

/// The text inside the part of an item that has that name.
fn read_inner_text<'a>(item: &'a Json, part: &str) -> (r: Option<&'a str>)
    ensures
        text::optional_str(r) == inner_text(item@, part@),
{
    match item.get(part) {
        Some(value) => value.str_at("text"),
        None => None,
    }
}

/// What a list of items says.
pub fn extract_text_from_items(items: &[Json]) -> (r: String)
    ensures
        r@ == items_text(json::items_view(items@)),
{
    let ghost views = json::items_view(items@);
    proof {
        json::lemma_items_view(items@);
        assert(views.skip(0) == views);
    }
    let mut k: usize = 0;
    while k < items.len()
        invariant
            k <= items@.len(),
            views == json::items_view(items@),
            views.len() == items@.len(),
            items_text(views) == items_text(views.skip(k as int)),
        decreases items@.len() - k,
    {
        let item = &items[k];
        proof {
            json::lemma_items_view(items@);
            assert(views.skip(k as int).first() == item@);
            assert(views.skip(k as int).drop_first() == views.skip(k + 1));
        }
        let kind: u64 = match item.u64_at("type") {
            Some(kind) => kind,
            None => 0,
        };
        if kind == TEXT_ITEM {
            if let Some(t) = read_inner_text(item, "text_item") {
                return text::trim(t);
            }
        }
        if kind == VOICE_ITEM {
            if let Some(t) = read_inner_text(item, "voice_item") {
                let transcript = text::trim(t);
                if !transcript.as_str().is_empty() {
                    return transcript;
                }
            }
        }
        k += 1;
    }
    String::new()
}

/// Who sent a message; an empty name does not count.
pub open spec fn sender(message: JsonView) -> Option<Seq<char>> {
    match message.text_at("from_user_id"@) {
        Some(id) if id.len() > 0 => Some(id),
        _ => None,
    }
}

/// The context token that came with a message; an empty one does not count.
pub open spec fn context_token(message: JsonView) -> Option<Seq<char>> {
    match message.text_at("context_token"@) {
        Some(token) if token.len() > 0 => Some(token),
        _ => None,
    }
}

/// The adapter listens to the sender of the message.
pub open spec fn admits(adapter: AdapterView, message: JsonView) -> bool {
    sender(message) is Some && adapter.allows(sender(message).unwrap())
}

/// The sender of a message that the adapter ignores because it does not listen to them.
pub open spec fn ignored_sender(adapter: AdapterView, message: JsonView) -> Option<Seq<char>> {
    match sender(message) {
        Some(from) if !adapter.allows(from) => Some(from),
        _ => None,
    }
}

/// The senders of the messages that the adapter ignores because it does not listen to them, in
/// order.
pub open spec fn ignored_senders(adapter: AdapterView, messages: Seq<JsonView>) -> Seq<Seq<char>>
    decreases messages.len(),
{
    if messages.len() == 0 {
        Seq::empty()
    } else {
        let before = ignored_senders(adapter, messages.drop_last());
        match ignored_sender(adapter, messages.last()) {
            Some(from) => before.push(from),
            None => before,
        }
    }
}

/// The adapter once it has seen the message: it keeps the context token of a sender it listens to.
pub open spec fn after_seeing(adapter: AdapterView, message: JsonView) -> AdapterView {
    if admits(adapter, message) && context_token(message) is Some {
        AdapterView {
            context_tokens: adapter.context_tokens.insert(
                sender(message).unwrap(),
                context_token(message).unwrap(),
            ),
            ..adapter
        }
    } else {
        adapter
    }
}

/// What a message says.
pub open spec fn message_text(message: JsonView) -> Seq<char> {
    items_text(message.items_at("item_list"@))
}

/// The message is to be handed on: the adapter listens to its sender, and it says something.
pub open spec fn hands_on(adapter: AdapterView, message: JsonView) -> bool {
    admits(adapter, message) && message_text(message).len() > 0
}

/// The identifier of a message: its number, or a fresh name where it has none.
pub open spec fn message_id(message: JsonView, fresh: Seq<char>) -> Seq<char> {
    match message.unsigned_at("message_id"@) {
        Some(n) => text::decimal(n as nat),
        None => "wechat-"@ + fresh,
    }
}

/// When a message was written: the time it gives, or the present where it gives none or one that
/// is out of range.
pub open spec fn message_time(message: JsonView, now: Timestamp) -> Timestamp {
    let millis = match message.signed_at("create_time_ms"@) {
        Some(millis) => millis,
        None => now.millis(),
    };
    if time::representable(millis) {
        time::at_millis(millis)
    } else {
        now
    }
}

/// What is handed on of a message.
pub open spec fn handed_on(message: JsonView, fresh: Seq<char>, now: Timestamp) -> MessageView {
    let from = sender(message).unwrap();
    MessageView {
        channel: "wechat"@,
        platform_message_id: message_id(message, fresh),
        sender: UserView { platform_id: from, display_name: from, openfang_user: None },
        content: ContentView::Text(message_text(message)),
        target_agent: None,
        timestamp: message_time(message, now),
        is_group: false,
        thread_id: None,
        metadata: Map::empty(),
    }
}

/// When a message was written.
fn read_message_time(message: &Json, now: Timestamp) -> (t: Timestamp)
    requires
        now.wf(),
    ensures
        t == message_time(message@, now),
{
    let millis: i64 = match message.i64_at("create_time_ms") {
        Some(millis) => millis,
        None => now.timestamp_millis(),
    };
    match Timestamp::from_millis(millis) {
        Some(t) => t,
        None => now,
    }
}

/// What is handed on of a message from `from` that says `content`. The message goes under the name
/// `fresh` where it has no number, and `now` stands in for a time it does not give.
fn to_channel_message(
    message: &Json,
    from: &str,
    content: String,
    fresh: &str,
    now: Timestamp,
) -> (r: ChannelMessage)
    requires
        now.wf(),
        sender(message@) == Some(from@),
        content@ == message_text(message@),
    ensures
        r@ == handed_on(message@, fresh@, now),
{
    let platform_message_id = match message.u64_at("message_id") {
        Some(n) => text::decimal_u64(n),
        None => {
            let mut id = "wechat-".to_owned();
            id.append(fresh);
            id
        },
    };
    ChannelMessage {
        channel: ChannelType::Custom("wechat".to_owned()),
        platform_message_id,
        sender: ChannelUser {
            platform_id: from.to_owned(),
            display_name: from.to_owned(),
            openfang_user: None,
        },
        content: ChannelContent::Text(content),
        target_agent: None,
        timestamp: read_message_time(message, now),
        is_group: false,
        thread_id: None,
        metadata: Vec::new(),
    }
}

/// Who sent a message.
fn read_sender(message: &Json) -> (r: Option<&str>)
    ensures
        text::optional_str(r) == sender(message@),
{
    match message.str_at("from_user_id") {
        Some(id) if !id.is_empty() => Some(id),
        _ => None,
    }
}

/// What a message says.
fn read_message_text(message: &Json) -> (r: String)
    ensures
        r@ == message_text(message@),
{
    match message.get("item_list") {
        Some(value) => match value.as_array() {
            Some(items) => extract_text_from_items(items.as_slice()),
            None => String::new(),
        },
        None => String::new(),
    }
}

impl WeChatAdapter {
    /// Sees a message, and gives what it says where it is to be handed on.
    fn see_message(&mut self, message: &Json) -> (r: Option<String>)
        ensures
            final(self)@ == after_seeing(old(self)@, message@),
            match r {
                Some(content) => hands_on(old(self)@, message@) && content@ == message_text(
                    message@,
                ),
                None => !hands_on(old(self)@, message@),
            },
    {
        let from = match read_sender(message) {
            Some(from) => from,
            None => {
                return None;
            },
        };
        if !self.is_allowed(from) {
            return None;
        }
        if let Some(token) = message.str_at("context_token") {
            if !token.is_empty() {
                self.update_context_token(from, token);
            }
        }
        let content = read_message_text(message);
        if content.as_str().is_empty() {
            None
        } else {
            Some(content)
        }
    }

    /// The senders of the messages that the adapter ignores because it does not listen to them.
    pub(crate) fn list_ignored(&self, messages: &Vec<Json>) -> (r: Vec<String>)
        ensures
            text::texts(r@) == ignored_senders(self@, json::items_view(messages@)),
    {
        let ghost views = json::items_view(messages@);
        let mut ignored: Vec<String> = Vec::new();
        let mut k: usize = 0;
        proof {
            json::lemma_items_view(messages@);
            assert(views.take(0) =~= Seq::empty());
            assert(text::texts(ignored@) =~= Seq::empty());
        }
        while k < messages.len()
            invariant
                k <= messages@.len(),
                views == json::items_view(messages@),
                views.len() == messages@.len(),
                text::texts(ignored@) == ignored_senders(self@, views.take(k as int)),
            decreases messages@.len() - k,
        {
            let message = &messages[k];
            let ghost before = ignored@;
            proof {
                json::lemma_items_view(messages@);
                assert(views.take(k + 1).drop_last() =~= views.take(k as int));
                assert(views.take(k + 1).last() == message@);
            }
            if let Some(from) = read_sender(message) {
                if !self.is_allowed(from) {
                    ignored.push(from.to_owned());
                    assert(text::texts(ignored@) =~= text::texts(before).push(from@));
                }
            }
            k += 1;
        }
        assert(views.take(k as int) =~= views);
        ignored
    }

    /// Sees a message at `now`, and gives what is handed on of it. The message goes under the name
    /// `fresh` where it has no number.
    pub fn accept_message(&mut self, message: &Json, fresh: &str, now: Timestamp) -> (r: Option<
        ChannelMessage,
    >)
        requires
            now.wf(),
        ensures
            final(self)@ == after_seeing(old(self)@, message@),
            match r {
                Some(handed) => hands_on(old(self)@, message@) && handed@ == handed_on(
                    message@,
                    fresh@,
                    now,
                ),
                None => !hands_on(old(self)@, message@),
            },
    {
        let content = match self.see_message(message) {
            Some(content) => content,
            None => {
                return None;
            },
        };
        match read_sender(message) {
            Some(from) => Some(to_channel_message(message, from, content, fresh, now)),
            None => None,
        }
    }
}

/// Messages that came with one answer, with the number of those seen already.
pub struct UpdateBatch {
    pub messages: Vec<Json>,
    pub seen: usize,
}

impl UpdateBatch {
    /// No more messages are seen than came.
    pub open spec fn wf(self) -> bool {
        self.seen <= self.messages@.len()
    }

    /// What the messages say.
    pub open spec fn messages_view(self) -> Seq<JsonView> {
        json::items_view(self.messages@)
    }
}

/// The first message from `from` on that is to be handed on; the number of messages where there is
/// none.
pub open spec fn next_to_hand_on(adapter: AdapterView, messages: Seq<JsonView>, from: int) -> int
    decreases messages.len() - from,
{
    if from >= messages.len() || hands_on(adapter, messages[from]) {
        from
    } else {
        next_to_hand_on(adapter, messages, from + 1)
    }
}

/// The adapter once it has seen the messages from `from` up to but not including `to`.
pub open spec fn after_seeing_range(
    adapter: AdapterView,
    messages: Seq<JsonView>,
    from: int,
    to: int,
) -> AdapterView
    decreases to - from,
{
    if from >= to {
        adapter
    } else {
        after_seeing_range(after_seeing(adapter, messages[from]), messages, from + 1, to)
    }
}

/// Seeing messages changes only context tokens.
pub proof fn lemma_seeing_keeps_the_rest(
    adapter: AdapterView,
    messages: Seq<JsonView>,
    from: int,
    to: int,
)
    ensures
        after_seeing_range(adapter, messages, from, to) == (AdapterView {
            context_tokens: after_seeing_range(adapter, messages, from, to).context_tokens,
            ..adapter
        }),
    decreases to - from,
{
    if from < to {
        lemma_seeing_keeps_the_rest(
            after_seeing(adapter, messages[from]),
            messages,
            from + 1,
            to,
        );
    }
}

/// Seeing one message more is seeing it after the others.
pub proof fn lemma_seeing_one_more(
    adapter: AdapterView,
    messages: Seq<JsonView>,
    from: int,
    to: int,
)
    requires
        from <= to,
    ensures
        after_seeing_range(adapter, messages, from, to + 1) == after_seeing(
            after_seeing_range(adapter, messages, from, to),
            messages[to],
        ),
    decreases to - from,
{
    if from < to {
        lemma_seeing_one_more(after_seeing(adapter, messages[from]), messages, from + 1, to);
    } else {
        reveal_with_fuel(after_seeing_range, 2);
    }
}

impl WeChatAdapter {
    /// Sees the messages of the batch up to and including the next that is to be handed on, and
    /// gives what is handed on of that one; `None` once there is no such message left.
    pub fn next_message(&mut self, batch: &mut UpdateBatch) -> (r: Option<ChannelMessage>)
        requires
            old(batch).wf(),
        ensures
            ({
                let messages = old(batch).messages_view();
                let at = next_to_hand_on(old(self)@, messages, old(batch).seen as int);
                &&& final(batch).messages@ == old(batch).messages@
                &&& final(batch).wf()
                &&& match r {
                    Some(handed) => {
                        &&& at < messages.len()
                        &&& final(batch).seen == at + 1
                        &&& final(self)@ == after_seeing_range(
                            old(self)@,
                            messages,
                            old(batch).seen as int,
                            at + 1,
                        )
                        &&& exists|fresh: Seq<char>, now: Timestamp|
                            {
                                &&& messages[at].unsigned_at("message_id"@) is None
                                    ==> outside::is_uuid_v4(fresh)
                                &&& now.wf()
                                &&& handed@ == #[trigger] handed_on(messages[at], fresh, now)
                            }
                    },
                    None => {
                        &&& at == messages.len()
                        &&& final(batch).seen == at
                        &&& final(self)@ == after_seeing_range(
                            old(self)@,
                            messages,
                            old(batch).seen as int,
                            at,
                        )
                    },
                }
            }),
    {
        let ghost messages = batch.messages_view();
        let ghost start = batch.seen as int;
        proof {
            json::lemma_items_view(batch.messages@);
        }
        while batch.seen < batch.messages.len()
            invariant
                messages == old(batch).messages_view(),
                messages.len() == old(batch).messages@.len(),
                batch.messages@ == old(batch).messages@,
                start == old(batch).seen,
                start <= batch.seen <= batch.messages@.len(),
                self@ == after_seeing_range(old(self)@, messages, start, batch.seen as int),
                next_to_hand_on(old(self)@, messages, start) == next_to_hand_on(
                    old(self)@,
                    messages,
                    batch.seen as int,
                ),
            decreases batch.messages@.len() - batch.seen,
        {
            let ghost at = batch.seen as int;
            proof {
                json::lemma_items_view(batch.messages@);
                lemma_seeing_keeps_the_rest(old(self)@, messages, start, at);
                lemma_seeing_one_more(old(self)@, messages, start, at);
            }
            let message = &batch.messages[batch.seen];
            assert(message@ == messages[at]);
            let seen = self.see_message(message);
            if let Some(content) = seen {
                let fresh = match message.u64_at("message_id") {
                    Some(_) => String::new(),
                    None => outside::new_uuid_v4(),
                };
                let now = Timestamp::now();
                let handed = match read_sender(message) {
                    Some(from) => to_channel_message(message, from, content, fresh.as_str(), now),
                    None => {
                        assert(false);
                        return None;
                    },
                };
                assert(handed@ == handed_on(messages[at], fresh@, now));
                batch.seen = batch.seen + 1;
                return Some(handed);
            }
            batch.seen = batch.seen + 1;
        }
        None
    }
}

} // verus!
