//! What the operations are for, said of what goes in and what comes out.

use crate::adapter;
use crate::adapter::{AdapterView, LoginView};
use crate::channel;
use crate::channel::{ContentView, StatusView, UserView};
use crate::cycle;
use crate::cycle::{PollCommandView, PollInputView, PollStateView, StepView};
use crate::http;
use crate::http::ReplyView;
use crate::inbound;
use crate::json;
use crate::json::{Json, JsonView};
use crate::laws;
use crate::login;
use crate::login::{LoginActionView, LoginEventView, LoginStateView};
use crate::outbound;
use crate::outside;
use crate::poll;
use crate::poll::{PollAction, PollEventView};
use crate::state;
use crate::state::{AccountView, PartView};
use crate::text;
use crate::time;
use crate::time::Timestamp;
use vstd::prelude::*;
use vstd::utf8::encode_utf8;

verus! {

/// Every character is white space.
pub open spec fn is_blank(s: Seq<char>) -> bool {
    forall|i: int| 0 <= i < s.len() ==> text::is_white_space(#[trigger] s[i])
}

proof fn lemma_trimmed_start_is_a_tail(s: Seq<char>) -> (before: Seq<char>)
    ensures
        is_blank(before),
        s == before + text::trimmed_start(s),
        text::trimmed_start(s).len() > 0 ==> !text::is_white_space(text::trimmed_start(s).first()),
    decreases s.len(),
{
    if s.len() > 0 && text::is_white_space(s.first()) {
        let rest = lemma_trimmed_start_is_a_tail(s.drop_first());
        let before = seq![s.first()] + rest;
        assert forall|i: int| 0 <= i < before.len() implies text::is_white_space(
            #[trigger] before[i],
        ) by {
            if i > 0 {
                assert(before[i] == rest[i - 1]);
            }
        }
        assert(s =~= seq![s.first()] + s.drop_first());
        assert(s =~= before + text::trimmed_start(s));
        before
    } else {
        assert(s =~= Seq::empty() + s);
        Seq::empty()
    }
}

proof fn lemma_trimmed_end_is_a_head(s: Seq<char>) -> (after: Seq<char>)
    ensures
        is_blank(after),
        s == text::trimmed_end(s) + after,
        text::trimmed_end(s).len() > 0 ==> !text::is_white_space(text::trimmed_end(s).last()),
    decreases s.len(),
{
    if s.len() > 0 && text::is_white_space(s.last()) {
        let rest = lemma_trimmed_end_is_a_head(s.drop_last());
        let after = rest.push(s.last());
        assert forall|i: int| 0 <= i < after.len() implies text::is_white_space(
            #[trigger] after[i],
        ) by {
            if i < rest.len() {
                assert(after[i] == rest[i]);
            }
        }
        assert(s =~= s.drop_last().push(s.last()));
        assert(s =~= text::trimmed_end(s) + after);
        after
    } else {
        assert(s =~= s + Seq::empty());
        Seq::empty()
    }
}

/// Trimming takes white space off both ends, all of it, and nothing else: the text is the trimmed
/// one with white space before and after, and the trimmed one does not begin or end with any.
pub proof fn law_trimming_takes_off_white_space_only(s: Seq<char>)
    ensures
        exists|before: Seq<char>, after: Seq<char>|
            is_blank(before) && is_blank(after) && s == #[trigger] (before + text::trimmed(s)
                + after),
        text::trimmed(s).len() > 0 ==> !text::is_white_space(text::trimmed(s).first())
            && !text::is_white_space(text::trimmed(s).last()),
        text::trimmed(s).len() == 0 <==> is_blank(s),
{
    let middle = text::trimmed_start(s);
    let kept = text::trimmed(s);
    let before = lemma_trimmed_start_is_a_tail(s);
    let after = lemma_trimmed_end_is_a_head(middle);
    assert(s =~= before + kept + after);
    if kept.len() > 0 {
        assert(kept.first() == middle.first());
        assert(s[before.len() as int] == kept.first());
    } else {
        assert forall|i: int| 0 <= i < s.len() implies text::is_white_space(#[trigger] s[i]) by {
            if i < before.len() {
                assert(s[i] == before[i]);
            } else {
                assert(s[i] == after[i - before.len()]);
            }
        }
    }
}

/// Where a run of one character is taken off the end of a text, all of the run goes and nothing
/// else.
pub proof fn law_trailing_runs_go_whole(s: Seq<char>, c: char)
    ensures
        text::without_trailing(s, c).is_prefix_of(s),
        forall|i: int|
            text::without_trailing(s, c).len() <= i < s.len() ==> #[trigger] s[i] == c,
        text::without_trailing(s, c).len() > 0 ==> text::without_trailing(s, c).last() != c,
    decreases s.len(),
{
    if s.len() > 0 && s.last() == c {
        law_trailing_runs_go_whole(s.drop_last(), c);
        let kept = text::without_trailing(s, c);
        assert forall|i: int| kept.len() <= i < s.len() implies #[trigger] s[i] == c by {
            if i < s.len() - 1 {
                assert(s.drop_last()[i] == c);
            }
        }
    }
}

/// A text stands in another exactly where that one is it with something, or nothing, before and
/// after.
pub proof fn law_what_it_is_to_occur(hay: Seq<char>, needle: Seq<char>)
    ensures
        text::occurs(hay, needle) <==> exists|before: Seq<char>, after: Seq<char>|
            hay == #[trigger] (before + needle + after),
{
    if text::occurs(hay, needle) {
        let at = choose|at: int| text::occurs_at(hay, needle, at);
        let before = hay.take(at);
        let after = hay.skip(at + needle.len());
        assert(hay.subrange(at, at + needle.len()) == needle);
        assert(hay =~= before + needle + after);
    }
    if exists|before: Seq<char>, after: Seq<char>| hay == #[trigger] (before + needle + after) {
        let (before, after) = choose|before: Seq<char>, after: Seq<char>|
            hay == #[trigger] (before + needle + after);
        let at = before.len() as int;
        assert(hay.subrange(at, at + needle.len()) =~= needle);
        assert(text::occurs_at(hay, needle, at));
    }
}

/// The number that a row of decimal digits stands for.
pub open spec fn numeral_value(s: Seq<char>) -> int
    decreases s.len(),
{
    if s.len() == 0 {
        0
    } else {
        numeral_value(s.drop_last()) * 10 + (s.last() as int - '0' as int)
    }
}

/// A decimal numeral is made of digits, has no leading zero, and stands for the number it was made
/// from.
pub proof fn law_numerals_stand_for_their_numbers(n: nat)
    ensures
        numeral_value(text::decimal(n)) == n,
        text::decimal(n).len() > 0,
        forall|i: int|
            0 <= i < text::decimal(n).len() ==> '0' <= #[trigger] text::decimal(n)[i]
                && text::decimal(n)[i] <= '9',
        text::decimal(n)[0] == '0' ==> n == 0,
        n == 0 ==> text::decimal(n).len() == 1,
    decreases n,
{
    let s = text::decimal(n);
    if n < 10 {
        assert(s.drop_last() =~= Seq::empty());
        assert(numeral_value(s.drop_last()) == 0);
    } else {
        let rest = text::decimal(n / 10);
        law_numerals_stand_for_their_numbers(n / 10);
        assert(s.drop_last() =~= rest);
        assert(s[0] == rest[0]);
        assert forall|i: int| 0 <= i < s.len() implies '0' <= #[trigger] s[i] && s[i] <= '9' by {
            if i < rest.len() {
                assert(s[i] == rest[i]);
            }
        }
    }
}

/// The numeral of a negative number is that of the number without its sign, behind a hyphen.
pub proof fn law_signed_numerals(n: int)
    ensures
        n >= 0 ==> text::signed_decimal(n) == text::decimal(n as nat),
        n < 0 ==> text::signed_decimal(n) == "-"@ + text::decimal((-n) as nat),
{
    reveal_strlit("-");
    assert("-"@ =~= seq!['-']);
}

/// Joining puts every part in whole and in order, with the separator between neighbours: one part
/// more brings the separator and the part, and the first part comes alone.
pub proof fn law_joining_keeps_every_part(
    parts: Seq<Seq<char>>,
    part: Seq<char>,
    separator: Seq<char>,
)
    ensures
        text::joined(parts.push(part), separator) == if parts.len() == 0 {
            part
        } else {
            text::joined(parts, separator) + separator + part
        },
{
    assert(parts.push(part).drop_last() =~= parts);
}

/// What a value is when it is read as a string, as a number or as a list, by its form alone.
pub proof fn law_values_are_read_by_their_form(value: JsonView)
    ensures
        value.text() == match value {
            JsonView::Text(s) => Some(s),
            _ => None::<Seq<char>>,
        },
        value matches JsonView::Number(Some(n)) ==> {
            &&& value.signed() == if -0x8000_0000_0000_0000 <= n <= 0x7fff_ffff_ffff_ffff {
                Some(n)
            } else {
                None
            }
            &&& value.unsigned() == if 0 <= n <= 0xffff_ffff_ffff_ffff {
                Some(n)
            } else {
                None
            }
        },
        value !is Number ==> value.signed() is None && value.unsigned() is None,
        value == JsonView::Number(None) ==> value.signed() is None && value.unsigned() is None,
        value.items() == match value {
            JsonView::Array(items) => Some(items),
            _ => None::<Seq<JsonView>>,
        },
{
}

/// A member is looked up by its name in an object, and is read as a string, a number or a list as
/// it would be by itself.
pub proof fn law_members_are_read_by_their_name(value: JsonView, name: Seq<char>)
    ensures
        value.member(name) is Some <==> value is Object && value->Object_0.contains_key(name),
        value.member(name) is Some ==> value.member(name) == Some(value->Object_0[name]),
        value.member(name) matches Some(member) ==> {
            &&& value.text_at(name) == member.text()
            &&& value.signed_at(name) == member.signed()
            &&& value.unsigned_at(name) == member.unsigned()
            &&& value.items_at(name) == match member.items() {
                Some(items) => items,
                None => Seq::empty(),
            }
        },
        value.member(name) is None ==> {
            &&& value.text_at(name) is None
            &&& value.signed_at(name) is None
            &&& value.unsigned_at(name) is None
            &&& value.items_at(name).len() == 0
        },
{
}

/// An object has exactly the members that are listed, and of those with one name the last.
pub proof fn law_the_last_of_a_name_counts(members: Seq<(String, Json)>, i: int)
    requires
        0 <= i < members.len(),
        forall|j: int| i < j < members.len() ==> (#[trigger] members[j]).0@ != members[i].0@,
    ensures
        json::members_view(members).contains_key(members[i].0@),
        json::members_view(members)[members[i].0@] == members[i].1@,
        forall|name: Seq<char>| #[trigger]
            json::members_view(members).contains_key(name) ==> exists|j: int|
                0 <= j < members.len() && (#[trigger] members[j]).0@ == name,
    decreases members.len(),
{
    lemma_names_are_listed(members);
    let rest = members.drop_last();
    if i < rest.len() {
        assert forall|j: int| i < j < rest.len() implies (#[trigger] rest[j]).0@ != rest[i].0@ by {
            assert(members[j].0@ != members[i].0@);
        }
        law_the_last_of_a_name_counts(rest, i);
        assert(members[rest.len() as int].0@ != members[i].0@);
    }
}

proof fn lemma_names_are_listed(members: Seq<(String, Json)>)
    ensures
        forall|name: Seq<char>| #[trigger]
            json::members_view(members).contains_key(name) ==> exists|j: int|
                0 <= j < members.len() && (#[trigger] members[j]).0@ == name,
    decreases members.len(),
{
    if members.len() > 0 {
        let rest = members.drop_last();
        lemma_names_are_listed(rest);
        assert forall|name: Seq<char>| #[trigger]
            json::members_view(members).contains_key(name) implies exists|j: int|
            0 <= j < members.len() && (#[trigger] members[j]).0@ == name by {
            if members.last().0@ == name {
                assert(members[members.len() - 1].0@ == name);
            } else {
                assert(json::members_view(rest).contains_key(name));
                let j = choose|j: int| 0 <= j < rest.len() && (#[trigger] rest[j]).0@ == name;
                assert(members[j].0@ == name);
            }
        }
    }
}

/// A number of milliseconds and the moment it stands for are each other's: the moment has that
/// number, no finer part, and lies in the range that is covered.
pub proof fn law_moments_stand_for_their_milliseconds(millis: int)
    ensures
        time::representable(millis) <==> -8_334_601_228_800_000 <= millis
            <= 8_210_266_876_799_999,
        time::representable(millis) ==> {
            let t = time::at_millis(millis);
            &&& t.secs * 1000 + t.nanos as int / 1_000_000 == millis
            &&& t.nanos as int % 1_000_000 == 0
            &&& t.nanos < 1_000_000_000
            &&& t.wf()
            &&& t.millis() == millis
        },
{
}

/// The item is a text item with this string.
pub open spec fn is_text_saying(item: JsonView, said: Seq<char>) -> bool {
    &&& item.unsigned_at("type"@) == Some(1int)
    &&& item.member("text_item"@) matches Some(part)
    &&& part.text_at("text"@) == Some(said)
}

/// The item is a voice recording with this transcript.
pub open spec fn is_voice_saying(item: JsonView, said: Seq<char>) -> bool {
    &&& item.unsigned_at("type"@) == Some(3int)
    &&& item.member("voice_item"@) matches Some(part)
    &&& part.text_at("text"@) == Some(said)
}

/// The item is a text item with a string, or a voice recording with a transcript that is not blank.
pub open spec fn speaks(item: JsonView) -> bool {
    ||| {
        &&& item.unsigned_at("type"@) == Some(1int)
        &&& item.member("text_item"@) matches Some(part)
        &&& part.text_at("text"@) is Some
    }
    ||| {
        &&& item.unsigned_at("type"@) == Some(3int)
        &&& item.member("voice_item"@) matches Some(part)
        &&& part.text_at("text"@) matches Some(said)
        &&& !is_blank(said)
    }
}

/// A list of items says what the first item says that speaks, wherever in the list it stands and
/// whatever stands behind it; where none speaks, the list says nothing.
pub proof fn law_the_first_item_that_speaks_is_heard(
    items: Seq<JsonView>,
    k: int,
    said: Seq<char>,
)
    requires
        0 <= k <= items.len(),
        forall|i: int| 0 <= i < k ==> !speaks(#[trigger] items[i]),
        k < items.len() ==> is_text_saying(items[k], said) || (is_voice_saying(items[k], said)
            && !is_blank(said)),
    ensures
        k < items.len() ==> inbound::items_text(items) == text::trimmed(said),
        k == items.len() ==> inbound::items_text(items).len() == 0,
    decreases items.len(),
{
    if items.len() > 0 {
        let item = items.first();
        law_trimming_takes_off_white_space_only(said);
        if k == 0 {
            assert(inbound::item_text(item) == Some(text::trimmed(said)));
        } else {
            assert(!speaks(items[0]));
            lemma_silent_items_say_nothing(item);
            let rest = items.drop_first();
            assert forall|i: int| 0 <= i < k - 1 implies !speaks(#[trigger] rest[i]) by {
                assert(rest[i] == items[i + 1]);
            }
            if k < items.len() {
                assert(rest[k - 1] == items[k]);
            }
            law_the_first_item_that_speaks_is_heard(rest, k - 1, said);
        }
    }
}

proof fn lemma_silent_items_say_nothing(item: JsonView)
    requires
        !speaks(item),
    ensures
        inbound::item_text(item) is None,
{
    if let Some(said) = inbound::inner_text(item, "voice_item"@) {
        law_trimming_takes_off_white_space_only(said);
    }
}

/// The message names its sender, and the adapter names no one, everyone, or that sender as someone
/// to listen to.
pub open spec fn comes_from_someone_allowed(
    adapter: AdapterView,
    message: JsonView,
    from: Seq<char>,
) -> bool {
    &&& message.text_at("from_user_id"@) == Some(from)
    &&& from.len() > 0
    &&& adapter.allowed_users.len() == 0 || adapter.allowed_users.contains("*"@)
        || adapter.allowed_users.contains(from)
}

/// A message of someone allowed is handed on with what its first item says that speaks, without
/// the white space at its ends, wherever in its list that item stands. It is not handed on where
/// that is blank, nor where no item speaks.
pub proof fn law_messages_are_handed_on_with_what_they_say(
    adapter: AdapterView,
    message: JsonView,
    from: Seq<char>,
    k: int,
    said: Seq<char>,
    fresh: Seq<char>,
    now: Timestamp,
)
    requires
        comes_from_someone_allowed(adapter, message, from),
        ({
            let items = message.items_at("item_list"@);
            &&& 0 <= k <= items.len()
            &&& forall|i: int| 0 <= i < k ==> !speaks(#[trigger] items[i])
            &&& k < items.len() ==> is_text_saying(items[k], said) || (is_voice_saying(
                items[k],
                said,
            ) && !is_blank(said))
        }),
    ensures
        ({
            let items = message.items_at("item_list"@);
            &&& inbound::hands_on(adapter, message) <==> k < items.len() && !is_blank(said)
            &&& k < items.len() ==> inbound::handed_on(message, fresh, now).content
                == ContentView::Text(text::trimmed(said))
        }),
{
    let items = message.items_at("item_list"@);
    law_the_first_item_that_speaks_is_heard(items, k, said);
    law_trimming_takes_off_white_space_only(said);
}

/// A message without a sender, or from someone who is not allowed, is not handed on, and changes
/// nothing; a message of someone allowed changes nothing but the sender's context token, to the one
/// that the message brings, and not even that where it brings none or an empty one.
pub proof fn law_what_seeing_a_message_changes(adapter: AdapterView, message: JsonView)
    ensures
        ({
            let after = inbound::after_seeing(adapter, message);
            &&& (forall|from: Seq<char>|
                !#[trigger] comes_from_someone_allowed(adapter, message, from))
                ==> !inbound::hands_on(adapter, message) && after == adapter
            &&& forall|from: Seq<char>| #[trigger]
                comes_from_someone_allowed(adapter, message, from) ==> match message.text_at(
                    "context_token"@,
                ) {
                    Some(token) if token.len() > 0 => after == (AdapterView {
                        context_tokens: adapter.context_tokens.insert(from, token),
                        ..adapter
                    }),
                    _ => after == adapter,
                }
        }),
{
    if let Some(from) = message.text_at("from_user_id"@) {
        if !comes_from_someone_allowed(adapter, message, from) {
            assert(!inbound::admits(adapter, message));
        }
    }
}

/// What is handed on besides the content: the channel, the message's number or a drawn name, the
/// sender twice over, and the time that the message gives where it is covered, or else the present;
/// a time that is missing is the present to the millisecond.
pub proof fn law_what_goes_along_with_a_message(
    message: JsonView,
    from: Seq<char>,
    fresh: Seq<char>,
    now: Timestamp,
)
    requires
        message.text_at("from_user_id"@) == Some(from),
        from.len() > 0,
        now.wf(),
    ensures
        ({
            let handed = inbound::handed_on(message, fresh, now);
            &&& handed.channel == "wechat"@
            &&& handed.platform_message_id == match message.unsigned_at("message_id"@) {
                Some(n) => text::decimal(n as nat),
                None => "wechat-"@ + fresh,
            }
            &&& handed.sender.platform_id == from
            &&& handed.sender.display_name == from
            &&& handed.sender.openfang_user is None
            &&& handed.target_agent is None
            &&& handed.thread_id is None
            &&& !handed.is_group
            &&& handed.metadata == Map::<Seq<char>, JsonView>::empty()
            &&& handed.timestamp.wf()
            &&& match message.signed_at("create_time_ms"@) {
                Some(millis) => if -8_334_601_228_800_000 <= millis <= 8_210_266_876_799_999 {
                    &&& handed.timestamp.secs * 1000 + handed.timestamp.nanos as int / 1_000_000
                        == millis
                    &&& handed.timestamp.nanos as int % 1_000_000 == 0
                } else {
                    handed.timestamp == now
                },
                None => {
                    &&& handed.timestamp.secs == now.secs
                    &&& handed.timestamp.nanos as int == now.nanos as int - now.nanos as int
                        % 1_000_000
                },
            }
        }),
{
    law_moments_stand_for_their_milliseconds(now.millis());
    if let Some(millis) = message.signed_at("create_time_ms"@) {
        law_moments_stand_for_their_milliseconds(millis);
    }
}

/// A text goes out as it is, whatever its length; any other content goes out as a text in which
/// each of its strings stands whole and in its place.
pub proof fn law_contents_go_out_whole(content: ContentView)
    ensures
        channel::plain_text(content) == match content {
            ContentView::Text(said) => said,
            ContentView::Image { url, caption: Some(caption) } => "[image] "@ + caption + "\n"@
                + url,
            ContentView::Image { url, caption: None } => "[image] "@ + url,
            ContentView::File { url, filename } => "[file] "@ + filename + "\n"@ + url,
            ContentView::FileData { filename } => "[file] "@ + filename,
            ContentView::Voice { url, duration_seconds } => "[voice "@ + text::decimal(
                duration_seconds,
            ) + "s] "@ + url,
            ContentView::Location { lat, lon } => "[location] "@ + lat + ", "@ + lon,
            ContentView::Command { name, args } => "/"@ + name + if args.len() == 0 {
                Seq::empty()
            } else {
                " "@ + text::joined(args, " "@)
            },
        },
{
    if let ContentView::Command { name, args } = content {
        let whole = channel::plain_text(content);
        if args.len() == 0 {
            assert(whole =~= "/"@ + name + Seq::empty());
        } else {
            assert(whole =~= "/"@ + name + (" "@ + text::joined(args, " "@)));
        }
    }
}

/// The first text stands whole in the whole one, and behind it the second.
pub open spec fn stand_in_order(whole: Seq<char>, first: Seq<char>, second: Seq<char>) -> bool {
    exists|before: Seq<char>, between: Seq<char>, after: Seq<char>|
        whole == #[trigger] (before + first + between + second + after)
}

proof fn lemma_stand_in_order(
    whole: Seq<char>,
    before: Seq<char>,
    first: Seq<char>,
    between: Seq<char>,
    second: Seq<char>,
)
    requires
        whole == before + first + between + second,
    ensures
        stand_in_order(whole, first, second),
{
    assert(whole =~= before + first + between + second + Seq::empty());
}

/// Every string of a content stands whole in the text that goes out for it, in order, and a text is
/// what goes out for itself. A command with one argument more goes out as before, with a space and
/// that argument behind.
pub proof fn law_every_string_of_a_content_stands_whole(content: ContentView, more: Seq<char>)
    ensures
        ({
            let sent = channel::plain_text(content);
            match content {
                ContentView::Text(said) => sent == said,
                ContentView::Image { url, caption: Some(caption) } => stand_in_order(
                    sent,
                    caption,
                    url,
                ),
                ContentView::Image { url, caption: None } => url.is_suffix_of(sent),
                ContentView::File { url, filename } => stand_in_order(sent, filename, url),
                ContentView::FileData { filename } => filename.is_suffix_of(sent),
                ContentView::Voice { url, duration_seconds } => stand_in_order(
                    sent,
                    text::decimal(duration_seconds),
                    url,
                ),
                ContentView::Location { lat, lon } => stand_in_order(sent, lat, lon),
                ContentView::Command { name, args } => {
                    &&& args.len() == 0 ==> sent == "/"@ + name
                    &&& channel::plain_text(ContentView::Command { name, args: args.push(more) })
                        == sent + " "@ + more
                },
            }
        }),
{
    let sent = channel::plain_text(content);
    match content {
        ContentView::Image { url, caption: Some(caption) } => {
            lemma_stand_in_order(sent, "[image] "@, caption, "\n"@, url);
        },
        ContentView::File { url, filename } => {
            lemma_stand_in_order(sent, "[file] "@, filename, "\n"@, url);
        },
        ContentView::Voice { url, duration_seconds } => {
            lemma_stand_in_order(sent, "[voice "@, text::decimal(duration_seconds), "s] "@, url);
        },
        ContentView::Location { lat, lon } => {
            lemma_stand_in_order(sent, "[location] "@, lat, ", "@, lon);
        },
        ContentView::Command { name, args } => {
            law_joining_keeps_every_part(args, more, " "@);
            let longer = channel::plain_text(
                ContentView::Command { name, args: args.push(more) },
            );
            assert(longer =~= sent + " "@ + more);
        },
        _ => {},
    }
}

/// The document that sends a text: it names the user, the client, the context token and the version
/// whole, and holds one text item with exactly that text; it says nothing else.
pub proof fn law_what_a_send_document_says(
    user_id: Seq<char>,
    said: Seq<char>,
    client_id: Seq<char>,
    token: Seq<char>,
    version: Seq<char>,
    name: Seq<char>,
)
    ensures
        ({
            let document = outbound::send_document(user_id, said, client_id, token, version);
            &&& document.member(name) is Some <==> name == "msg"@ || name == "base_info"@
            &&& document.member("base_info"@) matches Some(info) && info.text_at(
                "channel_version"@,
            ) == Some(version) && (info.member(name) is Some <==> name == "channel_version"@)
            &&& document.member("msg"@) matches Some(msg) && {
                let items = msg.items_at("item_list"@);
                &&& msg.text_at("from_user_id"@) == Some(Seq::<char>::empty())
                &&& msg.text_at("to_user_id"@) == Some(user_id)
                &&& msg.text_at("client_id"@) == Some(client_id)
                &&& msg.unsigned_at("message_type"@) == Some(2int)
                &&& msg.unsigned_at("message_state"@) == Some(2int)
                &&& msg.text_at("context_token"@) == Some(token)
                &&& items.len() == 1
                &&& is_text_saying(items[0], said)
                &&& items[0].member(name) is Some <==> name == "type"@ || name == "text_item"@
                &&& items[0].member("text_item"@).unwrap().member(name) is Some <==> name
                    == "text"@
                &&& msg.member(name) is Some <==> name == "from_user_id"@ || name == "to_user_id"@
                    || name == "client_id"@ || name == "message_type"@ || name == "message_state"@
                    || name == "item_list"@ || name == "context_token"@
            }
        }),
{
    reveal_strlit("msg");
    reveal_strlit("base_info");
    assert("msg"@.len() != "base_info"@.len());
    reveal_strlit("type");
    reveal_strlit("text_item");
    assert("type"@.len() != "text_item"@.len());
    reveal_strlit("from_user_id");
    reveal_strlit("to_user_id");
    reveal_strlit("client_id");
    reveal_strlit("message_type");
    reveal_strlit("message_state");
    reveal_strlit("item_list");
    reveal_strlit("context_token");
    assert("to_user_id"@.len() == 10);
    assert("client_id"@.len() == 9 && "item_list"@.len() == 9);
    assert("from_user_id"@.len() == 12 && "message_type"@.len() == 12);
    assert("message_state"@.len() == 13 && "context_token"@.len() == 13);
    assert("from_user_id"@[0] == 'f');
    assert("client_id"@[0] == 'c');
    assert("message_type"@[0] == 'm');
    assert("message_state"@[0] == 'm');
    assert("item_list"@[0] == 'i');
    assert("context_token"@[0] == 'c');
}

/// Sending a content to a user hands the bot API, at its address for sending and with the adapter's
/// token, a document that names the user whole and holds the content's text whole, together with
/// the context token that the adapter has of that user, or an empty one where it has none.
pub proof fn law_what_a_send_request_says(
    adapter: AdapterView,
    user: UserView,
    content: ContentView,
    fresh: Seq<char>,
    version: Seq<char>,
)
    ensures
        ({
            let said = channel::plain_text(content);
            let request = outbound::send_request(
                adapter,
                user.platform_id,
                said,
                fresh,
                version,
            );
            let token = if adapter.context_tokens.contains_key(user.platform_id) {
                adapter.context_tokens[user.platform_id]
            } else {
                Seq::empty()
            };
            &&& request.url == adapter.api_url("sendmessage"@)
            &&& request.headers == http::api_headers(adapter.bot_token)
            &&& request.timeout_ms == 15_000
            &&& request.body == outside::json_bytes(
                outbound::send_document(
                    user.platform_id,
                    said,
                    "openfang-"@ + fresh,
                    token,
                    version,
                ),
            )
            &&& content matches ContentView::Text(whole) ==> said == whole
        }),
{
    law_contents_go_out_whole(content);
}

/// The address of an endpoint is the base without the slashes it ends with, the path of the bot
/// API, and the endpoint.
pub proof fn law_addresses(adapter: AdapterView, base: Seq<char>, slashes: nat, endpoint: Seq<char>)
    requires
        adapter.api_base_url == base + Seq::new(slashes, |i: int| '/'),
        base.len() > 0 ==> base.last() != '/',
    ensures
        adapter.api_url(endpoint) == base + "/ilink/bot/"@ + endpoint,
    decreases slashes,
{
    let whole = adapter.api_base_url;
    if slashes == 0 {
        assert(whole =~= base);
    } else {
        let fewer = (slashes - 1) as nat;
        let shorter = AdapterView {
            api_base_url: base + Seq::new(fewer, |i: int| '/'),
            ..adapter
        };
        assert(whole.drop_last() =~= shorter.api_base_url);
        assert(whole.last() == '/');
        law_addresses(shorter, base, fewer, endpoint);
    }
}

/// A request says that it brings JSON and a bot token, and brings the token whole where there is
/// one, it is not empty, and it may stand in a header.
pub proof fn law_what_headers_say(token: Option<Seq<char>>)
    ensures
        ({
            let headers = http::api_headers(token);
            &&& headers.len() >= 2
            &&& headers[0] == ("content-type"@, "application/json"@)
            &&& headers[1] == ("AuthorizationType"@, "ilink_bot_token"@)
            &&& match token {
                Some(token) if token.len() > 0 && outside::is_header_text(token) => headers
                    == seq![
                    headers[0],
                    headers[1],
                    ("authorization"@, "Bearer "@ + token),
                ],
                _ => headers.len() == 2,
            }
        }),
{
    laws::law_headers_are_sound(token);
}

/// Success is a status in the two hundreds; a status has three digits and does not begin with zero.
pub proof fn law_which_statuses_are_success(status: int)
    ensures
        http::success_status(status) <==> status / 100 == 2,
        http::valid_status(status) <==> 1 <= status / 100 <= 9,
{
}

/// A refusal is told with what was asked for, the status in figures and words, and the whole text
/// that came with it.
pub proof fn law_what_refusals_say(what: Seq<char>, status: int, said: Seq<char>)
    requires
        status >= 0,
    ensures
        http::refusal(what, status, said) == what + " "@ + text::decimal(status as nat) + " "@
            + outside::status_phrase(status) + ": "@ + said,
{
    reveal_strlit(" ");
    assert(" "@ =~= seq![' ']);
    assert(http::refusal(what, status, said) =~= what + " "@ + text::decimal(status as nat) + " "@
        + outside::status_phrase(status) + ": "@ + said);
}

/// A reply brings its document exactly where it is a body that is one; else it brings the client's
/// own message, or the refusal.
pub proof fn law_what_replies_bring(reply: ReplyView, what: Seq<char>)
    ensures
        match reply {
            ReplyView::TimedOut(message) => http::payload(reply, what) == Err::<
                JsonView,
                Seq<char>,
            >(message),
            ReplyView::Failed(message) => http::payload(reply, what) == Err::<
                JsonView,
                Seq<char>,
            >(message),
            ReplyView::Refused { status, text } => http::payload(reply, what) == Err::<
                JsonView,
                Seq<char>,
            >(http::refusal(what, status, text)),
            ReplyView::Body(bytes) => match outside::json_document(bytes) {
                Some(document) => http::payload(reply, what) == Ok::<JsonView, Seq<char>>(document),
                None => http::payload(reply, what) == Err::<JsonView, Seq<char>>(
                    "error decoding response body"@,
                ),
            },
        },
{
}

/// The request for updates goes to its address with the adapter's token, and hands over the whole
/// position and the version, and nothing else.
pub proof fn law_what_an_update_request_says(
    adapter: AdapterView,
    version: Seq<char>,
    name: Seq<char>,
)
    ensures
        ({
            let document = poll::updates_document(adapter.cursor, version);
            let request = poll::updates_request(adapter, version);
            &&& request.url == adapter.api_url("getupdates"@)
            &&& request.headers == http::api_headers(adapter.bot_token)
            &&& request.timeout_ms == 35_000
            &&& request.body == outside::json_bytes(document)
            &&& document.text_at("get_updates_buf"@) == Some(adapter.cursor)
            &&& document.member("base_info"@) matches Some(info) && info.text_at(
                "channel_version"@,
            ) == Some(version) && (info.member(name) is Some <==> name == "channel_version"@)
            &&& document.member(name) is Some <==> name == "get_updates_buf"@ || name
                == "base_info"@
        }),
{
    reveal_strlit("get_updates_buf");
    reveal_strlit("base_info");
    assert("get_updates_buf"@.len() != "base_info"@.len());
}

/// The number under a name is there and is not zero.
pub open spec fn is_nonzero_at(document: JsonView, name: Seq<char>) -> bool {
    document.signed_at(name) matches Some(n) && n != 0
}

/// An answer ends the poll with an error exactly where one of its two codes is there and is not
/// zero, whatever the code and its sign. The error tells both codes, a missing one as zero, and the
/// message that came along, and nothing of the answer is taken over.
pub proof fn law_answers_fail_by_their_codes(
    adapter: AdapterView,
    document: JsonView,
    step: StepView,
)
    requires
        cycle::is_answer_step(adapter, document, step),
    ensures
        (step.command matches PollCommandView::Done { error: Some(_), .. }) <==> is_nonzero_at(
            document,
            "ret"@,
        ) || is_nonzero_at(document, "errcode"@),
        step.command matches PollCommandView::Done { error: Some(message), save } ==> {
            let ret = if is_nonzero_at(document, "ret"@) {
                document.signed_at("ret"@).unwrap()
            } else {
                0
            };
            let errcode = if is_nonzero_at(document, "errcode"@) {
                document.signed_at("errcode"@).unwrap()
            } else {
                0
            };
            let errmsg = match document.text_at("errmsg"@) {
                Some(told) => told,
                None => "unknown"@,
            };
            &&& message == "WeChat getUpdates API error ret="@ + text::signed_decimal(ret)
                + " errcode="@ + text::signed_decimal(errcode) + " errmsg="@ + errmsg
            &&& save is None
            &&& step.adapter == adapter
            &&& step.state is Ended
        },
{
    if poll::reported_error(document) is None {
        let after = poll::after_updates(adapter, document);
        let messages = document.items_at("msgs"@);
        laws::lemma_delivery(after, messages, 0, poll::next_cursor(document), step);
        laws::law_next_is_the_first(after, messages, 0);
    }
}

/// An answer without an error moves the adapter to the whole position that it gives, and has that
/// saved; where it gives none or an empty one, the adapter stays where it was and nothing is saved.
pub proof fn law_answers_move_the_position(
    adapter: AdapterView,
    document: JsonView,
    step: StepView,
)
    requires
        cycle::is_answer_step(adapter, document, step),
        !is_nonzero_at(document, "ret"@),
        !is_nonzero_at(document, "errcode"@),
    ensures
        ({
            let given = match document.text_at("get_updates_buf"@) {
                Some(cursor) if cursor.len() > 0 => Some(cursor),
                _ => None,
            };
            &&& step.adapter.cursor == match given {
                Some(cursor) => cursor,
                None => adapter.cursor,
            }
            &&& match step.command {
                PollCommandView::Deliver { save, .. } => save == given,
                PollCommandView::Done { save, error } => save == given && error is None,
                _ => false,
            }
        }),
{
    let after = poll::after_updates(adapter, document);
    let messages = document.items_at("msgs"@);
    laws::lemma_delivery(after, messages, 0, poll::next_cursor(document), step);
    laws::law_next_is_the_first(after, messages, 0);
}

/// What becomes of the reply to the request for updates: a document is an answer, and any other
/// reply ends the poll with its own message and changes nothing.
pub proof fn law_what_becomes_of_a_reply(
    adapter: AdapterView,
    reply: ReplyView,
    version: Seq<char>,
    step: StepView,
)
    requires
        cycle::is_poll_step(
            adapter,
            PollStateView::Requested,
            PollInputView::Reply(reply),
            version,
            step,
        ),
    ensures
        ({
            let message = match reply {
                ReplyView::TimedOut(message) => message,
                ReplyView::Failed(message) => message,
                ReplyView::Refused { status, text } => http::refusal(
                    "WeChat getUpdates failed"@,
                    status,
                    text,
                ),
                ReplyView::Body(bytes) => "error decoding response body"@,
            };
            if reply is Body && outside::json_document(reply->Body_0) is Some {
                cycle::is_answer_step(
                    adapter,
                    outside::json_document(reply->Body_0).unwrap(),
                    step,
                )
            } else {
                &&& step.adapter == adapter
                &&& step.state is Ended
                &&& step.command == (PollCommandView::Done { save: None, error: Some(message) })
            }
        }),
{
}

/// Where a message has been handed on, it is counted, and the moment noted; where there is no one
/// to hand it to, the poll ends and nothing changes; and whatever else happens out of turn changes
/// nothing.
pub proof fn law_what_becomes_of_a_delivery(
    adapter: AdapterView,
    messages: Seq<JsonView>,
    seen: int,
    input: PollInputView,
    version: Seq<char>,
    step: StepView,
)
    requires
        0 <= seen <= messages.len(),
        cycle::is_poll_step(
            adapter,
            PollStateView::Delivering { messages, seen },
            input,
            version,
            step,
        ),
    ensures
        match input {
            PollInputView::HandedOn(true) => {
                &&& step.adapter.runtime == (StatusView {
                    messages_received: adapter.runtime.messages_received + 1,
                    last_message_at: step.adapter.runtime.last_message_at,
                    ..adapter.runtime
                })
                &&& step.adapter.runtime.last_message_at is Some
                &&& step.adapter.cursor == adapter.cursor
            },
            PollInputView::HandedOn(false) => {
                &&& step.adapter == adapter
                &&& step.state is Ended
                &&& step.command == (PollCommandView::Done { save: None, error: None })
            },
            _ => {
                &&& step.adapter == adapter
                &&& step.state == (PollStateView::Delivering { messages, seen })
                &&& step.command is Nothing
            },
        },
{
    if input == PollInputView::HandedOn(true) {
        let now = choose|now: Timestamp|
            now.wf() && cycle::is_delivery(
                #[trigger] adapter.after_delivery(now),
                messages,
                seen,
                None,
                step,
            );
        laws::lemma_delivery(adapter.after_delivery(now), messages, seen, None, step);
    }
}

/// A poll begins with the request for updates where the adapter has a token, and with the request
/// for a QR code where it has none.
pub proof fn law_how_polls_begin(adapter: AdapterView, version: Seq<char>, step: StepView)
    requires
        cycle::is_poll_step(
            adapter,
            PollStateView::Start,
            PollInputView::Begin,
            version,
            step,
        ),
    ensures
        step.adapter == adapter,
        adapter.bot_token is Some ==> {
            &&& step.state is Requested
            &&& step.command == (PollCommandView::Post {
                granted: None,
                request: poll::updates_request(adapter, version),
            })
        },
        adapter.bot_token is None ==> {
            &&& step.state == PollStateView::LoggingIn(LoginStateView::CodeRequested)
            &&& step.command matches PollCommandView::Login(LoginActionView::Get(request))
            &&& request.url == adapter.api_url("get_bot_qrcode"@) + "?bot_type=3"@
            &&& request.query.len() == 0
            &&& request.timeout_secs == 15
        },
{
}

/// A login within a poll goes on as it would by itself. Where it fails, the poll ends with its
/// message and nothing changes. Where it is granted, the adapter has the whole token and account,
/// both are saved together with the user, the first start is kept, no error stays noted, and the
/// poll asks for updates.
pub proof fn law_what_becomes_of_a_login(
    adapter: AdapterView,
    progress: LoginStateView,
    event: LoginEventView,
    version: Seq<char>,
    step: StepView,
)
    requires
        cycle::is_poll_step(
            adapter,
            PollStateView::LoggingIn(progress),
            PollInputView::Login(event),
            version,
            step,
        ),
    ensures
        match login::login_step(adapter, progress, event).1 {
            LoginActionView::Finished { login: granted, notice } => {
                &&& step.state is Requested
                &&& step.command matches PollCommandView::Post {
                    granted: Some((told, account)),
                    request,
                }
                &&& told == notice
                &&& account.token == Some(granted.bot_token)
                &&& account.account_id == Some(granted.account_id)
                &&& account.user_id == granted.user_id
                &&& request == poll::updates_request(step.adapter, version)
                &&& step.adapter.bot_token == Some(granted.bot_token)
                &&& step.adapter.account_id == Some(granted.account_id)
                &&& step.adapter.runtime == (StatusView {
                    connected: true,
                    started_at: step.adapter.runtime.started_at,
                    last_error: None,
                    ..adapter.runtime
                })
                &&& step.adapter.runtime.started_at is Some
                &&& adapter.runtime.started_at is Some ==> step.adapter.runtime.started_at
                    == adapter.runtime.started_at
                &&& step.adapter == (AdapterView {
                    bot_token: step.adapter.bot_token,
                    account_id: step.adapter.account_id,
                    runtime: step.adapter.runtime,
                    ..adapter
                })
            },
            LoginActionView::Failed(message) => {
                &&& step.adapter == adapter
                &&& step.state is Ended
                &&& step.command == (PollCommandView::Done { save: None, error: Some(message) })
            },
            action => {
                &&& step.adapter == adapter
                &&& step.state == PollStateView::LoggingIn(
                    login::login_step(adapter, progress, event).0,
                )
                &&& step.command == PollCommandView::Login(action)
            },
        },
{
}

/// After a poll that failed the token is gone exactly where `-14` stands in the message, and is
/// otherwise the same as before; the message is noted, whole, and nothing else changes.
pub proof fn law_which_failures_end_the_login(adapter: AdapterView, pause: int, message: Seq<char>)
    ensures
        ({
            let after = poll::poll_step(adapter, pause, PollEventView::Polled(Some(message))).0;
            &&& after.bot_token == if text::occurs(message, "-14"@) {
                None
            } else {
                adapter.bot_token
            }
            &&& after == (AdapterView {
                bot_token: after.bot_token,
                runtime: StatusView { last_error: Some(message), ..adapter.runtime },
                ..adapter
            })
        }),
{
    reveal_strlit("-14");
    reveal_with_fuel(text::decimal, 3);
    assert(text::signed_decimal(-14) =~= "-14"@);
}

/// After a poll that succeeded the next begins at once; a signal ends the loop where it says so,
/// and else it goes on at once at the same pace; none of these changes the adapter.
pub proof fn law_what_leaves_the_adapter_alone(adapter: AdapterView, pause: int)
    ensures
        ({
            let (after, next, action) = poll::poll_step(
                adapter,
                pause,
                PollEventView::Polled(None),
            );
            after == adapter && next == 2 && action == PollAction::Poll
        }),
        poll::poll_step(adapter, pause, PollEventView::Shutdown(true)) == (
            adapter,
            pause,
            PollAction::Stop,
        ),
        poll::poll_step(adapter, pause, PollEventView::Shutdown(false)) == (
            adapter,
            pause,
            PollAction::Poll,
        ),
{
}

/// A login begins with the request for a QR code.
pub proof fn law_how_logins_begin(adapter: AdapterView)
    ensures
        ({
            let step = login::login_step(adapter, LoginStateView::Start, LoginEventView::Begin);
            &&& step.0 is CodeRequested
            &&& step.1 matches LoginActionView::Get(request)
            &&& request.url == adapter.api_url("get_bot_qrcode"@) + "?bot_type=3"@
            &&& request.query.len() == 0
            &&& request.timeout_secs == 15
        }),
{
}

/// The answer to the request for a QR code is shown with its whole address, and with its picture
/// where there is one, or with the whole code where it has no address; the login then waits for
/// that code. Without a code, or without an answer, the login fails with the reason.
pub proof fn law_what_becomes_of_a_code(adapter: AdapterView, reply: ReplyView)
    ensures
        ({
            let step = login::login_step(
                adapter,
                LoginStateView::CodeRequested,
                LoginEventView::Reply(reply),
            );
            match http::payload(reply, "WeChat QR code fetch failed"@) {
                Err(message) => step == (
                    LoginStateView::Ended,
                    LoginActionView::Failed(message),
                ),
                Ok(document) => match document.text_at("qrcode"@) {
                    None => step == (
                        LoginStateView::Ended,
                        LoginActionView::Failed("WeChat QR response missing qrcode"@),
                    ),
                    Some(qrcode) => {
                        let address = document.text_at("qrcode_img_content"@);
                        &&& step.0 == (LoginStateView::Waiting { qrcode })
                        &&& step.1 matches LoginActionView::Show(lines)
                        &&& lines.len() >= 2
                        &&& lines[0] == "\nWeChat QR login required."@
                        &&& if address is Some && address.unwrap().len() > 0 {
                            let drawn = if outside::is_drawable(address.unwrap()) {
                                outside::qr_picture(address.unwrap())
                            } else {
                                None
                            };
                            &&& lines[1] == "Scan URL: "@ + address.unwrap()
                            &&& lines.len() == if drawn is Some {
                                3int
                            } else {
                                2
                            }
                            &&& drawn matches Some(picture) ==> lines[2] == "\n"@ + picture
                                + "\n"@
                        } else {
                            &&& lines[1] == "Scan payload: "@ + qrcode
                            &&& lines.len() == 2
                        }
                    },
                },
            }
        }),
{
}

/// A login that waits asks for the status of its code, whole, until eight minutes are over.
pub proof fn law_how_the_status_is_asked_for(
    adapter: AdapterView,
    qrcode: Seq<char>,
    elapsed: int,
)
    ensures
        ({
            let step = login::login_step(
                adapter,
                LoginStateView::Waiting { qrcode },
                LoginEventView::Elapsed(elapsed),
            );
            if elapsed < 8 * 60 {
                &&& step.0 == (LoginStateView::StatusRequested { qrcode })
                &&& step.1 matches LoginActionView::Get(request)
                &&& request.url == adapter.api_url("get_qrcode_status"@)
                &&& request.query.len() == 1
                &&& request.query[0] == ("qrcode"@, qrcode)
                &&& request.timeout_secs == 45
            } else {
                step == (
                    LoginStateView::Ended,
                    LoginActionView::Failed("Timed out waiting for WeChat QR confirmation"@),
                )
            }
        }),
{
}

/// What becomes of a status. Confirmed, the login is granted with the values that came along, or
/// fails where the token or the account is missing; expired, it fails; scanned, it says so and
/// waits on; and with any other status, or none, it waits on. It waits on, too, where the request
/// timed out, and fails with the reason where there was no answer otherwise.
pub proof fn law_what_becomes_of_a_status(
    adapter: AdapterView,
    qrcode: Seq<char>,
    reply: ReplyView,
)
    ensures
        ({
            let step = login::login_step(
                adapter,
                LoginStateView::StatusRequested { qrcode },
                LoginEventView::Reply(reply),
            );
            let waiting = LoginStateView::Waiting { qrcode };
            let ended = LoginStateView::Ended;
            match http::payload(reply, "WeChat QR status failed"@) {
                Err(message) => if reply is TimedOut {
                    step == (waiting, LoginActionView::CheckClock)
                } else {
                    step == (ended, LoginActionView::Failed(message))
                },
                Ok(document) => {
                    let status = document.text_at("status"@);
                    let token = document.text_at("bot_token"@);
                    let account = document.text_at("ilink_bot_id"@);
                    if status == Some("confirmed"@) {
                        if token is None {
                            step == (
                                ended,
                                LoginActionView::Failed("WeChat login missing bot_token"@),
                            )
                        } else if account is None {
                            step == (
                                ended,
                                LoginActionView::Failed("WeChat login missing ilink_bot_id"@),
                            )
                        } else {
                            &&& step.0 == ended
                            &&& step.1 matches LoginActionView::Finished { login: granted, notice }
                            &&& Some(granted.bot_token) == token
                            &&& Some(granted.account_id) == account
                            &&& granted.user_id == document.text_at("ilink_user_id"@)
                            &&& notice == "WeChat connected."@
                        }
                    } else if status == Some("expired"@) {
                        step == (
                            ended,
                            LoginActionView::Failed("WeChat QR code expired before confirmation"@),
                        )
                    } else {
                        &&& step.0 == waiting
                        &&& step.1 matches LoginActionView::Pause { notice, secs }
                        &&& secs == 1
                        &&& notice == if status == Some("scaned"@) {
                            Some("WeChat QR 已扫码，等待手机确认..."@)
                        } else {
                            None
                        }
                    }
                },
            }
        }),
{
    reveal_strlit("wait");
    reveal_strlit("confirmed");
    reveal_strlit("expired");
    reveal_strlit("scaned");
    assert("wait"@.len() == 4 && "confirmed"@.len() == 9 && "expired"@.len() == 7);
    assert("scaned"@.len() == 6);
}

/// What happens out of turn changes nothing: neither in a login, nor in a poll.
pub proof fn law_what_happens_out_of_turn(
    adapter: AdapterView,
    progress: LoginStateView,
    event: LoginEventView,
    state: PollStateView,
    input: PollInputView,
    version: Seq<char>,
    step: StepView,
)
    requires
        cycle::is_poll_step(adapter, state, input, version, step),
    ensures
        match (progress, event) {
            (LoginStateView::Start, LoginEventView::Begin) => true,
            (LoginStateView::CodeRequested, LoginEventView::Reply(_)) => true,
            (LoginStateView::Waiting { .. }, LoginEventView::Elapsed(_)) => true,
            (LoginStateView::StatusRequested { .. }, LoginEventView::Reply(_)) => true,
            _ => login::login_step(adapter, progress, event) == (
                progress,
                LoginActionView::Nothing,
            ),
        },
        match (state, input) {
            (PollStateView::Start, PollInputView::Begin) => true,
            (PollStateView::LoggingIn(_), PollInputView::Login(_)) => true,
            (PollStateView::Requested, PollInputView::Reply(_)) => true,
            (PollStateView::Delivering { .. }, PollInputView::HandedOn(_)) => true,
            _ => {
                &&& step.adapter == adapter
                &&& step.state == state
                &&& step.command is Nothing
            },
        },
{
}

/// The state that a login has come to after the events, one after the other.
pub open spec fn login_after(
    adapter: AdapterView,
    progress: LoginStateView,
    events: Seq<LoginEventView>,
) -> LoginStateView
    decreases events.len(),
{
    if events.len() == 0 {
        progress
    } else {
        let before = login_after(adapter, progress, events.drop_last());
        login::login_step(adapter, before, events.last()).0
    }
}

/// Whatever happens after a QR code has come, every request that the login makes asks for the
/// status of that code, whole, and of no other.
pub proof fn law_logins_ask_for_the_code_that_was_shown(
    adapter: AdapterView,
    bytes: Seq<u8>,
    document: JsonView,
    qrcode: Seq<char>,
    events: Seq<LoginEventView>,
    next: LoginEventView,
)
    requires
        outside::json_document(bytes) == Some(document),
        document.text_at("qrcode"@) == Some(qrcode),
    ensures
        ({
            let shown = login::login_step(
                adapter,
                LoginStateView::CodeRequested,
                LoginEventView::Reply(ReplyView::Body(bytes)),
            );
            let progress = login_after(adapter, shown.0, events);
            &&& shown.1 is Show
            &&& progress is Ended || laws::awaited_code(progress) == Some(qrcode)
            &&& login::login_step(adapter, progress, next).1 matches LoginActionView::Get(request)
                ==> {
                &&& request.url == adapter.api_url("get_qrcode_status"@)
                &&& request.query.len() == 1
                &&& request.query[0] == ("qrcode"@, qrcode)
            }
        }),
    decreases events.len(),
{
    if events.len() > 0 {
        let before = events.drop_last();
        law_logins_ask_for_the_code_that_was_shown(
            adapter,
            bytes,
            document,
            qrcode,
            before,
            events.last(),
        );
        let shown = login::login_step(
            adapter,
            LoginStateView::CodeRequested,
            LoginEventView::Reply(ReplyView::Body(bytes)),
        );
        laws::law_logins_end_once(adapter, login_after(adapter, shown.0, before), events.last());
    }
}

/// A new adapter has what it was given, whole, the addresses of the service where it was given
/// none, and nothing else.
pub proof fn law_what_a_new_adapter_has(
    bot_token_env: Seq<char>,
    account_id_env: Seq<char>,
    user_id_env: Seq<char>,
    allowed_users: Seq<Seq<char>>,
    api_base_url: Option<Seq<char>>,
    cdn_base_url: Option<Seq<char>>,
    state_dir: Option<Seq<char>>,
)
    ensures
        ({
            let fresh = adapter::configured(
                bot_token_env,
                account_id_env,
                user_id_env,
                allowed_users,
                api_base_url,
                cdn_base_url,
                state_dir,
            );
            &&& fresh.bot_token_env == bot_token_env
            &&& fresh.account_id_env == account_id_env
            &&& fresh.user_id_env == user_id_env
            &&& fresh.allowed_users == allowed_users
            &&& fresh.state_dir == state_dir
            &&& fresh.api_base_url == if api_base_url is Some {
                api_base_url.unwrap()
            } else {
                "https://ilinkai.weixin.qq.com"@
            }
            &&& fresh.cdn_base_url == if cdn_base_url is Some {
                cdn_base_url.unwrap()
            } else {
                "https://novac2c.cdn.weixin.qq.com/c2c"@
            }
            &&& fresh.bot_token is None && fresh.account_id is None
            &&& fresh.cursor.len() == 0
            &&& fresh.context_tokens == Map::<Seq<char>, Seq<char>>::empty()
            &&& !fresh.stopping
            &&& fresh.runtime == (StatusView {
                connected: false,
                started_at: None,
                last_message_at: None,
                messages_received: 0,
                messages_sent: 0,
                last_error: None,
            })
        }),
{
}

/// What the environment holds comes first, without the white space at its ends, unless it is blank;
/// then what the adapter has; then what was saved, whole, of which an empty token does not count.
/// The position is the saved one, whole, where one was saved. Nothing else changes.
pub proof fn law_what_is_taken_over(
    adapter: AdapterView,
    env_token: Option<Seq<char>>,
    env_account_id: Option<Seq<char>>,
    account: Option<AccountView>,
    cursor: Option<Seq<char>>,
)
    ensures
        ({
            let loaded = adapter.loaded(env_token, env_account_id, account, cursor);
            &&& loaded.bot_token == if env_token is Some && !is_blank(env_token.unwrap()) {
                Some(text::trimmed(env_token.unwrap()))
            } else if adapter.bot_token is Some {
                adapter.bot_token
            } else if account is Some && account.unwrap().token is Some
                && account.unwrap().token.unwrap().len() > 0 {
                account.unwrap().token
            } else {
                None
            }
            &&& loaded.account_id == if env_account_id is Some && !is_blank(
                env_account_id.unwrap(),
            ) {
                Some(text::trimmed(env_account_id.unwrap()))
            } else if adapter.account_id is Some {
                adapter.account_id
            } else if account is Some {
                account.unwrap().account_id
            } else {
                None
            }
            &&& loaded.cursor == if cursor is Some {
                cursor.unwrap()
            } else {
                adapter.cursor
            }
            &&& loaded == (AdapterView {
                bot_token: loaded.bot_token,
                account_id: loaded.account_id,
                cursor: loaded.cursor,
                ..adapter
            })
        }),
{
    if env_token is Some {
        law_trimming_takes_off_white_space_only(env_token.unwrap());
    }
    if env_account_id is Some {
        law_trimming_takes_off_white_space_only(env_account_id.unwrap());
    }
}

/// What a login, a start, a stop, a delivery and a send change, and that they change nothing else.
pub proof fn law_what_each_event_changes(
    adapter: AdapterView,
    granted: LoginView,
    now: Timestamp,
    saved_at: Timestamp,
)
    ensures
        ({
            let first = if adapter.runtime.started_at is Some {
                adapter.runtime.started_at
            } else {
                Some(now)
            };
            &&& adapter.logged_in(granted, now) == (AdapterView {
                bot_token: Some(granted.bot_token),
                account_id: Some(granted.account_id),
                runtime: StatusView {
                    connected: true,
                    started_at: first,
                    last_error: None,
                    ..adapter.runtime
                },
                ..adapter
            })
            &&& adapter.after_start(now) == (AdapterView {
                runtime: StatusView {
                    connected: adapter.bot_token is Some,
                    started_at: first,
                    last_error: None,
                    ..adapter.runtime
                },
                ..adapter
            })
        }),
        adapter.after_stop() == (AdapterView {
            runtime: StatusView { connected: false, ..adapter.runtime },
            stopping: true,
            ..adapter
        }),
        adapter.after_delivery(now) == (AdapterView {
            runtime: StatusView {
                messages_received: adapter.runtime.messages_received + 1,
                last_message_at: Some(now),
                ..adapter.runtime
            },
            ..adapter
        }),
        adapter.after_sending() == (AdapterView {
            runtime: StatusView {
                messages_sent: adapter.runtime.messages_sent + 1,
                ..adapter.runtime
            },
            ..adapter
        }),
        adapter::account_of(granted, saved_at) == (AccountView {
            token: Some(granted.bot_token),
            account_id: Some(granted.account_id),
            user_id: granted.user_id,
            saved_at: Some(outside::rfc3339(saved_at.secs as int, saved_at.nanos as int)),
        }),
{
}

/// The context token that is noted of a user is the one that is found of that user, whole, and what
/// is found of others does not change; of a user of whom none was noted, none is found.
pub proof fn law_context_tokens_are_found_again(
    adapter: AdapterView,
    user: Seq<char>,
    token: Seq<char>,
    other: Seq<char>,
)
    requires
        other != user,
    ensures
        ({
            let after = AdapterView {
                context_tokens: adapter.context_tokens.insert(user, token),
                ..adapter
            };
            &&& after.context_token(user) == Some(token)
            &&& after.context_token(other) == adapter.context_token(other)
        }),
        !adapter.context_tokens.contains_key(user) ==> adapter.context_token(user) is None,
{
}

/// State is kept in the directory that was given, or else in `.openfang/wechat` below the home
/// directory, or below the current one where there is no home.
pub proof fn law_where_state_is_kept(adapter: AdapterView, home_is_set: bool)
    ensures
        adapter.state_dir matches Some(dir) ==> adapter.state_path(home_is_set)
            =~= seq![PartView::Name(dir)],
        adapter.state_dir is None ==> {
            let path = adapter.state_path(home_is_set);
            &&& path == state::default_dir(home_is_set)
            &&& path.len() == 3
            &&& path[0] == if home_is_set {
                PartView::Home
            } else {
                PartView::Name("."@)
            }
            &&& path[1] == PartView::Name(".openfang"@)
            &&& path[2] == PartView::Name("wechat"@)
        },
{
}

/// Whose messages in an answer are ignored: of one message more, the sender is named exactly where
/// there is one and they are not allowed.
pub proof fn law_who_is_ignored(adapter: AdapterView, messages: Seq<JsonView>, message: JsonView)
    ensures
        ({
            let before = inbound::ignored_senders(adapter, messages);
            let after = inbound::ignored_senders(adapter, messages.push(message));
            match message.text_at("from_user_id"@) {
                Some(from) if from.len() > 0 && !comes_from_someone_allowed(
                    adapter,
                    message,
                    from,
                ) => after == before.push(from),
                _ => after == before,
            }
        }),
        inbound::ignored_senders(adapter, Seq::empty()).len() == 0,
{
    assert(messages.push(message).drop_last() =~= messages);
}

/// A status that a login does not know is told whole.
pub proof fn law_which_statuses_are_unknown(document: JsonView)
    ensures
        login::unknown_status(document) == match document.text_at("status"@) {
            Some(status) if status != "wait"@ && status != "scaned"@ && status != "expired"@
                && status != "confirmed"@ => Some(status),
            _ => None,
        },
{
}

/// A poll that gets a document as its answer ends with an error exactly where the number under
/// `ret` is there and not zero, or the number under `errcode` is.
pub proof fn law_polls_fail_by_the_codes_of_their_answer(
    adapter: AdapterView,
    bytes: Seq<u8>,
    document: JsonView,
    version: Seq<char>,
    step: StepView,
)
    requires
        outside::json_document(bytes) == Some(document),
        cycle::is_poll_step(
            adapter,
            PollStateView::Requested,
            PollInputView::Reply(ReplyView::Body(bytes)),
            version,
            step,
        ),
    ensures
        (step.command matches PollCommandView::Done { error: Some(_), .. }) <==> (
        document.signed_at("ret"@) is Some && document.signed_at("ret"@) != Some(0int)) || (
        document.signed_at("errcode"@) is Some && document.signed_at("errcode"@) != Some(0int)),
{
    law_what_becomes_of_a_reply(adapter, ReplyView::Body(bytes), version, step);
    law_answers_fail_by_their_codes(adapter, document, step);
}

/// Whatever its length, a text is sent whole: the document that goes to the bot API for it has one
/// item, a text item with exactly that text.
pub proof fn law_texts_are_sent_whole(
    said: Seq<char>,
    user_id: Seq<char>,
    client_id: Seq<char>,
    token: Seq<char>,
    version: Seq<char>,
)
    ensures
        ({
            let sent = channel::plain_text(ContentView::Text(said));
            let document = outbound::send_document(user_id, sent, client_id, token, version);
            &&& document.member("msg"@) matches Some(msg)
            &&& msg.text_at("to_user_id"@) == Some(user_id)
            &&& msg.items_at("item_list"@).len() == 1
            &&& is_text_saying(msg.items_at("item_list"@)[0], said)
        }),
{
    law_contents_go_out_whole(ContentView::Text(said));
    law_what_a_send_document_says(user_id, said, client_id, token, version, "msg"@);
}

/// Which moments are covered, and how many whole milliseconds lie between one and the epoch.
pub proof fn law_which_moments_are_covered(t: Timestamp)
    ensures
        t.wf() <==> -8_334_601_228_800 <= t.secs <= 8_210_266_876_799 && t.nanos < 1_000_000_000,
        t.wf() ==> t.millis() * 1_000_000 <= t.secs * 1_000_000_000 + t.nanos < (t.millis() + 1)
            * 1_000_000,
{
}

/// At any pace between two and thirty seconds, the pause after a failure is that pace, and the next
/// is twice as long, but no longer than thirty seconds.
pub proof fn law_how_the_pace_slows(adapter: AdapterView, pause: int, message: Seq<char>)
    requires
        2 <= pause <= 30,
    ensures
        ({
            let (_, next, action) = poll::poll_step(
                adapter,
                pause,
                PollEventView::Polled(Some(message)),
            );
            &&& action == PollAction::PollAfter(pause as u64)
            &&& next == if 2 * pause < 30 {
                2 * pause
            } else {
                30
            }
        }),
        (poll::Backoff { secs: pause as u64 }).wf(),
{
}

/// A text is drawn as far as it has no more than 128 bytes.
pub proof fn law_which_texts_are_drawn(data: Seq<char>)
    ensures
        login::terminal_picture(data) == if encode_utf8(data).len() <= 128 {
            outside::qr_picture(data)
        } else {
            None
        },
{
}

/// Without a login nothing is sent, and the reason is told.
pub proof fn law_what_is_told_without_a_login()
    ensures
        outbound::not_logged_in() == "WeChat is not logged in"@,
{
}

} // verus!
