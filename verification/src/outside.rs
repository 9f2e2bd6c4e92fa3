//! The calls into other crates.
//!
//! Every function here hands its arguments to one function of another crate and gives back what
//! came out. The contracts say what those functions promise and are taken on trust; where a result
//! is too long to describe it has a name, and the contract says that equal arguments give the
//! result of that name.

use crate::json::JsonView;
use crate::text;
use crate::time::Timestamp;
use vstd::prelude::*;
use vstd::utf8::encode_utf8;

verus! {

/// `serde_json`'s own representation of a JSON document.
#[verifier::external_type_specification]
#[verifier::external_body]
pub struct ExValue(serde_json::Value);

/// The document that a `serde_json::Value` holds. A number is held with its value where it is one
/// of `serde_json`'s integers and without it where it is a float; an object is a map, so the order
/// of its members does not count.
pub uninterp spec fn value_tree(value: serde_json::Value) -> JsonView;

/// The outermost layer of a `serde_json::Value`: its variant, with the parts still closed.
pub enum ValueNode {
    Null,
    Bool(bool),
    Number(Option<i128>),
    Text(String),
    Array(Vec<serde_json::Value>),
    Object(Vec<(String, serde_json::Value)>),
}

/// The documents that the items hold.
pub open spec fn items_tree(items: Seq<serde_json::Value>) -> Seq<JsonView> {
    items.map_values(|item: serde_json::Value| value_tree(item))
}

/// The documents that the members hold, under their names.
pub open spec fn members_tree(members: Seq<(String, serde_json::Value)>) -> Map<
    Seq<char>,
    JsonView,
>
    decreases members.len(),
{
    if members.len() == 0 {
        Map::empty()
    } else {
        members_tree(members.drop_last()).insert(members.last().0@, value_tree(members.last().1))
    }
}

/// No two members have the same name.
pub open spec fn distinct_names(members: Seq<(String, serde_json::Value)>) -> bool {
    forall|i: int, j: int|
        0 <= i < j < members.len() ==> (#[trigger] members[i]).0@ != (#[trigger] members[j]).0@
}

/// The document that an opened value holds.
pub open spec fn node_tree(node: ValueNode) -> JsonView {
    match node {
        ValueNode::Null => JsonView::Null,
        ValueNode::Bool(b) => JsonView::Bool(b),
        ValueNode::Number(None) => JsonView::Number(None),
        ValueNode::Number(Some(n)) => JsonView::Number(Some(n as int)),
        ValueNode::Text(s) => JsonView::Text(s@),
        ValueNode::Array(items) => JsonView::Array(items_tree(items@)),
        ValueNode::Object(members) => JsonView::Object(members_tree(members@)),
    }
}

/// Takes the outermost layer off a `serde_json::Value`.
///
/// Trusted: the variants of `serde_json::Value` are these six; `serde_json::Number::as_i128` gives
/// the value of every integer that `serde_json` holds and nothing for a float; a
/// `serde_json::Map` has each name once.
#[verifier::external_body]
pub(crate) fn open_value(value: serde_json::Value) -> (node: ValueNode)
    ensures
        node_tree(node) == value_tree(value),
        node matches ValueNode::Object(members) ==> distinct_names(members@),
{
    match value {
        serde_json::Value::Null => ValueNode::Null,
        serde_json::Value::Bool(b) => ValueNode::Bool(b),
        serde_json::Value::Number(n) => ValueNode::Number(n.as_i128()),
        serde_json::Value::String(s) => ValueNode::Text(s),
        serde_json::Value::Array(items) => ValueNode::Array(items),
        serde_json::Value::Object(members) => ValueNode::Object(members.into_iter().collect()),
    }
}

/// Puts a layer together again as a `serde_json::Value`.
///
/// Trusted: `serde_json::Number::from_i128` accepts every integer from `i64::MIN` to `u64::MAX`
/// and keeps its value; collecting members into a `serde_json::Map` keeps the last of each name.
#[verifier::external_body]
pub(crate) fn close_value(node: ValueNode) -> (value: serde_json::Value)
    requires
        node matches ValueNode::Number(n) ==> n is Some && i64::MIN <= n.unwrap() <= u64::MAX,
    ensures
        value_tree(value) == node_tree(node),
{
    match node {
        ValueNode::Null => serde_json::Value::Null,
        ValueNode::Bool(b) => serde_json::Value::Bool(b),
        ValueNode::Number(n) => serde_json::Number::from_i128(n.unwrap()).unwrap().into(),
        ValueNode::Text(s) => serde_json::Value::String(s),
        ValueNode::Array(items) => serde_json::Value::Array(items),
        ValueNode::Object(members) => serde_json::Value::Object(members.into_iter().collect()),
    }
}

/// The JSON document that the bytes spell, by `serde_json`'s reading of them; `None` where they
/// spell none.
pub uninterp spec fn json_document(bytes: Seq<u8>) -> Option<JsonView>;

/// Reads a JSON document.
///
/// Trusted: `serde_json::from_slice` gives, for equal bytes, an equal document or a failure each
/// time. Which bytes it accepts, and as what document, is left to its name.
#[verifier::external_body]
pub(crate) fn parse_value(bytes: &[u8]) -> (r: Option<serde_json::Value>)
    ensures
        match r {
            Some(value) => json_document(bytes@) == Some(value_tree(value)),
            None => json_document(bytes@) is None,
        },
{
    serde_json::from_slice(bytes).ok()
}

/// How deep arrays and objects may lie within one another for `serde_json` to read them.
pub const READABLE_LEVELS: u64 = 127;

/// The bytes that `serde_json` writes for a document without fractional numbers.
pub uninterp spec fn json_bytes(tree: JsonView) -> Seq<u8>;

/// Writes a JSON document out.
///
/// Trusted: `serde_json::to_vec` does not fail on a `serde_json::Value`, and writes the same bytes
/// for equal documents; members are written in the order of their names. `serde_json::from_slice`
/// reads those bytes as the same document, up to the depth at which it gives up. A document with a
/// fractional number is left out, since [`value_tree`] does not hold such a number's value.
#[verifier::external_body]
pub(crate) fn value_bytes(value: &serde_json::Value) -> (bytes: Vec<u8>)
    requires
        value_tree(*value).encodable(),
    ensures
        bytes@ == json_bytes(value_tree(*value)),
        value_tree(*value).nested_within(READABLE_LEVELS as nat) ==> json_document(bytes@) == Some(
            value_tree(*value),
        ),
{
    serde_json::to_vec(value).unwrap()
}

/// Reads the clock.
///
/// Trusted: `chrono::Utc::now` gives a moment within the range that `chrono` covers, without a
/// leap second. Which moment depends on the clock; on a machine whose clock stands before the Unix
/// epoch there is none, and `chrono` panics.
#[verifier::external_body]
pub(crate) fn utc_now() -> (now: Timestamp)
    ensures
        now.wf(),
{
    let now = chrono::Utc::now();
    Timestamp { secs: now.timestamp(), nanos: now.timestamp_subsec_nanos() }
}

/// The moment a number of milliseconds after the Unix epoch.
///
/// Trusted: `chrono::DateTime::<Utc>::from_timestamp_millis` gives the moment with exactly that
/// number of milliseconds, and nothing where it lies outside the range that `chrono` covers.
#[verifier::external_body]
pub(crate) fn datetime_from_millis(millis: i64) -> (r: Option<Timestamp>)
    ensures
        match r {
            Some(t) => crate::time::representable(millis as int) && t == crate::time::at_millis(
                millis as int,
            ),
            None => !crate::time::representable(millis as int),
        },
{
    let moment = chrono::DateTime::<chrono::Utc>::from_timestamp_millis(millis)?;
    Some(Timestamp { secs: moment.timestamp(), nanos: moment.timestamp_subsec_nanos() })
}

/// A moment in the notation of RFC 3339.
pub uninterp spec fn rfc3339(secs: int, nanos: int) -> Seq<char>;

/// Writes a moment down.
///
/// Trusted: `chrono::DateTime::<Utc>::to_rfc3339` gives the same text for equal moments. The moment
/// is handed over through `from_timestamp`, which accepts every moment in range.
#[verifier::external_body]
pub(crate) fn datetime_to_rfc3339(t: &Timestamp) -> (text: String)
    requires
        t.wf(),
    ensures
        text@ == rfc3339(t.secs as int, t.nanos as int),
{
    chrono::DateTime::<chrono::Utc>::from_timestamp(t.secs, t.nanos).unwrap().to_rfc3339()
}

/// A hexadecimal digit in lower case.
pub open spec fn is_lower_hex(c: char) -> bool {
    ('0' <= c && c <= '9') || ('a' <= c && c <= 'f')
}

/// The form of a random UUID: 36 characters, hyphens after 8, 12, 16 and 20 digits, lower-case
/// hexadecimal digits elsewhere, with the version 4 and the variant of RFC 9562.
pub open spec fn is_uuid_v4(s: Seq<char>) -> bool {
    &&& s.len() == 36
    &&& s[8] == '-' && s[13] == '-' && s[18] == '-' && s[23] == '-'
    &&& forall|i: int|
        0 <= i < 36 && i != 8 && i != 13 && i != 18 && i != 23 ==> is_lower_hex(#[trigger] s[i])
    &&& s[14] == '4'
    &&& s[19] == '8' || s[19] == '9' || s[19] == 'a' || s[19] == 'b'
}

/// Draws a fresh identifier.
///
/// Trusted: `uuid::Uuid::new_v4` sets the version and variant bits, and the `Display` of a `Uuid`
/// is its hyphenated form in lower case. The other digits are random; on a machine that has no
/// source of random numbers there are none, and `uuid` panics.
#[verifier::external_body]
pub(crate) fn new_uuid_v4() -> (id: String)
    ensures
        is_uuid_v4(id@),
{
    uuid::Uuid::new_v4().to_string()
}

/// The picture of a QR code that carries `data`, drawn with half-block characters and with its
/// quiet zone; `None` where `data` does not fit in a QR code.
pub uninterp spec fn qr_picture(data: Seq<char>) -> Option<Seq<char>>;

/// How many bytes are certain to be drawn.
///
/// `qrcode` rates each of the eight ways to mask a code by a sum of 16-bit numbers, which can run
/// over for large codes. It cannot for codes of up to 65 modules a side: the sum is at most 8190
/// for lines, 12288 for blocks, 41600 for what looks like a corner, and 100 for the balance. Such a
/// code has room for 2320 bits, and 128 bytes need no more: they are cut into at most 64 segments,
/// since neighbours of less than 4 bytes together are always joined, and each segment takes at most
/// 20 bits, and 8 for every byte.
pub const DRAWABLE_BYTES: usize = 128;

/// The text is certain to be drawn.
pub open spec fn is_drawable(data: Seq<char>) -> bool {
    encode_utf8(data).len() <= DRAWABLE_BYTES
}

/// Draws a QR code for the terminal.
///
/// Trusted: `qrcode::QrCode::new` on the UTF-8 bytes of `data`, rendered as
/// `qrcode::render::unicode::Dense1x2`, gives the same picture or failure for equal data. Longer
/// texts are left out, since `qrcode` panics on some of them in builds that watch for overflow.
#[verifier::external_body]
pub(crate) fn draw_qr(data: &str) -> (r: Option<String>)
    requires
        is_drawable(data@),
    ensures
        text::optional_text(r) == qr_picture(data@),
{
    let code = qrcode::QrCode::new(data.as_bytes()).ok()?;
    Some(
        code.render::<qrcode::render::unicode::Dense1x2>()
            .dark_color(qrcode::render::unicode::Dense1x2::Dark)
            .light_color(qrcode::render::unicode::Dense1x2::Light)
            .quiet_zone(true)
            .build(),
    )
}

/// The text may stand as the value of an HTTP header: no control characters but the tab.
pub open spec fn is_header_text(s: Seq<char>) -> bool {
    forall|i: int|
        0 <= i < s.len() ==> (#[trigger] s[i]) == '\t' || (s[i] >= ' ' && s[i] != '\u{7f}')
}

/// Tells whether a text may stand as the value of an HTTP header.
///
/// Trusted: `reqwest::header::HeaderValue::from_str` refuses exactly the texts with a byte below
/// 32 other than the tab, or with the byte 127.
#[verifier::external_body]
pub(crate) fn header_value_accepts(s: &str) -> (accepted: bool)
    ensures
        accepted == is_header_text(s@),
{
    reqwest::header::HeaderValue::from_str(s).is_ok()
}

/// The phrase that goes with an HTTP status code, by `reqwest`'s table.
pub uninterp spec fn status_phrase(code: int) -> Seq<char>;

/// An HTTP status code with its phrase.
///
/// Trusted: `reqwest::StatusCode::from_u16` accepts the codes from 100 to 999, and the `Display` of
/// a `reqwest::StatusCode` is its number, a space and the phrase for that number.
#[verifier::external_body]
pub(crate) fn status_line(code: u16) -> (line: String)
    requires
        100 <= code <= 999,
    ensures
        line@ == text::decimal(code as nat) + seq![' '] + status_phrase(code as int),
{
    reqwest::StatusCode::from_u16(code).unwrap().to_string()
}

} // verus!
