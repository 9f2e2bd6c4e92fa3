//! JSON documents as plain values.
//!
//! [`Json`] holds what a document says: numbers are kept where they are whole and fit in 64 bits,
//! and an object is the map from its member names to their values. Reading bytes into a document
//! and writing one out as bytes is `serde_json`'s work; everything else is done here.

use crate::outside;
use crate::outside::ValueNode;
use vstd::prelude::*;

verus! {

/// A JSON value.
pub enum Json {
    Null,
    Bool(bool),
    /// A number: its value where that is a whole number, `None` for any other number.
    Number(Option<i128>),
    Text(String),
    Array(Vec<Json>),
    /// An object, as the list of its members. Where a name occurs twice, the last one counts.
    Object(Vec<(String, Json)>),
}

/// What a [`Json`] says.
#[verifier::ext_equal]
pub enum JsonView {
    Null,
    Bool(bool),
    Number(Option<int>),
    Text(Seq<char>),
    Array(Seq<JsonView>),
    Object(Map<Seq<char>, JsonView>),
}

/// What the items of an array say.
pub open spec fn items_view(items: Seq<Json>) -> Seq<JsonView>
    decreases items,
{
    if items.len() == 0 {
        Seq::empty()
    } else {
        items_view(items.drop_last()).push(items.last().view())
    }
}

/// What the members of an object say.
pub open spec fn members_view(members: Seq<(String, Json)>) -> Map<Seq<char>, JsonView>
    decreases members,
{
    if members.len() == 0 {
        Map::empty()
    } else {
        members_view(members.drop_last()).insert(members.last().0@, members.last().1.view())
    }
}

/// Every item can be written out.
pub open spec fn items_encodable(items: Seq<Json>) -> bool
    decreases items,
{
    items.len() == 0 || (items_encodable(items.drop_last()) && items.last().encodable())
}

/// Every member's value can be written out.
pub open spec fn members_encodable(members: Seq<(String, Json)>) -> bool
    decreases members,
{
    members.len() == 0 || (members_encodable(members.drop_last()) && members.last().1.encodable())
}

impl JsonView {
    /// The member of that name, where the value is an object that has one.
    pub open spec fn member(self, name: Seq<char>) -> Option<JsonView> {
        match self {
            JsonView::Object(members) if members.contains_key(name) => Some(members[name]),
            _ => None,
        }
    }

    /// The string, where the value is one.
    pub open spec fn text(self) -> Option<Seq<char>> {
        match self {
            JsonView::Text(s) => Some(s),
            _ => None,
        }
    }

    /// The whole number, where the value is one that fits in an `i64`.
    pub open spec fn signed(self) -> Option<int> {
        match self {
            JsonView::Number(Some(n)) if i64::MIN <= n <= i64::MAX => Some(n),
            _ => None,
        }
    }

    /// The whole number, where the value is one that fits in a `u64`.
    pub open spec fn unsigned(self) -> Option<int> {
        match self {
            JsonView::Number(Some(n)) if 0 <= n <= u64::MAX => Some(n),
            _ => None,
        }
    }

    /// The items, where the value is an array.
    pub open spec fn items(self) -> Option<Seq<JsonView>> {
        match self {
            JsonView::Array(items) => Some(items),
            _ => None,
        }
    }

    /// The string under that name, where there is one.
    pub open spec fn text_at(self, name: Seq<char>) -> Option<Seq<char>> {
        match self.member(name) {
            Some(value) => value.text(),
            None => None,
        }
    }

    /// The `i64` under that name, where there is one.
    pub open spec fn signed_at(self, name: Seq<char>) -> Option<int> {
        match self.member(name) {
            Some(value) => value.signed(),
            None => None,
        }
    }

    /// The `u64` under that name, where there is one.
    pub open spec fn unsigned_at(self, name: Seq<char>) -> Option<int> {
        match self.member(name) {
            Some(value) => value.unsigned(),
            None => None,
        }
    }

    /// The value can be written out: every number in it is whole and fits in 64 bits.
    pub open spec fn encodable(self) -> bool
        decreases self,
    {
        match self {
            JsonView::Number(Some(n)) => i64::MIN <= n <= u64::MAX,
            JsonView::Number(None) => false,
            JsonView::Array(items) => forall|i: int|
                0 <= i < items.len() ==> (#[trigger] items[i]).encodable(),
            JsonView::Object(members) => forall|name: Seq<char>|
                members.contains_key(name) ==> (#[trigger] members[name]).encodable(),
            _ => true,
        }
    }

    /// Arrays and objects lie within one another no more than `levels` deep.
    pub open spec fn nested_within(self, levels: nat) -> bool
        decreases levels,
    {
        match self {
            JsonView::Array(items) => levels > 0 && forall|i: int|
                0 <= i < items.len() ==> (#[trigger] items[i]).nested_within((levels - 1) as nat),
            JsonView::Object(members) => levels > 0 && forall|name: Seq<char>|
                members.contains_key(name) ==> (#[trigger] members[name]).nested_within(
                    (levels - 1) as nat,
                ),
            _ => true,
        }
    }

    /// The array items under that name; none where there is no array.
    pub open spec fn items_at(self, name: Seq<char>) -> Seq<JsonView> {
        match self.member(name) {
            Some(JsonView::Array(items)) => items,
            _ => Seq::empty(),
        }
    }
}

/// What an optional borrowed value says.
pub open spec fn optional_view(value: Option<&Json>) -> Option<JsonView> {
    match value {
        Some(value) => Some(value.view()),
        None => None,
    }
}

/// An array says what its items say, one by one.
pub proof fn lemma_items_view(items: Seq<Json>)
    ensures
        items_view(items).len() == items.len(),
        forall|i: int| 0 <= i < items.len() ==> items_view(items)[i] == (#[trigger] items[i])@,
    decreases items.len(),
{
    if items.len() > 0 {
        let rest = items.drop_last();
        lemma_items_view(rest);
        assert forall|i: int| 0 <= i < items.len() implies items_view(items)[i] == (
        #[trigger] items[i])@ by {
            if i < rest.len() {
                assert(rest[i] == items[i]);
            }
        }
    }
}

impl Json {
    /// What the value says.
    pub open spec fn view(&self) -> JsonView
        decreases self,
    {
        match self {
            Json::Null => JsonView::Null,
            Json::Bool(b) => JsonView::Bool(*b),
            Json::Number(None) => JsonView::Number(None),
            Json::Number(Some(n)) => JsonView::Number(Some(*n as int)),
            Json::Text(s) => JsonView::Text(s@),
            Json::Array(items) => JsonView::Array(items_view(items@)),
            Json::Object(members) => JsonView::Object(members_view(members@)),
        }
    }

    /// The value can be written out: every number in it is whole and fits in 64 bits.
    pub open spec fn encodable(&self) -> bool
        decreases self,
    {
        match self {
            Json::Number(Some(n)) => i64::MIN <= *n <= u64::MAX,
            Json::Number(None) => false,
            Json::Array(items) => items_encodable(items@),
            Json::Object(members) => members_encodable(members@),
            _ => true,
        }
    }

    /// Reads a JSON document. `None` for bytes that are no JSON document.
    pub fn decode(bytes: &[u8]) -> (r: Option<Json>)
        ensures
            match r {
                Some(json) => outside::json_document(bytes@) == Some(json@),
                None => outside::json_document(bytes@) is None,
            },
    {
        match outside::parse_value(bytes) {
            Some(value) => Some(Json::from_value(value)),
            None => None,
        }
    }

    /// Writes the document out. Reading gives it back, unless it is nested too deep to be read.
    pub fn encode(&self) -> (bytes: Vec<u8>)
        requires
            self.encodable(),
        ensures
            bytes@ == outside::json_bytes(self@),
            self@.nested_within(outside::READABLE_LEVELS as nat) ==> outside::json_document(bytes@)
                == Some(self@),
    {
        proof {
            lemma_encodable_view(*self);
        }
        let value = self.to_value();
        outside::value_bytes(&value)
    }

    fn from_value(value: serde_json::Value) -> (r: Json)
        ensures
            r@ == outside::value_tree(value),
        decreases outside::value_tree(value),
    {
        match outside::open_value(value) {
            ValueNode::Null => Json::Null,
            ValueNode::Bool(b) => Json::Bool(b),
            ValueNode::Number(n) => Json::Number(n),
            ValueNode::Text(s) => Json::Text(s),
            ValueNode::Array(items) => {
                let ghost whole = outside::value_tree(value);
                let ghost all = items@;
                let ghost trees = outside::items_tree(all);
                let mut read: Vec<Json> = Vec::new();
                for item in it: items
                    invariant
                        it.seq() == all,
                        trees == outside::items_tree(all),
                        whole == outside::value_tree(value),
                        whole == JsonView::Array(trees),
                        items_view(read@) == trees.take(it.index() as int),
                {
                    let ghost k = it.index() as int;
                    let ghost before = read@;
                    proof {
                        assert(trees[k] == outside::value_tree(item));
                        assert(decreases_to!(whole => whole->Array_0));
                        assert(decreases_to!(trees => trees[k]));
                    }
                    read.push(Json::from_value(item));
                    proof {
                        assert(read@.drop_last() == before);
                        assert(trees.take(k + 1) == trees.take(k).push(trees[k]));
                    }
                }
                assert(trees.take(all.len() as int) == trees);
                Json::Array(read)
            },
            ValueNode::Object(members) => {
                let ghost whole = outside::value_tree(value);
                let ghost all = members@;
                let ghost trees = outside::members_tree(all);
                let mut read: Vec<(String, Json)> = Vec::new();
                for member in it: members
                    invariant
                        it.seq() == all,
                        outside::distinct_names(all),
                        trees == outside::members_tree(all),
                        whole == outside::value_tree(value),
                        whole == JsonView::Object(trees),
                        members_view(read@) == outside::members_tree(all.take(it.index() as int)),
                {
                    let ghost k = it.index() as int;
                    let ghost before = read@;
                    let (name, inner) = member;
                    proof {
                        lemma_members_tree_at(all, k);
                        lemma_members_tree_finite(all);
                        assert(decreases_to!(whole => whole->Object_0));
                        assert(decreases_to!(trees => trees[name@]));
                    }
                    read.push((name, Json::from_value(inner)));
                    proof {
                        assert(read@.drop_last() == before);
                        assert(all.take(k + 1).drop_last() == all.take(k));
                    }
                }
                assert(all.take(all.len() as int) == all);
                Json::Object(read)
            },
        }
    }

    fn to_value(&self) -> (value: serde_json::Value)
        requires
            self.encodable(),
        ensures
            outside::value_tree(value) == self@,
        decreases self,
    {
        let node = match self {
            Json::Null => ValueNode::Null,
            Json::Bool(b) => ValueNode::Bool(*b),
            Json::Number(n) => ValueNode::Number(*n),
            Json::Text(s) => ValueNode::Text(s.clone()),
            Json::Array(items) => {
                let mut built: Vec<serde_json::Value> = Vec::new();
                let mut k: usize = 0;
                assert(items@.take(0) == Seq::<Json>::empty());
                while k < items.len()
                    invariant
                        k <= items@.len(),
                        *self == Json::Array(*items),
                        items_encodable(items@),
                        outside::items_tree(built@) == items_view(items@.take(k as int)),
                    decreases items@.len() - k,
                {
                    proof {
                        lemma_items_encodable_at(items@, k as int);
                        assert(decreases_to!(*self => self->Array_0));
                        assert(decreases_to!(*items => items@));
                        assert(decreases_to!(items@ => items@[k as int]));
                        assert(items@.take(k + 1).drop_last() == items@.take(k as int));
                    }
                    let ghost before = built@;
                    built.push(items[k].to_value());
                    assert(outside::items_tree(built@) == outside::items_tree(before).push(
                        items@[k as int]@,
                    ));
                    k += 1;
                }
                assert(items@.take(k as int) == items@);
                ValueNode::Array(built)
            },
            Json::Object(members) => {
                let mut built: Vec<(String, serde_json::Value)> = Vec::new();
                let mut k: usize = 0;
                assert(members@.take(0) == Seq::<(String, Json)>::empty());
                while k < members.len()
                    invariant
                        k <= members@.len(),
                        *self == Json::Object(*members),
                        members_encodable(members@),
                        outside::members_tree(built@) == members_view(members@.take(k as int)),
                    decreases members@.len() - k,
                {
                    proof {
                        lemma_members_encodable_at(members@, k as int);
                        assert(decreases_to!(*self => self->Object_0));
                        assert(decreases_to!(*members => members@));
                        assert(decreases_to!(members@ => members@[k as int]));
                        assert(decreases_to!(members@[k as int] => members@[k as int].1));
                        assert(members@.take(k + 1).drop_last() == members@.take(k as int));
                    }
                    let ghost before = built@;
                    built.push((members[k].0.clone(), members[k].1.to_value()));
                    assert(built@.drop_last() == before);
                    k += 1;
                }
                assert(members@.take(k as int) == members@);
                ValueNode::Object(built)
            },
        };
        outside::close_value(node)
    }

    /// The member of that name, where the value is an object that has one.
    pub fn get(&self, name: &str) -> (r: Option<&Json>)
        ensures
            optional_view(r) == self@.member(name@),
    {
        match self {
            Json::Object(members) => {
                let wanted = name.to_owned();
                let mut k: usize = members.len();
                assert(members@.take(k as int) == members@);
                while k > 0
                    invariant
                        k <= members@.len(),
                        wanted@ == name@,
                        *self == Json::Object(*members),
                        members_view(members@).contains_key(name@) == members_view(
                            members@.take(k as int),
                        ).contains_key(name@),
                        members_view(members@).contains_key(name@) ==> members_view(
                            members@,
                        )[name@] == members_view(members@.take(k as int))[name@],
                    decreases k,
                {
                    proof {
                        assert(members@.take(k as int).drop_last() == members@.take(k - 1));
                        assert(members@.take(k as int).last() == members@[k - 1]);
                    }
                    k -= 1;
                    if members[k].0 == wanted {
                        return Some(&members[k].1);
                    }
                }
                None
            },
            _ => None,
        }
    }

    /// The string, where the value is one.
    pub fn as_str(&self) -> (r: Option<&str>)
        ensures
            crate::text::optional_str(r) == self@.text(),
    {
        match self {
            Json::Text(s) => Some(s.as_str()),
            _ => None,
        }
    }

    /// The whole number, where the value is one that fits in an `i64`.
    pub fn as_i64(&self) -> (r: Option<i64>)
        ensures
            match r {
                Some(n) => self@.signed() == Some(n as int),
                None => self@.signed() is None,
            },
    {
        match self {
            Json::Number(Some(n)) if i64::MIN as i128 <= *n && *n <= i64::MAX as i128 => Some(
                *n as i64,
            ),
            _ => None,
        }
    }

    /// The whole number, where the value is one that fits in a `u64`.
    pub fn as_u64(&self) -> (r: Option<u64>)
        ensures
            match r {
                Some(n) => self@.unsigned() == Some(n as int),
                None => self@.unsigned() is None,
            },
    {
        match self {
            Json::Number(Some(n)) if 0 <= *n && *n <= u64::MAX as i128 => Some(*n as u64),
            _ => None,
        }
    }

    /// The items, where the value is an array.
    pub fn as_array(&self) -> (r: Option<&Vec<Json>>)
        ensures
            match r {
                Some(items) => self@.items() == Some(items_view(items@)),
                None => self@.items() is None,
            },
    {
        match self {
            Json::Array(items) => Some(items),
            _ => None,
        }
    }

    /// The string under that name, where there is one.
    pub fn str_at(&self, name: &str) -> (r: Option<&str>)
        ensures
            crate::text::optional_str(r) == self@.text_at(name@),
    {
        match self.get(name) {
            Some(value) => value.as_str(),
            None => None,
        }
    }

    /// The `i64` under that name, where there is one.
    pub fn i64_at(&self, name: &str) -> (r: Option<i64>)
        ensures
            match r {
                Some(n) => self@.signed_at(name@) == Some(n as int),
                None => self@.signed_at(name@) is None,
            },
    {
        match self.get(name) {
            Some(value) => value.as_i64(),
            None => None,
        }
    }

    /// The `u64` under that name, where there is one.
    pub fn u64_at(&self, name: &str) -> (r: Option<u64>)
        ensures
            match r {
                Some(n) => self@.unsigned_at(name@) == Some(n as int),
                None => self@.unsigned_at(name@) is None,
            },
    {
        match self.get(name) {
            Some(value) => value.as_u64(),
            None => None,
        }
    }
}

/// Adds a member to an object under construction.
pub fn push_member(members: &mut Vec<(String, Json)>, name: &str, value: Json)
    ensures
        members_view(final(members)@) == members_view(old(members)@).insert(name@, value@),
        members_encodable(final(members)@) == (members_encodable(old(members)@)
            && value.encodable()),
{
    members.push((name.to_owned(), value));
    assert(members@.drop_last() == old(members)@);
}

/// Adds an item to an array under construction.
pub fn push_item(items: &mut Vec<Json>, value: Json)
    ensures
        items_view(final(items)@) == items_view(old(items)@).push(value@),
        items_encodable(final(items)@) == (items_encodable(old(items)@) && value.encodable()),
{
    items.push(value);
    assert(items@.drop_last() == old(items)@);
}

proof fn lemma_items_encodable_at(items: Seq<Json>, i: int)
    requires
        items_encodable(items),
        0 <= i < items.len(),
    ensures
        items[i].encodable(),
    decreases items.len(),
{
    if i < items.len() - 1 {
        lemma_items_encodable_at(items.drop_last(), i);
    }
}

proof fn lemma_members_encodable_at(members: Seq<(String, Json)>, i: int)
    requires
        members_encodable(members),
        0 <= i < members.len(),
    ensures
        members[i].1.encodable(),
    decreases members.len(),
{
    if i < members.len() - 1 {
        lemma_members_encodable_at(members.drop_last(), i);
    }
}

proof fn lemma_encodable_view(json: Json)
    requires
        json.encodable(),
    ensures
        json@.encodable(),
    decreases json,
{
    match json {
        Json::Array(items) => {
            lemma_encodable_items(items@);
            let views = items_view(items@);
            assert(json@->Array_0 == views);
            assert(forall|i: int| 0 <= i < views.len() ==> (#[trigger] views[i]).encodable());
        },
        Json::Object(members) => {
            lemma_encodable_members(members@);
            let views = members_view(members@);
            assert forall|name: Seq<char>| views.contains_key(name) implies (
            #[trigger] views[name]).encodable() by {
                assert(members_view(members@)[name].encodable());
            }
        },
        _ => {},
    }
}

proof fn lemma_encodable_items(items: Seq<Json>)
    requires
        items_encodable(items),
    ensures
        forall|i: int|
            0 <= i < items_view(items).len() ==> (#[trigger] items_view(items)[i]).encodable(),
    decreases items,
{
    if items.len() > 0 {
        lemma_encodable_items(items.drop_last());
        lemma_encodable_view(items.last());
        let rest = items_view(items.drop_last());
        assert forall|i: int| 0 <= i < items_view(items).len() implies (
        #[trigger] items_view(items)[i]).encodable() by {
            if i < rest.len() {
                assert(items_view(items)[i] == rest[i]);
            }
        }
    }
}

proof fn lemma_encodable_members(members: Seq<(String, Json)>)
    requires
        members_encodable(members),
    ensures
        forall|name: Seq<char>|
            members_view(members).contains_key(name) ==> (#[trigger] members_view(
                members,
            )[name]).encodable(),
    decreases members,
{
    if members.len() > 0 {
        lemma_encodable_members(members.drop_last());
        lemma_encodable_view(members.last().1);
        assert forall|name: Seq<char>| members_view(members).contains_key(name) implies (
        #[trigger] members_view(members)[name]).encodable() by {
            if name != members.last().0@ {
                assert(members_view(members.drop_last())[name].encodable());
            }
        }
    }
}

proof fn lemma_members_tree_at(members: Seq<(String, serde_json::Value)>, i: int)
    requires
        0 <= i < members.len(),
        outside::distinct_names(members),
    ensures
        outside::members_tree(members).contains_key(members[i].0@),
        outside::members_tree(members)[members[i].0@] == outside::value_tree(members[i].1),
    decreases members.len(),
{
    let rest = members.drop_last();
    if i < rest.len() {
        assert(rest[i] == members[i]);
        lemma_members_tree_at(rest, i);
        assert(members[i].0@ != members[rest.len() as int].0@);
    }
}

proof fn lemma_members_tree_finite(members: Seq<(String, serde_json::Value)>)
    ensures
        outside::members_tree(members).dom().finite(),
    decreases members.len(),
{
    if members.len() > 0 {
        lemma_members_tree_finite(members.drop_last());
    }
}

} // verus!
