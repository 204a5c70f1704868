//! JSON values as plain data, with their mathematical model.
//!
//! The tree is the library's own, so verified code can read and build it.
//! Text is turned into a tree, and a tree into text, by `serde_json`; those
//! calls, and the numbers at the leaves, are the trusted part of this module.

use vstd::prelude::*;
use vstd::string::*;

verus! {

/// `serde_json::Number`: a JSON number, carried through as it is.
#[verifier::external_type_specification]
#[verifier::external_body]
pub struct ExNumber(serde_json::Number);

/// `serde_json::Value`: a JSON document as `serde_json` holds it, on its way
/// from a text to a tree of this module or back.
#[verifier::external_type_specification]
#[verifier::external_body]
pub struct ExValue(serde_json::Value);

/// `str`'s `==`: two string slices are equal when they hold the same
/// characters.
pub assume_specification[ <str as PartialEq>::eq ](a: &str, b: &str) -> (r: bool)
    ensures
        r == (a@ == b@),
;

/// `Clone` of a `serde_json::Number`: the copy is the same number.
pub assume_specification[ <serde_json::Number as Clone>::clone ](n: &serde_json::Number) -> (r:
    serde_json::Number)
    ensures
        r == *n,
;

/// The JSON number that `serde_json` makes of the integer `v`.
pub uninterp spec fn number_of(v: i64) -> serde_json::Number;

/// What a `serde_json::Value` holds.
pub uninterp spec fn value_view(value: serde_json::Value) -> JsonView;

/// What `serde_json` reads in a text: the value, or `None` where the text is
/// not one JSON document.
pub uninterp spec fn json_parse(text: Seq<char>) -> Option<JsonView>;

/// The compact text that `serde_json` writes for a value.
pub uninterp spec fn json_text(value: JsonView) -> Seq<char>;

/// The indented text that `serde_json` writes for a value.
pub uninterp spec fn json_pretty_text(value: JsonView) -> Seq<char>;

/// One `"key": value` pair of a JSON object.
#[derive(Debug)]
pub struct Member {
    pub key: String,
    pub value: Json,
}

/// A JSON value. A number stays the `serde_json` number that it was read as
/// or made from, so that it is written back unchanged.
#[derive(Debug)]
pub enum Json {
    Null,
    Bool(bool),
    Number(serde_json::Number),
    Str(String),
    Array(Vec<Json>),
    Object(Vec<Member>),
}

/// The mathematical value of a JSON document. An object is a finite map: the
/// order of its members does not matter and a key occurs once.
pub enum JsonView {
    Null,
    Bool(bool),
    Number(serde_json::Number),
    Str(Seq<char>),
    Array(Seq<JsonView>),
    Object(Map<Seq<char>, JsonView>),
}

/// The map that a list of members stands for. A later member replaces an
/// earlier one of the same key.
pub open spec fn members_view(members: Seq<Member>) -> Map<Seq<char>, JsonView>
    decreases members, 0nat,
{
    if members.len() == 0 {
        Map::empty()
    } else {
        let last = members.last();
        members_view(members.drop_last()).insert(last.key@, last.value.view())
    }
}

/// The values of a list of items, one by one.
pub open spec fn items_view(items: Seq<Json>) -> Seq<JsonView>
    decreases items, 0nat,
{
    if items.len() == 0 {
        Seq::empty()
    } else {
        items_view(items.drop_last()).push(items.last().view())
    }
}

impl View for Json {
    type V = JsonView;

    open spec fn view(&self) -> JsonView
        decreases *self, 1nat,
    {
        match *self {
            Json::Null => JsonView::Null,
            Json::Bool(b) => JsonView::Bool(b),
            Json::Number(n) => JsonView::Number(n),
            Json::Str(text) => JsonView::Str(text@),
            Json::Array(items) => JsonView::Array(items_view(items@)),
            Json::Object(members) => JsonView::Object(members_view(members@)),
        }
    }
}

impl JsonView {
    /// The member of an object under `key`; `None` for a missing key and for
    /// anything that is not an object.
    pub open spec fn get(self, key: Seq<char>) -> Option<JsonView> {
        match self {
            JsonView::Object(m) => if m.contains_key(key) {
                Some(m[key])
            } else {
                None
            },
            _ => None,
        }
    }

    /// The member under `key`, and `Null` where `get` finds none.
    pub open spec fn at(self, key: Seq<char>) -> JsonView {
        match self.get(key) {
            Some(v) => v,
            None => JsonView::Null,
        }
    }

    /// The text of a string value.
    pub open spec fn as_str(self) -> Option<Seq<char>> {
        match self {
            JsonView::Str(s) => Some(s),
            _ => None,
        }
    }

    /// The text of a string value, and `default` for any other value.
    pub open spec fn str_or(self, default: Seq<char>) -> Seq<char> {
        match self {
            JsonView::Str(s) => s,
            _ => default,
        }
    }

    /// The items of an array.
    pub open spec fn as_array(self) -> Option<Seq<JsonView>> {
        match self {
            JsonView::Array(items) => Some(items),
            _ => None,
        }
    }

    /// The truth value of a boolean.
    pub open spec fn as_bool(self) -> Option<bool> {
        match self {
            JsonView::Bool(b) => Some(b),
            _ => None,
        }
    }

    /// The integer of a number that stands for one an `i64` holds.
    pub open spec fn as_i64(self) -> Option<i64> {
        match self {
            JsonView::Number(n) => if exists|v: i64| n == number_of(v) {
                Some(choose|v: i64| n == number_of(v))
            } else {
                None
            },
            _ => None,
        }
    }

    /// The number that stands for `v`.
    pub open spec fn integer(v: i64) -> JsonView {
        JsonView::Number(number_of(v))
    }

    /// The object without members.
    pub open spec fn empty_object() -> JsonView {
        JsonView::Object(Map::empty())
    }

    /// This object with `value` under `key`. On anything that is not an
    /// object, the object that holds this one member.
    pub open spec fn with(self, key: Seq<char>, value: JsonView) -> JsonView {
        match self {
            JsonView::Object(m) => JsonView::Object(m.insert(key, value)),
            _ => JsonView::Object(Map::empty().insert(key, value)),
        }
    }
}

/// Each item of a list has its value at the same place in the list's view.
pub proof fn lemma_items_view(items: Seq<Json>)
    ensures
        items_view(items).len() == items.len(),
        forall|i: int| 0 <= i < items.len() ==> (#[trigger] items_view(items)[i]) == items[i]@,
    decreases items.len(),
{
    if items.len() > 0 {
        lemma_items_view(items.drop_last());
        assert(items_view(items) == items_view(items.drop_last()).push(items.last()@));
        assert forall|i: int| 0 <= i < items.len() implies (#[trigger] items_view(items)[i])
            == items[i]@ by {
            if i < items.len() - 1 {
                assert(items.drop_last()[i] == items[i]);
            }
        }
    }
}

/// Pushing an item onto a list pushes its value onto the list's view.
pub proof fn lemma_items_push(items: Seq<Json>, item: Json)
    ensures
        items_view(items.push(item)) == items_view(items).push(item@),
{
    assert(items.push(item).drop_last() == items);
}

/// Pushing a member onto a list maps its key to its value.
pub proof fn lemma_members_push(members: Seq<Member>, member: Member)
    ensures
        members_view(members.push(member)) == members_view(members).insert(
            member.key@,
            member.value@,
        ),
{
    assert(members.push(member).drop_last() == members);
}

/// A key that no member has is not in the map.
pub proof fn lemma_members_absent(members: Seq<Member>, key: Seq<char>)
    requires
        forall|j: int| 0 <= j < members.len() ==> members[j].key@ != key,
    ensures
        !members_view(members).contains_key(key),
    decreases members.len(),
{
    if members.len() > 0 {
        let rest = members.drop_last();
        assert forall|j: int| 0 <= j < rest.len() implies rest[j].key@ != key by {
            assert(rest[j] == members[j]);
        }
        lemma_members_absent(rest, key);
        assert(members_view(members) == members_view(rest).insert(
            members.last().key@,
            members.last().value@,
        ));
    }
}

/// The last member that has a key gives the key its value.
pub proof fn lemma_members_found(members: Seq<Member>, key: Seq<char>, i: int)
    requires
        0 <= i < members.len(),
        members[i].key@ == key,
        forall|j: int| i < j < members.len() ==> members[j].key@ != key,
    ensures
        members_view(members).contains_key(key),
        members_view(members)[key] == members[i].value@,
    decreases members.len(),
{
    let rest = members.drop_last();
    assert(members_view(members) == members_view(rest).insert(
        members.last().key@,
        members.last().value@,
    ));
    if i < members.len() - 1 {
        assert(rest[i] == members[i]);
        assert forall|j: int| i < j < rest.len() implies rest[j].key@ != key by {
            assert(rest[j] == members[j]);
        }
        lemma_members_found(rest, key, i);
    }
}

/// Lists whose items have the same values, one by one, have the same view.
pub proof fn lemma_items_view_equal(a: Seq<Json>, b: Seq<Json>)
    requires
        a.len() == b.len(),
        forall|i: int| 0 <= i < a.len() ==> a[i]@ == b[i]@,
    ensures
        items_view(a) == items_view(b),
{
    lemma_items_view(a);
    lemma_items_view(b);
    assert(items_view(a) =~= items_view(b));
}

/// Lists whose members have the same keys and values, one by one, stand for
/// the same map.
pub proof fn lemma_members_view_equal(a: Seq<Member>, b: Seq<Member>)
    requires
        a.len() == b.len(),
        forall|i: int| 0 <= i < a.len() ==> a[i].key@ == b[i].key@ && a[i].value@ == b[i].value@,
    ensures
        members_view(a) == members_view(b),
    decreases a.len(),
{
    if a.len() > 0 {
        let ra = a.drop_last();
        let rb = b.drop_last();
        assert forall|i: int| 0 <= i < ra.len() implies ra[i].key@ == rb[i].key@ && ra[i].value@
            == rb[i].value@ by {
            assert(ra[i] == a[i]);
            assert(rb[i] == b[i]);
        }
        lemma_members_view_equal(ra, rb);
        assert(members_view(a) == members_view(ra).insert(a.last().key@, a.last().value@));
        assert(members_view(b) == members_view(rb).insert(b.last().key@, b.last().value@));
    } else {
        assert(members_view(a) == Map::<Seq<char>, JsonView>::empty());
        assert(members_view(b) == Map::<Seq<char>, JsonView>::empty());
    }
}

/// An item of an array is a smaller tree than the array.
proof fn lemma_item_smaller(json: Json, i: int)
    requires
        json is Array,
        0 <= i < json->Array_0.len(),
    ensures
        decreases_to!(json => json->Array_0[i]),
{
    match json {
        Json::Array(items) => {
            vstd::std_specs::vec::axiom_vec_index_decreases(items, i);
        },
        _ => {},
    }
}

/// A member's value is a smaller tree than the object.
proof fn lemma_member_smaller(json: Json, i: int)
    requires
        json is Object,
        0 <= i < json->Object_0.len(),
    ensures
        decreases_to!(json => json->Object_0[i].value),
{
    match json {
        Json::Object(members) => {
            vstd::std_specs::vec::axiom_vec_index_decreases(members, i);
        },
        _ => {},
    }
}

/// Two integers that make the same number are the same integer, wherever a
/// number made of one of them exists.
proof fn lemma_number_value(n: serde_json::Number, r: Option<i64>)
    requires
        forall|v: i64| (r == Some(v)) <==> (n == #[trigger] number_of(v)),
    ensures
        JsonView::Number(n).as_i64() == r,
{
    match r {
        Some(v) => {
            assert(n == number_of(v));
            let w = choose|w: i64| n == number_of(w);
            assert(r == Some(w));
        },
        None => {
            assert forall|v: i64| n != #[trigger] number_of(v) by {
                if n == number_of(v) {
                    assert(r == Some(v));
                }
            }
        },
    }
}

/// `serde_json::Number::from` on an `i64`: the number that stands for `v`.
#[verifier::external_body]
fn number_from_i64(v: i64) -> (r: serde_json::Number)
    ensures
        r == number_of(v),
{
    serde_json::Number::from(v)
}

/// `serde_json::Number::as_i64`: `Some(v)` exactly for the number that stands
/// for `v`; `None` for a fraction and for an integer beyond `i64`.
#[verifier::external_body]
fn number_as_i64(n: &serde_json::Number) -> (r: Option<i64>)
    ensures
        forall|v: i64| (r == Some(v)) <==> (*n == #[trigger] number_of(v)),
{
    n.as_i64()
}

/// Rebuilds a `serde_json::Value` as a tree of this module, variant by
/// variant: the tree holds what the value holds.
#[verifier::external_body]
fn from_value(value: &serde_json::Value) -> (r: Json)
    ensures
        r@ == value_view(*value),
{
    match value {
        serde_json::Value::Null => Json::Null,
        serde_json::Value::Bool(b) => Json::Bool(*b),
        serde_json::Value::Number(n) => Json::Number(n.clone()),
        serde_json::Value::String(s) => Json::Str(s.clone()),
        serde_json::Value::Array(a) => Json::Array(a.iter().map(from_value).collect()),
        serde_json::Value::Object(m) => Json::Object(
            m.iter().map(|(k, v)| Member { key: k.clone(), value: from_value(v) }).collect(),
        ),
    }
}

/// Rebuilds a tree of this module as a `serde_json::Value`, variant by
/// variant: the value holds what the tree holds. Members go into the map of
/// an object in their order, so a later one replaces an earlier one of the
/// same key.
#[verifier::external_body]
fn to_value(json: &Json) -> (r: serde_json::Value)
    ensures
        value_view(r) == json@,
{
    match json {
        Json::Null => serde_json::Value::Null,
        Json::Bool(b) => serde_json::Value::Bool(*b),
        Json::Number(n) => serde_json::Value::Number(n.clone()),
        Json::Str(s) => serde_json::Value::String(s.clone()),
        Json::Array(a) => serde_json::Value::Array(a.iter().map(to_value).collect()),
        Json::Object(m) => {
            let mut map = serde_json::Map::new();
            for x in m.iter() {
                map.insert(x.key.clone(), to_value(&x.value));
            }
            serde_json::Value::Object(map)
        },
    }
}

/// `serde_json::from_str` for a `Value`: the document that the text holds,
/// which depends on the text alone, or `None` where it holds none.
#[verifier::external_body]
fn parse_value(text: &str) -> (r: Option<serde_json::Value>)
    ensures
        match r {
            Some(value) => json_parse(text@) == Some(value_view(value)),
            None => json_parse(text@) is None,
        },
{
    serde_json::from_str::<serde_json::Value>(text).ok()
}

/// `Display` of a `serde_json::Value`: its compact text, which depends on
/// what the value holds alone.
#[verifier::external_body]
fn render_value(value: &serde_json::Value) -> (r: String)
    ensures
        r@ == json_text(value_view(*value)),
{
    value.to_string()
}

/// `Display` of a `serde_json::Value` in its alternate form: its indented
/// text, which depends on what the value holds alone.
#[verifier::external_body]
fn render_pretty_value(value: &serde_json::Value) -> (r: String)
    ensures
        r@ == json_pretty_text(value_view(*value)),
{
    format!("{:#}", value)
}

impl Clone for Json {
    fn clone(&self) -> (r: Json)
        ensures
            r@ == self@,
        decreases self,
    {
        match self {
            Json::Null => Json::Null,
            Json::Bool(b) => Json::Bool(*b),
            Json::Number(n) => Json::Number(n.clone()),
            Json::Str(s) => Json::Str(s.clone()),
            Json::Array(items) => {
                let mut copy: Vec<Json> = Vec::new();
                let mut i: usize = 0;
                while i < items.len()
                    invariant
                        *self == Json::Array(*items),
                        i <= items.len(),
                        copy@.len() == i,
                        forall|j: int| 0 <= j < i ==> copy@[j]@ == items@[j]@,
                    decreases items.len() - i,
                {
                    proof {
                        lemma_item_smaller(*self, i as int);
                    }
                    let item = items[i].clone();
                    copy.push(item);
                    i = i + 1;
                }
                proof {
                    lemma_items_view_equal(copy@, items@);
                }
                Json::Array(copy)
            },
            Json::Object(members) => {
                let mut copy: Vec<Member> = Vec::new();
                let mut i: usize = 0;
                while i < members.len()
                    invariant
                        *self == Json::Object(*members),
                        i <= members.len(),
                        copy@.len() == i,
                        forall|j: int|
                            0 <= j < i ==> copy@[j].key@ == members@[j].key@ && copy@[j].value@
                                == members@[j].value@,
                    decreases members.len() - i,
                {
                    let key = members[i].key.clone();
                    proof {
                        lemma_member_smaller(*self, i as int);
                    }
                    let value = members[i].value.clone();
                    copy.push(Member { key, value });
                    i = i + 1;
                }
                proof {
                    lemma_members_view_equal(copy@, members@);
                }
                Json::Object(copy)
            },
        }
    }
}

impl Json {
    /// Reads one JSON document from `text`.
    pub fn parse(text: &str) -> (r: Option<Json>)
        ensures
            match r {
                Some(j) => json_parse(text@) == Some(j@),
                None => json_parse(text@) is None,
            },
    {
        match parse_value(text) {
            Some(value) => Some(from_value(&value)),
            None => None,
        }
    }

    /// The compact text of this value.
    pub fn render(&self) -> (r: String)
        ensures
            r@ == json_text(self@),
    {
        let value = to_value(self);
        render_value(&value)
    }

    /// The indented text of this value.
    pub fn render_pretty(&self) -> (r: String)
        ensures
            r@ == json_pretty_text(self@),
    {
        let value = to_value(self);
        render_pretty_value(&value)
    }

    /// The string value with the characters of `text`.
    pub fn string(text: &str) -> (r: Json)
        ensures
            r@ == JsonView::Str(text@),
    {
        Json::Str(String::from_str(text))
    }

    /// The number that stands for `v`.
    pub fn integer(v: i64) -> (r: Json)
        ensures
            r@ == JsonView::integer(v),
    {
        Json::Number(number_from_i64(v))
    }

    /// The object without members.
    pub fn object() -> (r: Json)
        ensures
            r@ == JsonView::empty_object(),
    {
        let members: Vec<Member> = Vec::new();
        Json::Object(members)
    }

    /// The array of `items`.
    pub fn array(items: Vec<Json>) -> (r: Json)
        ensures
            r@ == JsonView::Array(items_view(items@)),
    {
        Json::Array(items)
    }

    /// This object with `value` under `key`, in place of what was there.
    pub fn with(self, key: &str, value: Json) -> (r: Json)
        ensures
            r@ == self@.with(key@, value@),
    {
        let member = Member { key: String::from_str(key), value };
        match self {
            Json::Object(members) => {
                let mut members = members;
                proof {
                    lemma_members_push(members@, member);
                }
                members.push(member);
                Json::Object(members)
            },
            _ => {
                let mut members: Vec<Member> = Vec::new();
                proof {
                    lemma_members_push(members@, member);
                }
                members.push(member);
                Json::Object(members)
            },
        }
    }

    /// The member of an object under `key`.
    pub fn get(&self, key: &str) -> (r: Option<&Json>)
        ensures
            match r {
                Some(j) => self@.get(key@) == Some(j@),
                None => self@.get(key@) is None,
            },
    {
        match self {
            Json::Object(members) => {
                assert(self@ == JsonView::Object(members_view(members@)));
                let mut i: usize = members.len();
                while i > 0
                    invariant
                        i <= members.len(),
                        self@ == JsonView::Object(members_view(members@)),
                        forall|j: int| i <= j < members.len() ==> members@[j].key@ != key@,
                    decreases i,
                {
                    i = i - 1;
                    if members[i].key.as_str().eq(key) {
                        proof {
                            lemma_members_found(members@, key@, i as int);
                        }
                        return Some(&members[i].value);
                    }
                }
                proof {
                    lemma_members_absent(members@, key@);
                }
                None
            },
            _ => None,
        }
    }

    /// The text of a string value.
    pub fn as_str(&self) -> (r: Option<&str>)
        ensures
            match r {
                Some(s) => self@.as_str() == Some(s@),
                None => self@.as_str() is None,
            },
    {
        match self {
            Json::Str(s) => Some(s.as_str()),
            _ => None,
        }
    }

    /// The items of an array.
    pub fn as_array(&self) -> (r: Option<&Vec<Json>>)
        ensures
            match r {
                Some(items) => self@.as_array() == Some(items_view(items@)),
                None => self@.as_array() is None,
            },
    {
        match self {
            Json::Array(items) => Some(items),
            _ => None,
        }
    }

    /// The truth value of a boolean.
    pub fn as_bool(&self) -> (r: Option<bool>)
        ensures
            r == self@.as_bool(),
    {
        match self {
            Json::Bool(b) => Some(*b),
            _ => None,
        }
    }

    /// The integer of a number that stands for one an `i64` holds.
    pub fn as_i64(&self) -> (r: Option<i64>)
        ensures
            r == self@.as_i64(),
    {
        match self {
            Json::Number(n) => {
                let r = number_as_i64(n);
                proof {
                    lemma_number_value(*n, r);
                }
                r
            },
            _ => None,
        }
    }

    /// Whether this is `null`.
    pub fn is_null(&self) -> (r: bool)
        ensures
            r == (self@ == JsonView::Null),
    {
        match self {
            Json::Null => true,
            _ => false,
        }
    }
}

/// The text of the string under `key` in `value`, and `default` where
/// `value` is no object, has no such member, or holds no string there.
pub fn text_or<'a>(value: &'a Json, key: &str, default: &'a str) -> (r: &'a str)
    ensures
        r@ == value@.at(key@).str_or(default@),
{
    match value.get(key) {
        Some(member) => match member.as_str() {
            Some(s) => s,
            None => default,
        },
        None => default,
    }
}

} // verus!
