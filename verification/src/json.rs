//! JSON values, and reading them from text.

use crate::text::str_eq;
use vstd::prelude::*;

verus! {

/// A JSON value.
#[derive(Debug, PartialEq)]
pub enum Json {
    Null,
    Bool(bool),
    /// A number, as its decimal text.
    Number(String),
    Text(String),
    Array(Vec<Json>),
    /// The members of an object, each a key with its value.
    Object(Vec<(String, Json)>),
}

/// What a JSON value holds.
pub enum JsonView {
    Null,
    Bool(bool),
    Number(Seq<char>),
    Text(Seq<char>),
    Array(Seq<JsonView>),
    Object(Seq<(Seq<char>, JsonView)>),
}

impl Json {
    pub open spec fn view(&self) -> JsonView
        decreases self,
    {
        match self {
            Json::Null => JsonView::Null,
            Json::Bool(b) => JsonView::Bool(*b),
            Json::Number(digits) => JsonView::Number(digits@),
            Json::Text(text) => JsonView::Text(text@),
            Json::Array(items) => JsonView::Array(
                Seq::new(
                    items@.len(),
                    |i: int|
                        if 0 <= i < items@.len() {
                            items@[i].view()
                        } else {
                            JsonView::Null
                        },
                ),
            ),
            Json::Object(members) => JsonView::Object(
                Seq::new(
                    members@.len(),
                    |i: int|
                        if 0 <= i < members@.len() {
                            (members@[i].0@, members@[i].1.view())
                        } else {
                            (Seq::empty(), JsonView::Null)
                        },
                ),
            ),
        }
    }
}

impl DeepView for Json {
    type V = JsonView;

    open spec fn deep_view(&self) -> JsonView {
        self.view()
    }
}

/// The value of the first member with the given key.
pub open spec fn lookup(members: Seq<(Seq<char>, JsonView)>, key: Seq<char>) -> Option<JsonView>
    decreases members.len(),
{
    if members.len() == 0 {
        None
    } else if members[0].0 == key {
        Some(members[0].1)
    } else {
        lookup(members.skip(1), key)
    }
}

/// Whether no key occurs twice.
pub open spec fn distinct_keys(members: Seq<(Seq<char>, JsonView)>) -> bool {
    forall|i: int, j: int|
        0 <= i < j < members.len() ==> (#[trigger] members[i]).0 != (#[trigger] members[j]).0
}

impl JsonView {
    /// No object in the value holds a key twice.
    pub open spec fn well_formed(self) -> bool
        decreases self,
    {
        match self {
            JsonView::Array(items) => forall|i: int|
                0 <= i < items.len() ==> (#[trigger] items[i]).well_formed(),
            JsonView::Object(members) => {
                &&& distinct_keys(members)
                &&& forall|i: int|
                    0 <= i < members.len() ==> (#[trigger] members[i]).1.well_formed()
            },
            _ => true,
        }
    }

    /// The member of an object with the given key.
    pub open spec fn get(self, key: Seq<char>) -> Option<JsonView> {
        match self {
            JsonView::Object(members) => lookup(members, key),
            _ => None,
        }
    }

    /// The characters of a text value.
    pub open spec fn as_str(self) -> Option<Seq<char>> {
        match self {
            JsonView::Text(text) => Some(text),
            _ => None,
        }
    }

    pub open spec fn as_bool(self) -> Option<bool> {
        match self {
            JsonView::Bool(b) => Some(b),
            _ => None,
        }
    }

    /// The items of an array.
    pub open spec fn as_array(self) -> Option<Seq<JsonView>> {
        match self {
            JsonView::Array(items) => Some(items),
            _ => None,
        }
    }

    /// The characters of the text member with the given key.
    pub open spec fn get_str(self, key: Seq<char>) -> Option<Seq<char>> {
        match self.get(key) {
            Some(value) => value.as_str(),
            None => None,
        }
    }

    /// The truth value of the member with the given key.
    pub open spec fn get_bool(self, key: Seq<char>) -> Option<bool> {
        match self.get(key) {
            Some(value) => value.as_bool(),
            None => None,
        }
    }

    /// The items of the array member with the given key.
    pub open spec fn get_array(self, key: Seq<char>) -> Option<Seq<JsonView>> {
        match self.get(key) {
            Some(value) => value.as_array(),
            None => None,
        }
    }
}

/// In an object without repeated keys a lookup finds a value exactly where the
/// object holds the key with it, wherever that member stands.
pub proof fn lookup_finds_the_member(
    members: Seq<(Seq<char>, JsonView)>,
    key: Seq<char>,
    value: JsonView,
)
    requires
        distinct_keys(members),
    ensures
        lookup(members, key) == Some(value) <==> members.contains((key, value)),
    decreases members.len(),
{
    if members.len() > 0 {
        let rest = members.skip(1);
        assert forall|i: int, j: int| 0 <= i < j < rest.len() implies (#[trigger] rest[i]).0 != (
        #[trigger] rest[j]).0 by {
            assert(members[i + 1].0 != members[j + 1].0);
        }
        lookup_finds_the_member(rest, key, value);
        if rest.contains((key, value)) {
            let i = choose|i: int| 0 <= i < rest.len() && rest[i] == (key, value);
            assert(members[i + 1] == (key, value));
            assert(members[0].0 != members[i + 1].0);
        }
        if members.contains((key, value)) {
            let i = choose|i: int| 0 <= i < members.len() && members[i] == (key, value);
            if i > 0 {
                assert(rest[i - 1] == (key, value));
                assert(members[0].0 != members[i].0);
            }
        }
        if members[0] == (key, value) {
            assert(members.contains(members[0]));
        }
    }
}

/// A member is read as a text, a truth value or a list exactly where it is one,
/// and as it stands. In an object without repeated keys a member is found exactly
/// where the object holds it; nothing but an object has members.
pub proof fn members_are_read_as_they_stand(value: JsonView, key: Seq<char>)
    ensures
        value.get_str(key) == match value.get(key) {
            Some(JsonView::Text(text)) => Some(text),
            _ => None,
        },
        value.get_bool(key) == match value.get(key) {
            Some(JsonView::Bool(b)) => Some(b),
            _ => None,
        },
        value.get_array(key) == match value.get(key) {
            Some(JsonView::Array(items)) => Some(items),
            _ => None,
        },
        value !is Object ==> value.get(key) is None,
        value is Object && distinct_keys(value->Object_0) ==> forall|member: JsonView|
            value.get(key) == Some(member) <==> #[trigger] value->Object_0.contains((key, member)),
{
    if value is Object && distinct_keys(value->Object_0) {
        assert forall|member: JsonView|
            value.get(key) == Some(member) <==> #[trigger] value->Object_0.contains(
                (key, member),
            ) by {
            lookup_finds_the_member(value->Object_0, key, member);
        }
    }
}

impl Json {
    /// The member of an object with the given key.
    pub fn get(&self, key: &str) -> (r: Option<&Json>)
        ensures
            r is Some <==> self@.get(key@) is Some,
            r matches Some(value) ==> self@.get(key@) == Some(value@),
    {
        match self {
            Json::Object(members) => {
                let ghost all = self@->Object_0;
                assert(all.skip(0) =~= all);
                let mut i: usize = 0;
                while i < members.len()
                    invariant
                        *self == Json::Object(*members),
                        i <= members@.len(),
                        all == self@->Object_0,
                        lookup(all, key@) == lookup(all.skip(i as int), key@),
                    decreases members@.len() - i,
                {
                    proof {
                        assert(all.skip(i as int)[0] == all[i as int]);
                        assert(all.skip(i as int).skip(1) =~= all.skip(i as int + 1));
                    }
                    if str_eq(members[i].0.as_str(), key) {
                        return Some(&members[i].1);
                    }
                    i = i + 1;
                }
                None
            },
            _ => None,
        }
    }

    /// The characters of a text value.
    pub fn as_str(&self) -> (r: Option<&str>)
        ensures
            r is Some <==> self@.as_str() is Some,
            r matches Some(text) ==> self@.as_str() == Some(text@),
    {
        match self {
            Json::Text(text) => Some(text.as_str()),
            _ => None,
        }
    }

    pub fn as_bool(&self) -> (r: Option<bool>)
        ensures
            r == self@.as_bool(),
    {
        match self {
            Json::Bool(b) => Some(*b),
            _ => None,
        }
    }

    /// The items of an array.
    pub fn as_array(&self) -> (r: Option<&Vec<Json>>)
        ensures
            r is Some <==> self@.as_array() is Some,
            r matches Some(items) ==> self@.as_array() == Some(items.deep_view()),
    {
        match self {
            Json::Array(items) => {
                assert(self@->Array_0 =~= items.deep_view());
                Some(items)
            },
            _ => None,
        }
    }

    /// The text member with the given key.
    pub fn get_str(&self, key: &str) -> (r: Option<String>)
        ensures
            r is Some <==> self@.get_str(key@) is Some,
            r matches Some(text) ==> self@.get_str(key@) == Some(text@),
    {
        match self.get(key) {
            Some(value) => match value.as_str() {
                Some(text) => Some(text.to_owned()),
                None => None,
            },
            None => None,
        }
    }

    /// The truth value of the member with the given key.
    pub fn get_bool(&self, key: &str) -> (r: Option<bool>)
        ensures
            r == self@.get_bool(key@),
    {
        match self.get(key) {
            Some(value) => value.as_bool(),
            None => None,
        }
    }

    /// The items of the array member with the given key.
    pub fn get_array(&self, key: &str) -> (r: Option<&Vec<Json>>)
        ensures
            r is Some <==> self@.get_array(key@) is Some,
            r matches Some(items) ==> self@.get_array(key@) == Some(items.deep_view()),
    {
        match self.get(key) {
            Some(value) => value.as_array(),
            None => None,
        }
    }
}

impl Clone for Json {
    fn clone(&self) -> (r: Self)
        ensures
            r@ == self@,
        decreases self,
    {
        match self {
            Json::Null => Json::Null,
            Json::Bool(b) => Json::Bool(*b),
            Json::Number(digits) => Json::Number(digits.clone()),
            Json::Text(text) => Json::Text(text.clone()),
            Json::Array(items) => {
                let mut out: Vec<Json> = Vec::new();
                let mut i: usize = 0;
                while i < items.len()
                    invariant
                        *self == Json::Array(*items),
                        i <= items@.len(),
                        out@.len() == i,
                        forall|k: int| 0 <= k < i ==> (#[trigger] out@[k])@ == items@[k]@,
                    decreases items@.len() - i,
                {
                    assert(decreases_to!(*self => self->Array_0@[i as int]));
                    out.push(items[i].clone());
                    i = i + 1;
                }
                assert(Json::Array(out)@->Array_0 =~= self@->Array_0);
                Json::Array(out)
            },
            Json::Object(members) => {
                let mut out: Vec<(String, Json)> = Vec::new();
                let mut i: usize = 0;
                while i < members.len()
                    invariant
                        *self == Json::Object(*members),
                        i <= members@.len(),
                        out@.len() == i,
                        forall|k: int|
                            0 <= k < i ==> (#[trigger] out@[k]).1@ == members@[k].1@ && out@[k].0@
                                == members@[k].0@,
                    decreases members@.len() - i,
                {
                    assert(decreases_to!(*self => self->Object_0@[i as int].1));
                    out.push((members[i].0.clone(), members[i].1.clone()));
                    i = i + 1;
                }
                assert(Json::Object(out)@->Object_0 =~= self@->Object_0);
                Json::Object(out)
            },
        }
    }
}

/// The parser's own value type.
#[verifier::external_type_specification]
#[verifier::external_body]
pub struct ExValue(serde_json::Value);

/// The parser's error.
#[verifier::external_type_specification]
#[verifier::external_body]
pub struct ExError(serde_json::Error);

/// What a value of the parser holds.
pub uninterp spec fn value_contents(value: serde_json::Value) -> JsonView;

/// What `serde_json::from_str` reads from a text as a JSON value: `None` where
/// it reports an error.
pub uninterp spec fn parsed_json(text: Seq<char>) -> Option<JsonView>;

/// One level of a value of the parser.
enum ValueNode {
    Null,
    Bool(bool),
    Number(String),
    Text(String),
    Array(Vec<serde_json::Value>),
    Object(Vec<(String, serde_json::Value)>),
}

/// Calls `serde_json::from_str` for a `serde_json::Value`. Whether it succeeds,
/// and what the value then holds, depends on the text alone.
#[verifier::external_body]
fn value_from_str(text: &str) -> (r: Result<serde_json::Value, serde_json::Error>)
    ensures
        r is Ok <==> parsed_json(text@) is Some,
        r matches Ok(value) ==> parsed_json(text@) == Some(value_contents(value)),
{
    serde_json::from_str(text)
}

/// Takes a `serde_json::Value` apart into its variant and the fields of that
/// variant; the entries of a `serde_json::Map` come out as pairs, each key
/// once, and a `serde_json::Number` as its text.
#[verifier::external_body]
fn open_value(value: serde_json::Value) -> (node: ValueNode)
    ensures
        match node {
            ValueNode::Null => value_contents(value) == JsonView::Null,
            ValueNode::Bool(b) => value_contents(value) == JsonView::Bool(b),
            ValueNode::Number(digits) => value_contents(value) == JsonView::Number(digits@),
            ValueNode::Text(text) => value_contents(value) == JsonView::Text(text@),
            ValueNode::Array(items) => value_contents(value) == JsonView::Array(
                Seq::new(items@.len(), |i: int| value_contents(items@[i])),
            ),
            ValueNode::Object(members) => {
                let contents = Seq::new(
                    members@.len(),
                    |i: int| (members@[i].0@, value_contents(members@[i].1)),
                );
                value_contents(value) == JsonView::Object(contents) && distinct_keys(contents)
            },
        },
{
    match value {
        serde_json::Value::Null => ValueNode::Null,
        serde_json::Value::Bool(b) => ValueNode::Bool(b),
        serde_json::Value::Number(number) => ValueNode::Number(number.to_string()),
        serde_json::Value::String(text) => ValueNode::Text(text),
        serde_json::Value::Array(items) => ValueNode::Array(items),
        serde_json::Value::Object(map) => ValueNode::Object(map.into_iter().collect()),
    }
}

/// The value that a value of the parser stands for.
fn json_from_value(value: serde_json::Value) -> (r: Json)
    ensures
        r@ == value_contents(value),
        r@.well_formed(),
    decreases value_contents(value),
{
    match open_value(value) {
        ValueNode::Null => Json::Null,
        ValueNode::Bool(b) => Json::Bool(b),
        ValueNode::Number(digits) => Json::Number(digits),
        ValueNode::Text(text) => Json::Text(text),
        ValueNode::Array(items) => {
            let ghost all = items@;
            let ghost contents = value_contents(value)->Array_0;
            let mut out: Vec<Json> = Vec::new();
            for item in it: items.into_iter()
                invariant
                    it.seq() == all,
                    out@.len() == it.index(),
                    value_contents(value) == JsonView::Array(contents),
                    contents == Seq::new(all.len(), |i: int| value_contents(all[i])),
                    forall|i: int|
                        0 <= i < out@.len() ==> (#[trigger] out@[i])@ == contents[i]
                            && contents[i].well_formed(),
            {
                assert(value_contents(value)->Array_0[out@.len() as int] == value_contents(item));
                out.push(json_from_value(item));
            }
            assert(Json::Array(out)@->Array_0 =~= contents);
            assert forall|i: int| 0 <= i < contents.len() implies (
            #[trigger] contents[i]).well_formed() by {
                assert(out@[i]@ == contents[i]);
            }
            Json::Array(out)
        },
        ValueNode::Object(members) => {
            let ghost all = members@;
            let ghost contents = value_contents(value)->Object_0;
            let mut out: Vec<(String, Json)> = Vec::new();
            for member in it: members.into_iter()
                invariant
                    it.seq() == all,
                    out@.len() == it.index(),
                    value_contents(value) == JsonView::Object(contents),
                    contents == Seq::new(
                        all.len(),
                        |i: int| (all[i].0@, value_contents(all[i].1)),
                    ),
                    forall|i: int|
                        0 <= i < out@.len() ==> (#[trigger] out@[i]).1@ == contents[i].1
                            && out@[i].0@ == contents[i].0 && contents[i].1.well_formed(),
            {
                assert(value_contents(value)->Object_0[out@.len() as int].1 == value_contents(member.1));
                out.push((member.0, json_from_value(member.1)));
            }
            assert(Json::Object(out)@->Object_0 =~= contents);
            assert forall|i: int| 0 <= i < contents.len() implies (
            #[trigger] contents[i]).1.well_formed() by {
                assert(out@[i].1@ == contents[i].1);
            }
            Json::Object(out)
        },
    }
}

/// Reads a JSON value; `None` where the text is not one JSON value.
pub fn parse_json(text: &str) -> (r: Option<Json>)
    ensures
        r is Some <==> parsed_json(text@) is Some,
        r matches Some(value) ==> parsed_json(text@) == Some(value@) && value@.well_formed(),
{
    match value_from_str(text) {
        Ok(value) => Some(json_from_value(value)),
        Err(_) => None,
    }
}

} // verus!
