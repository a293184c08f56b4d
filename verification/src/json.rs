//! JSON documents, held as values of `serde_json`.
//!
//! A [`serde_json::Value`] is a container of texts, numbers and further
//! values. [`Json`] is its mathematical model and [`json_tree`] the model of a
//! given value; the functions below that reach into `serde_json` are described
//! over it.
use vstd::prelude::*;

verus! {

/// What a JSON value holds.
///
/// Everything that is neither a text, an integer nor an object (`null`, the
/// booleans, numbers with a fraction or an exponent, arrays) is kept as the
/// compact JSON text that stands for it.
pub enum Json {
    Text(Seq<char>),
    Integer(int),
    Object(Map<Seq<char>, Json>),
    Other(Seq<char>),
}

impl Json {
    /// The member `name` of an object; `null` where there is none.
    pub open spec fn member(self, name: Seq<char>) -> Json {
        match self {
            Json::Object(members) if members.contains_key(name) => members[name],
            _ => Json::Other("null"@),
        }
    }

    /// Whether the value is `text` and nothing else.
    pub open spec fn is_text(self, text: Seq<char>) -> bool {
        self == Json::Text(text)
    }

    /// Whether the value is made of texts, machine integers and finite objects
    /// alone.
    pub open spec fn plain(self) -> bool
        decreases self,
    {
        match self {
            Json::Text(_) => true,
            Json::Integer(n) => 0 <= n <= u64::MAX,
            Json::Object(members) => {
                &&& members.dom().finite()
                &&& forall|name: Seq<char>| #[trigger]
                    members.contains_key(name) ==> members[name].plain()
            },
            Json::Other(_) => false,
        }
    }
}

/// The type of JSON values of `serde_json`.
#[verifier::external_type_specification]
#[verifier::external_body]
pub struct ExValue(serde_json::Value);

/// What `value` holds.
pub uninterp spec fn json_tree(value: serde_json::Value) -> Json;

/// The compact JSON text of a value that holds `tree`.
pub uninterp spec fn json_text(tree: Json) -> Seq<char>;

/// `value[name]`, the `Index<&str>` of `serde_json::Value`: the member of that
/// name where `value` is an object that has one, and `null` otherwise.
#[verifier::external_body]
pub(crate) fn member<'a>(value: &'a serde_json::Value, name: &str) -> (found: &'a serde_json::Value)
    ensures
        json_tree(*found) == json_tree(*value).member(name@),
{
    &value[name]
}

/// `serde_json::Value::as_str`: the text where `value` is one, `None` where it
/// is anything else.
#[verifier::external_body]
pub(crate) fn as_text(value: &serde_json::Value) -> (text: Option<&str>)
    ensures
        match text {
            Some(text) => json_tree(*value) == Json::Text(text@),
            None => !(json_tree(*value) is Text),
        },
{
    value.as_str()
}

/// `serde_json::Value::from::<&str>`: the text itself.
#[verifier::external_body]
pub(crate) fn text_value(text: &str) -> (value: serde_json::Value)
    ensures
        json_tree(value) == Json::Text(text@),
{
    serde_json::Value::from(text)
}

/// `serde_json::Value::from::<u32>`: the number itself.
#[verifier::external_body]
pub(crate) fn integer_value(number: u32) -> (value: serde_json::Value)
    ensures
        json_tree(value) == Json::Integer(number as int),
{
    serde_json::Value::from(number)
}

/// The members that a list of names and values describes.
pub open spec fn members_of(members: Seq<(String, serde_json::Value)>) -> Map<Seq<char>, Json>
    decreases members.len(),
{
    if members.len() == 0 {
        Map::empty()
    } else {
        members_of(members.drop_last()).insert(members.last().0@, json_tree(members.last().1))
    }
}

/// `serde_json::Value::from_iter` over names and values: the object with
/// exactly these members. The names differ pairwise, so that no member hides
/// another.
#[verifier::external_body]
pub(crate) fn object_value(members: Vec<(String, serde_json::Value)>) -> (value: serde_json::Value)
    requires
        forall|i: int, j: int|
            0 <= i < j < members@.len() ==> members@[i].0@ != members@[j].0@,
    ensures
        json_tree(value) == Json::Object(members_of(members@)),
{
    serde_json::Value::from_iter(members)
}

/// `to_string` of `serde_json::Value`: its compact JSON text. The text depends
/// on what the value holds alone. A value of texts, integers and objects can be
/// read back from it, so no other such value has the same text.
#[verifier::external_body]
pub(crate) fn encode(value: &serde_json::Value) -> (text: String)
    ensures
        text@ == json_text(json_tree(*value)),
        forall|other: Json|
            #![trigger json_text(other)]
            json_tree(*value).plain() && other.plain() && json_text(other) == text@ ==> other
                == json_tree(*value),
{
    value.to_string()
}

/// Whether one value at most, of those made of texts, integers and objects, has this
/// text.
pub open spec fn stands_for_one_value(text: Seq<char>) -> bool {
    forall|a: Json, b: Json|
        #![trigger json_text(a), json_text(b)]
        a.plain() && b.plain() && json_text(a) == text && json_text(b) == text ==> a == b
}

/// An object has its members under their names, and `null` under any other; what is
/// no object has `null` under every name.
pub proof fn members_are_found_by_name(
    members: Map<Seq<char>, Json>,
    name: Seq<char>,
    value: Json,
    other: Seq<char>,
    scalar: Json,
)
    requires
        !(scalar is Object),
    ensures
        Json::Object(members.insert(name, value)).member(name) == value,
        name != other ==> Json::Object(members.insert(name, value)).member(other) == Json::Object(
            members,
        ).member(other),
        Json::Object(Map::empty()).member(name) == Json::Other("null"@),
        scalar.member(name) == Json::Other("null"@),
{
}

} // verus!
