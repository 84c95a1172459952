//! JSON documents as trees, with the tolerant lookups the adapter relies on.

use vstd::prelude::*;
use vstd::string::StringExecFns;

verus! {

/// The mathematical value of a JSON document.
///
/// A number is kept as its decimal text. An object is the list of its
/// members in the order they are held; looking a name up finds the first
/// member that carries it.
pub enum JsonValue {
    Null,
    Bool(bool),
    Number(Seq<char>),
    Text(Seq<char>),
    Array(Seq<JsonValue>),
    Object(Seq<MemberValue>),
}

/// The mathematical value of one member of an object.
pub struct MemberValue {
    pub name: Seq<char>,
    pub value: JsonValue,
}

/// A JSON document.
#[derive(Debug)]
pub enum Json {
    Null,
    Bool(bool),
    /// A number, by its decimal text.
    Number(String),
    Text(String),
    Array(Vec<Json>),
    Object(Vec<Member>),
}

/// One member of a JSON object.
#[derive(Debug)]
pub struct Member {
    pub name: String,
    pub value: Json,
}

impl View for Json {
    type V = JsonValue;

    open spec fn view(&self) -> JsonValue
        decreases self,
    {
        match self {
            Json::Null => JsonValue::Null,
            Json::Bool(b) => JsonValue::Bool(*b),
            Json::Number(digits) => JsonValue::Number(digits@),
            Json::Text(text) => JsonValue::Text(text@),
            Json::Array(items) => JsonValue::Array(
                Seq::new(
                    items.len() as nat,
                    |i: int|
                        if 0 <= i < items.len() {
                            items[i].view()
                        } else {
                            JsonValue::Null
                        },
                ),
            ),
            Json::Object(members) => JsonValue::Object(
                Seq::new(
                    members.len() as nat,
                    |i: int|
                        if 0 <= i < members.len() {
                            MemberValue { name: members[i].name@, value: members[i].value.view() }
                        } else {
                            MemberValue { name: Seq::empty(), value: JsonValue::Null }
                        },
                ),
            ),
        }
    }
}

/// The value of the first member named `key` at or after position `from`.
pub open spec fn lookup_from(
    members: Seq<MemberValue>,
    key: Seq<char>,
    from: int,
) -> Option<JsonValue>
    decreases members.len() - from,
{
    if from < 0 || from >= members.len() {
        None
    } else if members[from].name == key {
        Some(members[from].value)
    } else {
        lookup_from(members, key, from + 1)
    }
}

impl JsonValue {
    /// The member `key` of an object; `None` for any other value and for an
    /// object without such a member.
    pub open spec fn member(self, key: Seq<char>) -> Option<JsonValue> {
        match self {
            JsonValue::Object(members) => lookup_from(members, key, 0),
            _ => None,
        }
    }

    /// The text of a string value; `None` for any other value.
    pub open spec fn as_text(self) -> Option<Seq<char>> {
        match self {
            JsonValue::Text(text) => Some(text),
            _ => None,
        }
    }

    /// The elements of an array; `None` for any other value.
    pub open spec fn as_items(self) -> Option<Seq<JsonValue>> {
        match self {
            JsonValue::Array(items) => Some(items),
            _ => None,
        }
    }

    /// The text of the string member `key`; `None` where the member is
    /// absent or holds anything but a string.
    pub open spec fn text_at(self, key: Seq<char>) -> Option<Seq<char>> {
        match self.member(key) {
            Some(value) => value.as_text(),
            None => None,
        }
    }

    /// The elements of the array member `key`; `None` where the member is
    /// absent or holds anything but an array.
    pub open spec fn items_at(self, key: Seq<char>) -> Option<Seq<JsonValue>> {
        match self.member(key) {
            Some(value) => value.as_items(),
            None => None,
        }
    }
}

impl Json {
    /// Looks up the member `key` of an object.
    pub fn member(&self, key: &str) -> (found: Option<&Json>)
        ensures
            match found {
                Some(value) => self@.member(key@) == Some(value@),
                None => self@.member(key@).is_none(),
            },
    {
        match self {
            Json::Object(members) => {
                let wanted = String::from_str(key);
                let ghost pairs = pairs_of(members@);
                proof {
                    lemma_object_view(*self);
                    assert(self@ == JsonValue::Object(pairs));
                }
                let mut i: usize = 0;
                while i < members.len()
                    invariant
                        i <= members.len(),
                        wanted@ == key@,
                        pairs == pairs_of(members@),
                        self@ == JsonValue::Object(pairs),
                        lookup_from(pairs, key@, 0) == lookup_from(pairs, key@, i as int),
                    decreases members.len() - i,
                {
                    if members[i].name == wanted {
                        return Some(&members[i].value);
                    }
                    i += 1;
                }
                None
            },
            _ => None,
        }
    }

    /// Parses a text as JSON; `None` where it is none.
    pub fn parse(text: &str) -> (parsed: Option<Json>)
        ensures
            match parsed {
                Some(doc) => parsed_json(text@) == Some(doc@),
                None => parsed_json(text@).is_none(),
            },
    {
        from_text(text)
    }

    /// A string value.
    pub fn text(content: &str) -> (doc: Json)
        ensures
            doc@ == JsonValue::Text(content@),
    {
        Json::Text(String::from_str(content))
    }

    /// An array value with the given elements.
    pub fn array(items: Vec<Json>) -> (doc: Json)
        ensures
            doc@ == JsonValue::Array(views_of(items@)),
    {
        let doc = Json::Array(items);
        proof {
            lemma_array_view(doc);
        }
        doc
    }

    /// An object value with the given members, in their order.
    pub fn object(members: Vec<Member>) -> (doc: Json)
        ensures
            doc@ == JsonValue::Object(pairs_of(members@)),
    {
        let doc = Json::Object(members);
        proof {
            lemma_object_view(doc);
        }
        doc
    }

    /// Reads a string value.
    pub fn as_text(&self) -> (found: Option<&String>)
        ensures
            match found {
                Some(text) => self@.as_text() == Some(text@),
                None => self@.as_text().is_none(),
            },
    {
        match self {
            Json::Text(text) => Some(text),
            _ => None,
        }
    }

    /// Reads an array value.
    pub fn as_items(&self) -> (found: Option<&Vec<Json>>)
        ensures
            match found {
                Some(items) => self@.as_items() == Some(views_of(items@)),
                None => self@.as_items().is_none(),
            },
    {
        match self {
            Json::Array(items) => {
                proof {
                    lemma_array_view(*self);
                }
                Some(items)
            },
            _ => None,
        }
    }

    /// Reads the string member `key`.
    pub fn text_at(&self, key: &str) -> (found: Option<&String>)
        ensures
            match found {
                Some(text) => self@.text_at(key@) == Some(text@),
                None => self@.text_at(key@).is_none(),
            },
    {
        match self.member(key) {
            Some(value) => value.as_text(),
            None => None,
        }
    }

    /// Reads the array member `key`.
    pub fn items_at(&self, key: &str) -> (found: Option<&Vec<Json>>)
        ensures
            match found {
                Some(items) => self@.items_at(key@) == Some(views_of(items@)),
                None => self@.items_at(key@).is_none(),
            },
    {
        match self.member(key) {
            Some(value) => value.as_items(),
            None => None,
        }
    }
}

impl View for Member {
    type V = MemberValue;

    open spec fn view(&self) -> MemberValue {
        MemberValue { name: self.name@, value: self.value@ }
    }
}

impl Member {
    /// A member with the given name and value.
    pub fn new(name: &str, value: Json) -> (member: Member)
        ensures
            member.name@ == name@,
            member.value == value,
    {
        Member { name: String::from_str(name), value }
    }
}

/// `serde_json::Value`, the tree that `serde_json` parses a text into.
#[verifier::external_type_specification]
#[verifier::external_body]
pub struct ExValue(serde_json::Value);

/// What `serde_json::from_str` makes of a text when asked for a
/// `serde_json::Value`: the document that the text denotes, or `None` where
/// the text is not JSON.
pub uninterp spec fn parsed_json(text: Seq<char>) -> Option<JsonValue>;

/// Rewrites a `serde_json::Value` as a [`Json`], variant for variant: a
/// number by the text `serde_json` prints for it, an object by its members
/// in the order its map yields them. Nothing is claimed of the result here.
#[verifier::external_body]
fn lift(value: serde_json::Value) -> (doc: Json) {
    match value {
        serde_json::Value::Null => Json::Null,
        serde_json::Value::Bool(flag) => Json::Bool(flag),
        serde_json::Value::Number(number) => Json::Number(number.to_string()),
        serde_json::Value::String(text) => Json::Text(text),
        serde_json::Value::Array(items) => Json::Array(items.into_iter().map(lift).collect()),
        serde_json::Value::Object(map) => Json::Object(
            map.into_iter().map(|(name, value)| Member { name, value: lift(value) }).collect(),
        ),
    }
}

/// Calls `serde_json::from_str` for a `serde_json::Value` and rewrites what
/// it gives as a [`Json`]. The contract claims that the outcome depends on
/// the text alone; what it is for a given text is left to `serde_json`.
#[verifier::external_body]
pub(crate) fn from_text(text: &str) -> (parsed: Option<Json>)
    ensures
        match parsed {
            Some(doc) => parsed_json(text@) == Some(doc@),
            None => parsed_json(text@).is_none(),
        },
{
    match serde_json::from_str::<serde_json::Value>(text) {
        Ok(value) => Some(lift(value)),
        Err(_) => None,
    }
}

/// The values of a list of documents, element by element.
pub open spec fn views_of(items: Seq<Json>) -> Seq<JsonValue> {
    Seq::new(items.len(), |i: int| items[i]@)
}

/// The names and values of a list of members, element by element.
pub open spec fn pairs_of(members: Seq<Member>) -> Seq<MemberValue> {
    Seq::new(members.len(), |i: int| members[i]@)
}

/// The value of an array is the list of its elements' values.
pub proof fn lemma_array_view(doc: Json)
    requires
        doc is Array,
    ensures
        doc@ == JsonValue::Array(views_of(doc->Array_0@)),
{
    assert(doc@->Array_0 =~= views_of(doc->Array_0@));
}

/// The value of an object is the list of its members' names and values.
pub proof fn lemma_object_view(doc: Json)
    requires
        doc is Object,
    ensures
        doc@ == JsonValue::Object(pairs_of(doc->Object_0@)),
{
    let members = doc->Object_0;
    assert(doc == Json::Object(members));
    assert(doc@ is Object);
    let pairs = doc@->Object_0;
    assert(pairs.len() == members.len());
    assert forall|i: int| 0 <= i < pairs.len() implies pairs[i] == pairs_of(members@)[i] by {
        assert(pairs[i] == members[i]@);
    }
    assert(pairs =~= pairs_of(members@));
}

} // verus!
