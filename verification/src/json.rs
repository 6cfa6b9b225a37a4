//! A JSON document as a plain value, and the lookups that the envelope
//! schema needs.

use crate::codec::Encoding;
use crate::error::VercelError;
use crate::strmap::StrMap;
use vstd::prelude::*;

verus! {

/// A JSON value. An object keeps its members in document order.
#[derive(Debug, PartialEq)]
pub enum JsonValue {
    Null,
    Bool(bool),
    /// An integer given by its value.
    Integer(i64),
    /// A number as it was read from a text: its value where it is an
    /// integer of 64 bits, and its JSON text.
    Number(Option<i64>, String),
    Text(String),
    List(Vec<JsonValue>),
    Object(Vec<(String, JsonValue)>),
}

/// What a `JsonValue` holds.
pub enum JsonView {
    Null,
    Bool(bool),
    Integer(i64),
    Decimal(Seq<char>),
    Text(Seq<char>),
    List(Seq<JsonView>),
    Object(Seq<(Seq<char>, JsonView)>),
}

/// What a number read from a text stands for: the integer where it has a
/// value of 64 bits, else a decimal kept as its text.
pub open spec fn number_view(integer: Option<i64>, text: Seq<char>) -> JsonView {
    match integer {
        Some(i) => JsonView::Integer(i),
        None => JsonView::Decimal(text),
    }
}

/// What a value holds: the same scalars, and the views of the items of a
/// list and of the members of an object, in their order.
pub open spec fn document_view(value: JsonValue) -> JsonView
    decreases value,
{
    match value {
        JsonValue::Null => JsonView::Null,
        JsonValue::Bool(flag) => JsonView::Bool(flag),
        JsonValue::Integer(i) => JsonView::Integer(i),
        JsonValue::Number(integer, text) => number_view(integer, text@),
        JsonValue::Text(text) => JsonView::Text(text@),
        JsonValue::List(items) => JsonView::List(
            Seq::new(
                items@.len(),
                |i: int|
                    if 0 <= i < items@.len() {
                        document_view(items@[i])
                    } else {
                        JsonView::Null
                    },
            ),
        ),
        JsonValue::Object(fields) => JsonView::Object(
            Seq::new(
                fields@.len(),
                |i: int|
                    if 0 <= i < fields@.len() {
                        (fields@[i].0@, document_view(fields@[i].1))
                    } else {
                        (Seq::empty(), JsonView::Null)
                    },
            ),
        ),
    }
}

impl View for JsonValue {
    type V = JsonView;

    open spec fn view(&self) -> JsonView {
        document_view(*self)
    }
}

/// The view of an object holds the views of its members, in their order.
pub proof fn lemma_object_view(fields: Vec<(String, JsonValue)>)
    ensures
        JsonValue::Object(fields)@ is Object,
        JsonValue::Object(fields)@->Object_0.len() == fields@.len(),
        forall|j: int|
            0 <= j < fields@.len() ==> #[trigger] JsonValue::Object(fields)@->Object_0[j] == (
                fields@[j].0@,
                fields@[j].1@,
            ),
{
    reveal_with_fuel(document_view, 2);
}

/// The view of a list holds the views of its items, in their order.
pub proof fn lemma_list_view(items: Vec<JsonValue>)
    ensures
        JsonValue::List(items)@ is List,
        JsonValue::List(items)@->List_0.len() == items@.len(),
        forall|j: int|
            0 <= j < items@.len() ==> #[trigger] JsonValue::List(items)@->List_0[j] == items@[j]@,
{
    reveal_with_fuel(document_view, 2);
}

/// The serde_json value type, carried through opaquely.
#[verifier::external_type_specification]
#[verifier::external_body]
pub struct ExParsedValue(serde_json::Value);

/// The serde_json error type, carried through opaquely.
#[verifier::external_type_specification]
#[verifier::external_body]
pub struct ExParseError(serde_json::Error);

/// The document that a JSON text spells out, or `None` where the parser
/// does not accept the text.
pub uninterp spec fn parsed_document(text: Seq<char>) -> Option<JsonView>;

/// What a parsed `serde_json::Value` holds.
pub uninterp spec fn value_document(value: serde_json::Value) -> JsonView;

/// `serde_json::from_str` at the type `serde_json::Value`. Trusted: the
/// call succeeds exactly on the texts that the parser accepts, and what
/// the value holds depends on the text alone.
#[verifier::external_body]
pub(crate) fn parse_value(text: &str) -> (parsed: Result<serde_json::Value, serde_json::Error>)
    ensures
        match parsed {
            Ok(value) => parsed_document(text@) == Some(value_document(value)),
            Err(_) => parsed_document(text@) is None,
        },
{
    serde_json::from_str::<serde_json::Value>(text)
}

/// Reads a `serde_json::Value` variant by variant; a number is handed out
/// as what `Number::as_i64` and its `Display` give. Trusted: the document
/// holds what the value holds, the items of an array and the members of an
/// object in their order.
#[verifier::external_body]
pub(crate) fn document_of(value: &serde_json::Value) -> (doc: JsonValue)
    ensures
        doc@ == value_document(*value),
{
    match value {
        serde_json::Value::Null => JsonValue::Null,
        serde_json::Value::Bool(flag) => JsonValue::Bool(*flag),
        serde_json::Value::Number(n) => JsonValue::Number(n.as_i64(), n.to_string()),
        serde_json::Value::String(text) => JsonValue::Text(text.clone()),
        serde_json::Value::Array(items) => JsonValue::List(items.iter().map(document_of).collect()),
        serde_json::Value::Object(fields) => JsonValue::Object(
            fields.iter().map(|(name, item)| (name.clone(), document_of(item))).collect(),
        ),
    }
}

/// The value of the first member called `name`.
pub open spec fn member(fields: Seq<(Seq<char>, JsonView)>, name: Seq<char>) -> Option<JsonView>
    decreases fields.len(),
{
    if fields.len() == 0 {
        None
    } else {
        match member(fields.drop_last(), name) {
            Some(value) => Some(value),
            None => if fields.last().0 == name {
                Some(fields.last().1)
            } else {
                None
            },
        }
    }
}

/// The member `name` of a document; a document that is no object has none.
pub open spec fn member_of(doc: JsonView, name: Seq<char>) -> Option<JsonView> {
    match doc {
        JsonView::Object(fields) => member(fields, name),
        _ => None,
    }
}

/// What a borrowed optional value holds.
pub open spec fn held(value: Option<&JsonValue>) -> Option<JsonView> {
    match value {
        Some(v) => Some(v@),
        None => None,
    }
}

/// A member that must be present and a string.
pub open spec fn required_text(value: Option<JsonView>) -> Option<Seq<char>> {
    match value {
        Some(JsonView::Text(t)) => Some(t),
        _ => None,
    }
}

/// A member that may be missing or null, and is a string otherwise. The
/// outer `None` says that it is something else.
pub open spec fn optional_text(value: Option<JsonView>) -> Option<Option<Seq<char>>> {
    match value {
        None => Some(None),
        Some(JsonView::Null) => Some(None),
        Some(JsonView::Text(t)) => Some(Some(t)),
        _ => None,
    }
}

/// The encoding that an `encoding` member declares: base64 for `"base64"`
/// or `true`; text for `"text"`, `false`, null or no member at all.
pub open spec fn declared_encoding(value: Option<JsonView>) -> Option<Encoding> {
    match value {
        None => Some(Encoding::Text),
        Some(JsonView::Null) => Some(Encoding::Text),
        Some(JsonView::Bool(flag)) => Some(
            if flag {
                Encoding::Base64
            } else {
                Encoding::Text
            },
        ),
        Some(JsonView::Text(t)) => if t == "base64"@ {
            Some(Encoding::Base64)
        } else if t == "text"@ {
            Some(Encoding::Text)
        } else {
            None
        },
        _ => None,
    }
}

/// An object member as a string pair, where its value is a string.
pub open spec fn text_field(field: (Seq<char>, JsonView)) -> Option<(Seq<char>, Seq<char>)> {
    match field.1 {
        JsonView::Text(t) => Some((field.0, t)),
        _ => None,
    }
}

/// A list of exactly two strings as a string pair.
pub open spec fn text_pair(item: JsonView) -> Option<(Seq<char>, Seq<char>)> {
    match item {
        JsonView::List(parts) => if parts.len() == 2 {
            match (parts[0], parts[1]) {
                (JsonView::Text(a), JsonView::Text(b)) => Some((a, b)),
                _ => None,
            }
        } else {
            None
        },
        _ => None,
    }
}

/// The pairs of an object's members, in document order.
pub open spec fn field_pairs(fields: Seq<(Seq<char>, JsonView)>) -> Seq<(Seq<char>, Seq<char>)> {
    fields.map_values(|f: (Seq<char>, JsonView)| text_field(f).unwrap())
}

/// The pairs of a list's items, in document order.
pub open spec fn item_pairs(items: Seq<JsonView>) -> Seq<(Seq<char>, Seq<char>)> {
    items.map_values(|v: JsonView| text_pair(v).unwrap())
}

/// The string pairs that a `headers` or `query` member holds. A missing or
/// null member holds none. An object gives one pair for each member, a list
/// one pair for each item, in document order; every member must be a string
/// and every item a list of two strings.
pub open spec fn string_pairs(value: Option<JsonView>) -> Option<Seq<(Seq<char>, Seq<char>)>> {
    match value {
        None => Some(Seq::empty()),
        Some(JsonView::Null) => Some(Seq::empty()),
        Some(JsonView::Object(fields)) => if forall|i: int|
            0 <= i < fields.len() ==> (#[trigger] text_field(fields[i])) is Some {
            Some(field_pairs(fields))
        } else {
            None
        },
        Some(JsonView::List(items)) => if forall|i: int|
            0 <= i < items.len() ==> (#[trigger] text_pair(items[i])) is Some {
            Some(item_pairs(items))
        } else {
            None
        },
        _ => None,
    }
}

impl JsonValue {
    /// The document of a JSON text, or `None` where the parser does not
    /// accept the text.
    pub fn parse(text: &str) -> (doc: Option<JsonValue>)
        ensures
            match doc {
                Some(d) => parsed_document(text@) == Some(d@),
                None => parsed_document(text@) is None,
            },
    {
        match parse_value(text) {
            Ok(value) => Some(document_of(&value)),
            Err(_) => None,
        }
    }

    /// The value of a number that is an integer of 64 bits.
    pub fn as_integer(&self) -> (integer: Option<i64>)
        ensures
            integer == match self@ {
                JsonView::Integer(i) => Some(i),
                _ => None::<i64>,
            },
    {
        match self {
            JsonValue::Integer(i) => Some(*i),
            JsonValue::Number(Some(i), _) => Some(*i),
            _ => None,
        }
    }

    /// The text of a number that is no integer of 64 bits.
    pub fn decimal_text(&self) -> (text: Option<&str>)
        ensures
            match text {
                Some(t) => self@ == JsonView::Decimal(t@),
                None => !(self@ is Decimal),
            },
    {
        match self {
            JsonValue::Number(None, text) => Some(text.as_str()),
            _ => None,
        }
    }

    /// An object whose members are the given string pairs, in their order.
    pub fn object_of(pairs: &StrMap) -> (doc: JsonValue)
        ensures
            string_pairs(Some(doc@)) == Some(pairs@),
            doc@ is Object,
    {
        let mut fields: Vec<(String, JsonValue)> = Vec::new();
        let mut i: usize = 0;
        while i < pairs.len()
            invariant
                i <= pairs@.len(),
                fields@.len() == i,
                forall|j: int|
                    0 <= j < i ==> (#[trigger] fields@[j]).0@ == pairs@[j].0 && fields@[j].1@
                        == JsonView::Text(pairs@[j].1),
            decreases pairs@.len() - i,
        {
            if let Some((key, value)) = pairs.entry(i) {
                fields.push((key.to_owned(), JsonValue::Text(value.to_owned())));
            }
            i += 1;
        }
        let doc = JsonValue::Object(fields);
        proof {
            lemma_object_view(fields);
            let members = doc@->Object_0;
            assert forall|j: int| 0 <= j < members.len() implies (#[trigger] text_field(
                members[j],
            )) == Some(pairs@[j]) by {
                assert(members[j] == (fields@[j].0@, fields@[j].1@));
            }
            assert(field_pairs(members) =~= pairs@);
        }
        doc
    }

    /// The value of the first member called `name`, where this is an object
    /// that has one.
    pub fn get(&self, name: &str) -> (found: Option<&JsonValue>)
        ensures
            held(found) == member_of(self@, name@),
    {
        match self {
            JsonValue::Object(fields) => {
                let wanted = name.to_owned();
                let ghost members = self@->Object_0;
                proof {
                    lemma_object_view(*fields);
                }
                let mut found: Option<&JsonValue> = None;
                let mut i: usize = 0;
                while i < fields.len()
                    invariant
                        i <= fields.len(),
                        wanted@ == name@,
                        members.len() == fields@.len(),
                        forall|j: int|
                            0 <= j < members.len() ==> #[trigger] members[j] == (
                                fields@[j].0@,
                                fields@[j].1@,
                            ),
                        held(found) == member(members.take(i as int), name@),
                    decreases fields.len() - i,
                {
                    assert(members.take(i + 1).drop_last() =~= members.take(i as int));
                    assert(members.take(i + 1).last() == members[i as int]);
                    if found.is_none() && fields[i].0 == wanted {
                        found = Some(&fields[i].1);
                    }
                    i += 1;
                }
                assert(members.take(i as int) =~= members);
                found
            },
            _ => None,
        }
    }

    /// Reads a member that must be a string.
    pub fn read_text(value: Option<&JsonValue>) -> (r: Result<String, VercelError>)
        ensures
            match r {
                Ok(text) => required_text(held(value)) == Some(text@),
                Err(e) => e == VercelError::EnvelopeMalformed && required_text(held(value)) is None,
            },
    {
        match value {
            Some(JsonValue::Text(t)) => Ok(t.clone()),
            _ => Err(VercelError::EnvelopeMalformed),
        }
    }

    /// Reads a member that is a string where it is there at all.
    pub fn read_optional_text(value: Option<&JsonValue>) -> (r: Result<Option<String>, VercelError>)
        ensures
            match r {
                Ok(Some(text)) => optional_text(held(value)) == Some(Some(text@)),
                Ok(None) => optional_text(held(value)) == Some(None::<Seq<char>>),
                Err(e) => e == VercelError::EnvelopeMalformed && optional_text(held(value)) is None,
            },
    {
        match value {
            None => Ok(None),
            Some(JsonValue::Null) => Ok(None),
            Some(JsonValue::Text(t)) => Ok(Some(t.clone())),
            _ => Err(VercelError::EnvelopeMalformed),
        }
    }

    /// Reads an `encoding` member.
    pub fn read_encoding(value: Option<&JsonValue>) -> (r: Result<Encoding, VercelError>)
        ensures
            match r {
                Ok(encoding) => declared_encoding(held(value)) == Some(encoding),
                Err(e) => e == VercelError::EnvelopeMalformed && declared_encoding(held(value))
                    is None,
            },
    {
        match value {
            None => Ok(Encoding::Text),
            Some(JsonValue::Null) => Ok(Encoding::Text),
            Some(JsonValue::Bool(flag)) => if *flag {
                Ok(Encoding::Base64)
            } else {
                Ok(Encoding::Text)
            },
            Some(JsonValue::Text(t)) => {
                let base64_name = "base64".to_owned();
                let text_name = "text".to_owned();
                if *t == base64_name {
                    Ok(Encoding::Base64)
                } else if *t == text_name {
                    Ok(Encoding::Text)
                } else {
                    Err(VercelError::EnvelopeMalformed)
                }
            },
            _ => Err(VercelError::EnvelopeMalformed),
        }
    }

    /// Reads a `headers` or `query` member into a map, keeping the order of
    /// the document and every repetition of a key.
    pub fn read_pairs(value: Option<&JsonValue>) -> (r: Result<StrMap, VercelError>)
        ensures
            match r {
                Ok(pairs) => string_pairs(held(value)) == Some(pairs@),
                Err(e) => e == VercelError::EnvelopeMalformed && string_pairs(held(value)) is None,
            },
    {
        let mut pairs = StrMap::new();
        match value {
            None => Ok(pairs),
            Some(JsonValue::Null) => Ok(pairs),
            Some(JsonValue::Object(fields)) => {
                let ghost members = held(value)->Some_0->Object_0;
                proof {
                    lemma_object_view(*fields);
                }
                let mut i: usize = 0;
                while i < fields.len()
                    invariant
                        i <= fields.len(),
                        held(value) == Some(JsonView::Object(members)),
                        members.len() == fields@.len(),
                        forall|j: int|
                            0 <= j < members.len() ==> #[trigger] members[j] == (
                                fields@[j].0@,
                                fields@[j].1@,
                            ),
                        forall|j: int| 0 <= j < i ==> (#[trigger] text_field(members[j])) is Some,
                        pairs@ == field_pairs(members.take(i as int)),
                    decreases fields.len() - i,
                {
                    match &fields[i].1 {
                        JsonValue::Text(t) => {
                            pairs.insert(fields[i].0.clone(), t.clone());
                            assert(text_field(members[i as int]) == Some((fields@[i as int].0@, t@)));
                            assert(pairs@ =~= field_pairs(members.take(i + 1)));
                        },
                        _ => {
                            assert(text_field(members[i as int]) is None);
                            return Err(VercelError::EnvelopeMalformed);
                        },
                    }
                    i += 1;
                }
                assert(members.take(i as int) =~= members);
                Ok(pairs)
            },
            Some(JsonValue::List(items)) => {
                let ghost listed = held(value)->Some_0->List_0;
                proof {
                    lemma_list_view(*items);
                }
                let mut i: usize = 0;
                while i < items.len()
                    invariant
                        i <= items.len(),
                        held(value) == Some(JsonView::List(listed)),
                        listed.len() == items@.len(),
                        forall|j: int| 0 <= j < listed.len() ==> #[trigger] listed[j] == items@[j]@,
                        forall|j: int| 0 <= j < i ==> (#[trigger] text_pair(listed[j])) is Some,
                        pairs@ == item_pairs(listed.take(i as int)),
                    decreases items.len() - i,
                {
                    match &items[i] {
                        JsonValue::List(parts) => {
                            let ghost inner = items@[i as int]@->List_0;
                            proof {
                                lemma_list_view(*parts);
                            }
                            assert(inner.len() == parts@.len());
                            if parts.len() != 2 {
                                assert(text_pair(listed[i as int]) is None);
                                return Err(VercelError::EnvelopeMalformed);
                            }
                            assert(inner[0] == parts@[0]@ && inner[1] == parts@[1]@);
                            match (&parts[0], &parts[1]) {
                                (JsonValue::Text(a), JsonValue::Text(b)) => {
                                    pairs.insert(a.clone(), b.clone());
                                    assert(text_pair(listed[i as int]) == Some((a@, b@)));
                                    assert(pairs@ =~= item_pairs(listed.take(i + 1)));
                                },
                                _ => {
                                    assert(text_pair(listed[i as int]) is None);
                                    return Err(VercelError::EnvelopeMalformed);
                                },
                            }
                        },
                        _ => {
                            assert(text_pair(listed[i as int]) is None);
                            return Err(VercelError::EnvelopeMalformed);
                        },
                    }
                    i += 1;
                }
                assert(listed.take(i as int) =~= listed);
                Ok(pairs)
            },
            _ => Err(VercelError::EnvelopeMalformed),
        }
    }
}

} // verus!
