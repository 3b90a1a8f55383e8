//! JSON objects as the decoders see them, and the reading of one from text.

use crate::text::text_view;
use crate::DecodeError;
use vstd::prelude::*;

verus! {

/// The value of one member of a JSON object, as far as a decoder here reads
/// it. The payloads of the service are flat: a decoder looks at texts, at
/// booleans and at `null`. Of a number, an array or a nested object it only
/// needs to know that it is none of these, so their contents are not kept.
#[derive(Debug, PartialEq, Eq)]
pub enum JsonValue {
    Null,
    Bool(bool),
    Number,
    Text(String),
    Array,
    Object,
}

/// What a [`JsonValue`] stands for.
pub enum JsonValueView {
    Null,
    Bool(bool),
    Number,
    Text(Seq<char>),
    Array,
    Object,
}

impl View for JsonValue {
    type V = JsonValueView;

    open spec fn view(&self) -> JsonValueView {
        match self {
            JsonValue::Null => JsonValueView::Null,
            JsonValue::Bool(flag) => JsonValueView::Bool(*flag),
            JsonValue::Number => JsonValueView::Number,
            JsonValue::Text(text) => JsonValueView::Text(text@),
            JsonValue::Array => JsonValueView::Array,
            JsonValue::Object => JsonValueView::Object,
        }
    }
}

/// The members of a JSON object, by name.
pub type Members = Map<Seq<char>, JsonValueView>;

/// The object that a list of named values writes down. Where a name occurs
/// more than once, its first occurrence counts.
pub open spec fn members_of(list: Seq<(String, JsonValue)>) -> Members
    decreases list.len(),
{
    if list.len() == 0 {
        Map::empty()
    } else {
        members_of(list.drop_first()).insert(list[0].0@, list[0].1@)
    }
}

/// A JSON object, one level deep.
#[derive(Debug, PartialEq, Eq)]
pub struct JsonDocument {
    pub members: Vec<(String, JsonValue)>,
}

impl View for JsonDocument {
    type V = Members;

    open spec fn view(&self) -> Members {
        members_of(self.members@)
    }
}

/// What `serde_json` reads in `body` when it is asked for one JSON object:
/// the members of the object by name, or `None` where it refuses the body.
pub uninterp spec fn json_object(body: Seq<u8>) -> Option<Members>;

/// `serde_json::Error`, the parser's account of why it refused a body. It is
/// passed on as it is; nothing of it is read.
#[verifier::external_type_specification]
#[verifier::external_body]
pub struct ExJsonError(serde_json::Error);

/// `serde_json::from_slice`, asked for a `serde_json::Map`, whose entries are
/// then handed out one by one, each value reduced to a [`JsonValue`] by its
/// variant. Nothing is claimed of what the parser accepts or reads, only
/// that it depends on the bytes alone: `json_object` names it.
#[verifier::external_body]
fn read_object(body: &[u8]) -> (read: Result<Vec<(String, JsonValue)>, serde_json::Error>)
    ensures
        match read {
            Ok(members) => json_object(body@) == Some(members_of(members@)),
            Err(_) => json_object(body@) is None,
        },
{
    let object: serde_json::Map<String, serde_json::Value> = serde_json::from_slice(body)?;
    Ok(object.into_iter().map(|(name, value)| (name, match value {
        serde_json::Value::Null => JsonValue::Null,
        serde_json::Value::Bool(flag) => JsonValue::Bool(flag),
        serde_json::Value::Number(_) => JsonValue::Number,
        serde_json::Value::String(text) => JsonValue::Text(text),
        serde_json::Value::Array(_) => JsonValue::Array,
        serde_json::Value::Object(_) => JsonValue::Object,
    })).collect())
}

/// A name that the list holds has, in the object, the value of its first
/// occurrence.
proof fn lemma_first_occurrence(list: Seq<(String, JsonValue)>, name: Seq<char>, at: int)
    requires
        0 <= at < list.len(),
        list[at].0@ == name,
        forall|j: int| 0 <= j < at ==> list[j].0@ != name,
    ensures
        members_of(list).contains_key(name),
        members_of(list)[name] == list[at].1@,
    decreases list.len(),
{
    if at > 0 {
        let rest = list.drop_first();
        assert(rest[at - 1] == list[at]);
        assert forall|j: int| 0 <= j < at - 1 implies rest[j].0@ != name by {
            assert(rest[j] == list[j + 1]);
        }
        lemma_first_occurrence(rest, name, at - 1);
    }
}

/// A name that the list does not hold is no member of the object.
proof fn lemma_no_occurrence(list: Seq<(String, JsonValue)>, name: Seq<char>)
    requires
        forall|j: int| 0 <= j < list.len() ==> list[j].0@ != name,
    ensures
        !members_of(list).contains_key(name),
    decreases list.len(),
{
    if list.len() > 0 {
        let rest = list.drop_first();
        assert forall|j: int| 0 <= j < rest.len() implies rest[j].0@ != name by {
            assert(rest[j] == list[j + 1]);
        }
        lemma_no_occurrence(rest, name);
    }
}

/// The text of a member that must be there and be a text.
pub open spec fn required_text(object: Members, name: Seq<char>) -> Option<Seq<char>> {
    if object.contains_key(name) && object[name] is Text {
        Some(object[name]->Text_0)
    } else {
        None
    }
}

/// The boolean of a member that must be there and be a boolean.
pub open spec fn required_flag(object: Members, name: Seq<char>) -> Option<bool> {
    if object.contains_key(name) && object[name] is Bool {
        Some(object[name]->Bool_0)
    } else {
        None
    }
}

/// The text of a member that may be missing or `null`: `Some(None)` for
/// either, `Some(Some(..))` for a text, and `None` where the member is there
/// and is neither `null` nor a text.
pub open spec fn optional_text(object: Members, name: Seq<char>) -> Option<Option<Seq<char>>> {
    if !object.contains_key(name) || object[name] is Null {
        Some(None)
    } else if object[name] is Text {
        Some(Some(object[name]->Text_0))
    } else {
        None
    }
}

impl JsonDocument {
    /// The value of the member `name`, if the object has one.
    pub fn get(&self, name: &str) -> (found: Option<&JsonValue>)
        ensures
            match found {
                Some(value) => self@.contains_key(name@) && self@[name@] == value@,
                None => !self@.contains_key(name@),
            },
    {
        let mut at: usize = 0;
        while at < self.members.len()
            invariant
                at <= self.members.len(),
                forall|j: int| 0 <= j < at ==> self.members@[j].0@ != name@,
            decreases self.members.len() - at,
        {
            if self.members[at].0.as_str().eq(name) {
                proof {
                    lemma_first_occurrence(self.members@, name@, at as int);
                }
                return Some(&self.members[at].1);
            }
            at = at + 1;
        }
        proof {
            lemma_no_occurrence(self.members@, name@);
        }
        None
    }

    /// Reads a member that must be a text.
    pub fn required_text(&self, name: &str) -> (text: Option<String>)
        ensures
            text_view(text) == required_text(self@, name@),
    {
        match self.get(name) {
            Some(JsonValue::Text(text)) => Some(text.clone()),
            _ => None,
        }
    }

    /// Reads a member that must be a boolean.
    pub fn required_flag(&self, name: &str) -> (flag: Option<bool>)
        ensures
            flag == required_flag(self@, name@),
    {
        match self.get(name) {
            Some(JsonValue::Bool(flag)) => Some(*flag),
            _ => None,
        }
    }

    /// Reads a member that may be missing or `null`, and is a text otherwise.
    pub fn optional_text(&self, name: &str) -> (text: Option<Option<String>>)
        ensures
            match text {
                Some(text) => optional_text(self@, name@) == Some(text_view(text)),
                None => optional_text(self@, name@) is None,
            },
    {
        match self.get(name) {
            None => Some(None),
            Some(JsonValue::Null) => Some(None),
            Some(JsonValue::Text(text)) => Some(Some(text.clone())),
            Some(_) => None,
        }
    }

    /// Reads the text of a JSON object. Whatever the parser refuses is
    /// `NotAnObject`.
    pub fn parse(body: &[u8]) -> (document: Result<JsonDocument, DecodeError>)
        ensures
            match document {
                Ok(document) => json_object(body@) == Some(document@),
                Err(error) => json_object(body@) is None && error == DecodeError::NotAnObject,
            },
    {
        match read_object(body) {
            Ok(members) => Ok(JsonDocument { members }),
            Err(_) => Err(DecodeError::NotAnObject),
        }
    }
}

} // verus!
