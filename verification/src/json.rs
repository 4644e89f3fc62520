//! One level of a JSON document: the members of its root object, each with
//! the readings the client needs, and deeper values kept as JSON text.

use vstd::prelude::*;
use crate::text::same_text;

verus! {

/// A member's value, read three ways.
#[derive(Debug, Clone)]
pub struct JsonField {
    /// The characters, when the value is a JSON string.
    pub text: Option<String>,
    /// The number, when the value is a non-negative integer that fits.
    pub unsigned: Option<u64>,
    /// The value written out as JSON.
    pub raw: String,
}

/// Mathematical counterpart of [`JsonField`].
pub struct JsonFieldView {
    pub text: Option<Seq<char>>,
    pub unsigned: Option<u64>,
    pub raw: Seq<char>,
}

impl View for JsonField {
    type V = JsonFieldView;

    open spec fn view(&self) -> JsonFieldView {
        JsonFieldView { text: self.text.deep_view(), unsigned: self.unsigned, raw: self.raw@ }
    }
}

/// A parsed JSON document.
#[derive(Debug, Clone)]
pub struct JsonDocument {
    /// The members as the parser keeps them, when the root is an object:
    /// in the order of the text, a repeated name once, with its last value.
    pub members: Option<Vec<(String, JsonField)>>,
    /// The whole document written out as JSON.
    pub raw: String,
}

/// Mathematical counterpart of [`JsonDocument`].
pub struct JsonDocumentView {
    pub members: Option<Seq<(Seq<char>, JsonFieldView)>>,
    pub raw: Seq<char>,
}

/// The members as named views, in order.
pub open spec fn members_view(members: Seq<(String, JsonField)>) -> Seq<(Seq<char>, JsonFieldView)> {
    Seq::new(members.len(), |i: int| (members[i].0@, members[i].1@))
}

impl View for JsonDocument {
    type V = JsonDocumentView;

    open spec fn view(&self) -> JsonDocumentView {
        JsonDocumentView {
            members: match self.members {
                Some(members) => Some(members_view(members@)),
                None => None,
            },
            raw: self.raw@,
        }
    }
}

/// The first member with the given name.
pub open spec fn member_named(members: Seq<(Seq<char>, JsonFieldView)>, name: Seq<char>) -> Option<
    JsonFieldView,
>
    decreases members.len(),
{
    if members.len() == 0 {
        None
    } else if members[0].0 == name {
        Some(members[0].1)
    } else {
        member_named(members.skip(1), name)
    }
}

impl JsonDocumentView {
    /// The document that holds the JSON value null.
    pub open spec fn null() -> JsonDocumentView {
        JsonDocumentView { members: None, raw: "null"@ }
    }

    /// The first member of the root object with the given name; none when
    /// the root is no object.
    pub open spec fn member(self, name: Seq<char>) -> Option<JsonFieldView> {
        match self.members {
            Some(members) => member_named(members, name),
            None => None,
        }
    }

    /// The characters of the named member when it is a JSON string.
    pub open spec fn text_of(self, name: Seq<char>) -> Option<Seq<char>> {
        match self.member(name) {
            Some(field) => field.text,
            None => None,
        }
    }

    /// The number held by the named member when it is an unsigned integer.
    pub open spec fn unsigned_of(self, name: Seq<char>) -> Option<u64> {
        match self.member(name) {
            Some(field) => field.unsigned,
            None => None,
        }
    }

    /// The JSON text of the named member.
    pub open spec fn raw_of(self, name: Seq<char>) -> Option<Seq<char>> {
        match self.member(name) {
            Some(field) => Some(field.raw),
            None => None,
        }
    }
}

impl JsonDocument {
    /// The first member of the root object with the given name.
    pub fn get(&self, name: &str) -> (r: Option<&JsonField>)
        ensures
            match r {
                Some(field) => self@.member(name@) == Some(field@),
                None => self@.member(name@) is None,
            },
    {
        match &self.members {
            None => None,
            Some(members) => {
                let ghost all = members_view(members@);
                let mut i: usize = 0;
                proof {
                    assert(all.skip(0) =~= all);
                }
                while i < members.len()
                    invariant
                        i <= members.len(),
                        all == members_view(members@),
                        self.members == Some(*members),
                        member_named(all, name@) == member_named(all.skip(i as int), name@),
                    decreases members.len() - i,
                {
                    proof {
                        assert(all.skip(i as int).skip(1) =~= all.skip(i as int + 1));
                        assert(all.skip(i as int)[0] == all[i as int]);
                        assert(all[i as int] == (members@[i as int].0@, members@[i as int].1@));
                    }
                    if same_text(members[i].0.as_str(), name) {
                        return Some(&members[i].1);
                    }
                    i += 1;
                }
                None
            },
        }
    }

    /// The characters of the named member when it is a JSON string.
    pub fn text_of(&self, name: &str) -> (r: Option<String>)
        ensures
            r.deep_view() == self@.text_of(name@),
    {
        match self.get(name) {
            Some(field) => field.text.clone(),
            None => None,
        }
    }

    /// The number held by the named member when it is an unsigned integer.
    pub fn unsigned_of(&self, name: &str) -> (r: Option<u64>)
        ensures
            r == self@.unsigned_of(name@),
    {
        match self.get(name) {
            Some(field) => field.unsigned,
            None => None,
        }
    }

    /// The JSON text of the named member.
    pub fn raw_of(&self, name: &str) -> (r: Option<String>)
        ensures
            r.deep_view() == self@.raw_of(name@),
    {
        match self.get(name) {
            Some(field) => Some(field.raw.clone()),
            None => None,
        }
    }
}

/// What a text holds when read as JSON, or the parser's complaint.
pub uninterp spec fn json_document(text: Seq<char>) -> Result<JsonDocumentView, Seq<char>>;

/// What reading the text `null` gives.
pub open spec fn null_read() -> Result<JsonDocumentView, Seq<char>> {
    Ok(JsonDocumentView::null())
}

/// The view of a document or of the parser's complaint.
pub open spec fn document_result_view(r: Result<JsonDocument, String>) -> Result<
    JsonDocumentView,
    Seq<char>,
> {
    match r {
        Ok(d) => Ok(d@),
        Err(e) => Err(e@),
    }
}

/// Reads a text with `serde_json::from_str` as a `serde_json::Value`. On
/// success the members of a root object are copied in the order in which
/// its map yields them, each with what `Value::as_str`, `Value::as_u64`
/// and `Value::to_string` give for it, beside what `Value::to_string`
/// gives for the whole; on failure the text of the parser's error is
/// handed back. The claim is that equal texts give equal results, and
/// that the text `null` is read as the JSON value null, which has no
/// members and is written `null`.
#[verifier::external_body]
pub(crate) fn parse_json(text: &str) -> (r: Result<JsonDocument, String>)
    ensures
        document_result_view(r) == json_document(text@),
        text@ == "null"@ ==> document_result_view(r) == null_read(),
{
    match serde_json::from_str::<serde_json::Value>(text) {
        Err(e) => Err(e.to_string()),
        Ok(value) => Ok(JsonDocument {
            members: value.as_object().map(|object| object.iter().map(|(name, member)| (
                name.clone(),
                JsonField {
                    text: member.as_str().map(String::from),
                    unsigned: member.as_u64(),
                    raw: member.to_string(),
                },
            )).collect()),
            raw: value.to_string(),
        }),
    }
}

/// A list of texts written as a JSON array of strings.
pub uninterp spec fn json_list_of(items: Seq<Seq<char>>) -> Seq<char>;

/// Writes a list of texts as a JSON array, by `Display` of the
/// `serde_json::Value` that `Value::from` makes of the list. The claim is
/// only that equal lists give equal results.
#[verifier::external_body]
pub(crate) fn json_list(items: &Vec<String>) -> (r: String)
    ensures
        r@ == json_list_of(items.deep_view()),
{
    serde_json::Value::from(items.clone()).to_string()
}

/// A text written as a JSON string: quoted, with the escapes JSON asks
/// for.
pub uninterp spec fn json_string_of(text: Seq<char>) -> Seq<char>;

/// Writes a text as a JSON string, by `Display` of
/// `serde_json::Value::String`. The claim is only that equal texts give
/// equal results.
#[verifier::external_body]
pub(crate) fn json_string(text: &str) -> (r: String)
    ensures
        r@ == json_string_of(text@),
{
    serde_json::Value::String(text.to_string()).to_string()
}

} // verus!
