//! JSON as the session reads and writes it: flat objects whose members are
//! strings, numbers and booleans.
//!
//! Parsing and the quoting of strings are the work of `serde_json`. A parsed
//! document is kept as `serde_json::Value` and read member by member; what
//! the contracts know of it is the map from member names to scalar values
//! that [`json_members`] names.

use vstd::prelude::*;

verus! {

/// `serde_json::Value`, a parsed JSON text. Verus sees nothing inside it.
#[verifier::external_type_specification]
#[verifier::external_body]
pub struct ExValue(serde_json::Value);

/// One member of a JSON object, as far as the session looks at it.
#[derive(Debug)]
pub enum JsonField {
    Null,
    Bool(bool),
    /// A number that is a non-negative integer below 2^64.
    Number(u64),
    Text(String),
    /// Any other number, an array or an object.
    Other,
}

/// The mathematical content of a [`JsonField`].
pub ghost enum JsonFieldView {
    Null,
    Bool(bool),
    Number(u64),
    Text(Seq<char>),
    Other,
}

impl View for JsonField {
    type V = JsonFieldView;

    open spec fn view(&self) -> JsonFieldView {
        match self {
            JsonField::Null => JsonFieldView::Null,
            JsonField::Bool(b) => JsonFieldView::Bool(*b),
            JsonField::Number(n) => JsonFieldView::Number(*n),
            JsonField::Text(s) => JsonFieldView::Text(s@),
            JsonField::Other => JsonFieldView::Other,
        }
    }
}

/// The members of an object, by name.
pub type Members = Map<Seq<char>, JsonFieldView>;

/// The members of a parsed value: those of the object where it is one, none
/// where it is anything else.
pub uninterp spec fn json_members(value: serde_json::Value) -> Map<Seq<char>, JsonFieldView>;

/// The members of the value that a text parses to as JSON; `None` where the
/// text is not one JSON value.
pub uninterp spec fn json_document(text: Seq<char>) -> Option<Map<Seq<char>, JsonFieldView>>;

/// The JSON string literal for a text: quoted, with the escapes that JSON
/// asks for.
pub uninterp spec fn json_string_literal(text: Seq<char>) -> Seq<char>;

/// The member of the given name, if there is one.
pub open spec fn member(members: Members, name: Seq<char>) -> Option<JsonFieldView> {
    if members.contains_key(name) {
        Some(members[name])
    } else {
        None
    }
}

/// The text of a member that is a string.
pub open spec fn text_member(members: Members, name: Seq<char>) -> Option<Seq<char>> {
    match member(members, name) {
        Some(JsonFieldView::Text(text)) => Some(text),
        _ => None,
    }
}

/// The value of a member that is a number of 32 bits.
pub open spec fn u32_member(members: Members, name: Seq<char>) -> Option<u32> {
    match member(members, name) {
        Some(JsonFieldView::Number(n)) => if n <= u32::MAX {
            Some(n as u32)
        } else {
            None
        },
        _ => None,
    }
}

/// The text of a member that may be left out: `Some(None)` where it is
/// absent or null, `Some(Some(..))` where it is a string, `None` where it
/// is anything else.
pub open spec fn optional_text_member(members: Members, name: Seq<char>) -> Option<
    Option<Seq<char>>,
> {
    match member(members, name) {
        None => Some(None),
        Some(JsonFieldView::Null) => Some(None),
        Some(JsonFieldView::Text(text)) => Some(Some(text)),
        _ => None,
    }
}

/// The view of an optional field.
pub open spec fn field_view(r: Option<JsonField>) -> Option<JsonFieldView> {
    match r {
        Some(field) => Some(field@),
        None => None,
    }
}

/// The view of an optional text.
pub open spec fn text_view(r: Option<String>) -> Option<Seq<char>> {
    match r {
        Some(text) => Some(text@),
        None => None,
    }
}

/// A copy of an optional text.
pub fn clone_text(text: &Option<String>) -> (r: Option<String>)
    ensures
        text_view(r) == text_view(*text),
{
    match text {
        Some(text) => Some(text.clone()),
        None => None,
    }
}

/// The view of an optional text that was looked for and may have been
/// malformed.
pub open spec fn optional_text_view(r: Option<Option<String>>) -> Option<Option<Seq<char>>> {
    match r {
        Some(text) => Some(text_view(text)),
        None => None,
    }
}

/// Runs `serde_json::from_str` for a `serde_json::Value`.
///
/// Trusted: parsing is a function of the text, the one that
/// [`json_document`] names; a value comes back exactly where the text is
/// one JSON value, and its members are those that the name gives.
#[verifier::external_body]
fn parse_value(text: &str) -> (r: Option<serde_json::Value>)
    ensures
        match r {
            Some(value) => json_document(text@) == Some(json_members(value)),
            None => json_document(text@) is None,
        },
{
    serde_json::from_str::<serde_json::Value>(text).ok()
}

/// Runs `serde_json::Value::get` with a member name and tells the variants
/// of what it finds apart.
///
/// Trusted: the result is the member that [`json_members`] holds under the
/// name. `get` finds nothing in a value that is no object.
#[verifier::external_body]
fn value_member(value: &serde_json::Value, name: &str) -> (r: Option<JsonField>)
    ensures
        field_view(r) == member(json_members(*value), name@),
{
    match value.get(name)? {
        serde_json::Value::Null => Some(JsonField::Null),
        serde_json::Value::Bool(b) => Some(JsonField::Bool(*b)),
        serde_json::Value::Number(n) => {
            Some(n.as_u64().map_or(JsonField::Other, JsonField::Number))
        },
        serde_json::Value::String(s) => Some(JsonField::Text(s.clone())),
        serde_json::Value::Array(_) => Some(JsonField::Other),
        serde_json::Value::Object(_) => Some(JsonField::Other),
    }
}

/// Writes a text as `serde_json` writes a `Value::String`.
///
/// Trusted: the result is the literal that [`json_string_literal`] names.
#[verifier::external_body]
fn quote(text: &str) -> (r: String)
    ensures
        r@ == json_string_literal(text@),
{
    serde_json::Value::String(text.to_owned()).to_string()
}

/// A parsed JSON text.
pub struct JsonDocument {
    value: serde_json::Value,
}

impl View for JsonDocument {
    type V = Map<Seq<char>, JsonFieldView>;

    closed spec fn view(&self) -> Map<Seq<char>, JsonFieldView> {
        json_members(self.value)
    }
}

/// The view of an optional document.
pub open spec fn document_view(r: Option<JsonDocument>) -> Option<Members> {
    match r {
        Some(document) => Some(document@),
        None => None,
    }
}

impl JsonDocument {
    /// Parses a text; `None` where it is not one JSON value.
    pub fn parse(text: &str) -> (r: Option<JsonDocument>)
        ensures
            document_view(r) == json_document(text@),
    {
        match parse_value(text) {
            Some(value) => Some(JsonDocument { value }),
            None => None,
        }
    }

    /// The member of the given name.
    pub fn get(&self, name: &str) -> (r: Option<JsonField>)
        ensures
            field_view(r) == member(self@, name@),
    {
        value_member(&self.value, name)
    }

    /// The text of a member that is a string.
    pub fn text(&self, name: &str) -> (r: Option<String>)
        ensures
            text_view(r) == text_member(self@, name@),
    {
        match self.get(name) {
            Some(JsonField::Text(text)) => Some(text),
            _ => None,
        }
    }

    /// The value of a member that is a number of 32 bits.
    pub fn number(&self, name: &str) -> (r: Option<u32>)
        ensures
            r == u32_member(self@, name@),
    {
        match self.get(name) {
            Some(JsonField::Number(n)) => if n <= u32::MAX as u64 {
                Some(n as u32)
            } else {
                None
            },
            _ => None,
        }
    }

    /// The text of a member that may be left out.
    pub fn optional_text(&self, name: &str) -> (r: Option<Option<String>>)
        ensures
            optional_text_view(r) == optional_text_member(self@, name@),
    {
        match self.get(name) {
            None => Some(None),
            Some(JsonField::Null) => Some(None),
            Some(JsonField::Text(text)) => Some(Some(text)),
            _ => None,
        }
    }
}

/// The text of a boolean.
pub open spec fn flag_text(flag: bool) -> Seq<char> {
    if flag {
        "true"@
    } else {
        "false"@
    }
}

/// An object under construction with one more member: a comma unless the
/// member is the first, the name as a string literal, a colon, the value.
pub open spec fn with_member(out: Seq<char>, first: bool, name: Seq<char>, value: Seq<char>) -> Seq<
    char,
> {
    out + (if first {
        Seq::<char>::empty()
    } else {
        ","@
    }) + json_string_literal(name) + ":"@ + value
}

/// Appends a member whose value is already JSON text.
pub fn push_member(out: &mut String, first: bool, name: &str, value: &str)
    ensures
        final(out)@ == with_member(old(out)@, first, name@, value@),
{
    if !first {
        out.append(",");
    }
    let quoted_name = quote(name);
    out.append(quoted_name.as_str());
    out.append(":");
    out.append(value);
    proof {
        if first {
            assert(old(out)@ + Seq::<char>::empty() =~= old(out)@);
        }
    }
}

/// Appends a member whose value is a string.
pub fn push_text_member(out: &mut String, first: bool, name: &str, text: &str)
    ensures
        final(out)@ == with_member(old(out)@, first, name@, json_string_literal(text@)),
{
    let quoted_text = quote(text);
    push_member(out, first, name, quoted_text.as_str());
}

/// Appends a member whose value is a boolean.
pub fn push_flag_member(out: &mut String, first: bool, name: &str, flag: bool)
    ensures
        final(out)@ == with_member(old(out)@, first, name@, flag_text(flag)),
{
    if flag {
        push_member(out, first, name, "true");
    } else {
        push_member(out, first, name, "false");
    }
}

} // verus!
