use vstd::prelude::*;

use serde_json::Value;

use crate::text::{bool_text, bool_to_text, integer_text, integer_to_text};

verus! {

/// A value looked up by key in a JSON document, as the lookup uses it.
#[derive(Debug)]
pub enum JsonField {
    /// The document is not an object, or the key is absent.
    Missing,
    /// The value is `null`.
    Null,
    /// A string.
    Text(String),
    /// A number: its value as an `i64` where it has one, and its value as
    /// an `f64` written as text where it has one.
    Number(Option<i64>, Option<String>),
    /// `true` or `false`.
    Boolean(bool),
    /// An array or an object, written in its debug form.
    Rendered(String),
}

/// What a looked-up value holds, with its text as character sequences.
pub enum JsonFieldView {
    Missing,
    Null,
    Text(Seq<char>),
    Number(Option<i64>, Option<Seq<char>>),
    Boolean(bool),
    Rendered(Seq<char>),
}

/// The view of an optional text.
pub open spec fn opt_text_view(t: Option<String>) -> Option<Seq<char>> {
    match t {
        Some(s) => Some(s@),
        None => None,
    }
}

impl View for JsonField {
    type V = JsonFieldView;

    open spec fn view(&self) -> JsonFieldView {
        match self {
            JsonField::Missing => JsonFieldView::Missing,
            JsonField::Null => JsonFieldView::Null,
            JsonField::Text(s) => JsonFieldView::Text(s@),
            JsonField::Number(i, f) => JsonFieldView::Number(*i, opt_text_view(*f)),
            JsonField::Boolean(b) => JsonFieldView::Boolean(*b),
            JsonField::Rendered(s) => JsonFieldView::Rendered(s@),
        }
    }
}

/// Why a looked-up value has no text.
#[derive(Debug, PartialEq, Eq, Structural)]
pub enum FieldError {
    /// The text is not a JSON document.
    NotJson,
    /// The key is absent.
    Missing,
    /// The value is `null`.
    Null,
    /// The number has no text form.
    Unrenderable,
}

/// The value under `key` in the JSON document `text`, as serde_json parses
/// the document into a `Value` and looks the key up; `None` when `text` is
/// not a JSON document.
pub uninterp spec fn json_field_at(text: Seq<char>, key: Seq<char>) -> Option<JsonFieldView>;

/// Parses `text` as JSON and looks up `key`.
///
/// Calls `serde_json::from_str::<Value>` and `Value::get`, and converts the
/// value found, one arm per `Value` variant: a number to its `Number::as_i64`
/// and its `Number::as_f64` written by `f64::to_string` (floats have no
/// place in the library), an array or object to its `Debug` form. The result
/// is named by `json_field_at` and depends on the two arguments alone.
#[verifier::external_body]
fn lookup_json_field(text: &str, key: &str) -> (res: Option<JsonField>)
    ensures
        match res {
            Some(field) => json_field_at(text@, key@) == Some(field@),
            None => json_field_at(text@, key@) is None,
        },
{
    let document: Value = serde_json::from_str(text).ok()?;
    Some(match document.get(key) {
        None => JsonField::Missing,
        Some(Value::Null) => JsonField::Null,
        Some(Value::String(s)) => JsonField::Text(s.clone()),
        Some(Value::Number(n)) => JsonField::Number(n.as_i64(), n.as_f64().map(|f| f.to_string())),
        Some(Value::Bool(b)) => JsonField::Boolean(*b),
        Some(Value::Array(a)) => JsonField::Rendered(format!("{:?}", a)),
        Some(Value::Object(o)) => JsonField::Rendered(format!("{:?}", o)),
    })
}

/// The text of a looked-up value: a string as it is; a number in decimal
/// when it is an `i64`, else as its `f64` text, else none; a boolean as
/// `true` or `false`; an array or object in its written form.
pub open spec fn field_text_of(field: JsonFieldView) -> Result<Seq<char>, FieldError> {
    match field {
        JsonFieldView::Missing => Err(FieldError::Missing),
        JsonFieldView::Null => Err(FieldError::Null),
        JsonFieldView::Text(s) => Ok(s),
        JsonFieldView::Number(Some(n), _) => Ok(integer_text(n as int)),
        JsonFieldView::Number(None, Some(f)) => Ok(f),
        JsonFieldView::Number(None, None) => Err(FieldError::Unrenderable),
        JsonFieldView::Boolean(b) => Ok(bool_text(b)),
        JsonFieldView::Rendered(s) => Ok(s),
    }
}

/// The text of a looked-up value, or why it has none.
pub fn field_text(field: &JsonField) -> (res: Result<String, FieldError>)
    ensures
        match res {
            Ok(s) => field_text_of(field@) == Ok::<Seq<char>, FieldError>(s@),
            Err(e) => field_text_of(field@) == Err::<Seq<char>, FieldError>(e),
        },
{
    match field {
        JsonField::Missing => Err(FieldError::Missing),
        JsonField::Null => Err(FieldError::Null),
        JsonField::Text(s) => Ok(s.clone()),
        JsonField::Number(Some(n), _) => Ok(integer_to_text(*n)),
        JsonField::Number(None, Some(f)) => Ok(f.clone()),
        JsonField::Number(None, None) => Err(FieldError::Unrenderable),
        JsonField::Boolean(b) => Ok(bool_to_text(*b)),
        JsonField::Rendered(s) => Ok(s.clone()),
    }
}

/// The text of the value under `key` in the JSON document `text`: an error
/// when `text` is not JSON, else what `field_text` gives of the value found.
pub fn json_text_at(text: &str, key: &str) -> (res: Result<String, FieldError>)
    ensures
        match json_field_at(text@, key@) {
            None => res == Err::<String, FieldError>(FieldError::NotJson),
            Some(field) => match res {
                Ok(s) => field_text_of(field) == Ok::<Seq<char>, FieldError>(s@),
                Err(e) => field_text_of(field) == Err::<Seq<char>, FieldError>(e),
            },
        },
{
    match lookup_json_field(text, key) {
        None => Err(FieldError::NotJson),
        Some(field) => field_text(&field),
    }
}

} // verus!
