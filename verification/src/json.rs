//! Reading fields of a JSON document through `serde_json`.
use vstd::prelude::*;

use crate::text::opt_view;

verus! {

/// What the logic reads of one field of a JSON object: the field as a string
/// (when it is one) and as an unsigned integer (when it is a non-negative
/// integer that fits in 64 bits).
#[derive(Debug, Clone, PartialEq, Eq)]
pub struct JsonField {
    pub text: Option<String>,
    pub unsigned: Option<u64>,
}

impl JsonField {
    /// A copy of this field.
    pub fn copy(&self) -> (r: JsonField)
        ensures
            opt_view(r.text) == opt_view(self.text),
            r.unsigned == self.unsigned,
    {
        JsonField { text: crate::text::copy_opt_string(&self.text), unsigned: self.unsigned }
    }
}

/// The error message of `serde_json::from_str::<serde_json::Value>` on a text,
/// or `None` when the text is a JSON document.
pub uninterp spec fn spec_json_parse_error(text: Seq<char>) -> Option<Seq<char>>;

/// `value.get(key).and_then(|v| v.as_str())` on the document that the text holds.
pub uninterp spec fn spec_json_text(text: Seq<char>, key: Seq<char>) -> Option<Seq<char>>;

/// `value.get(key).and_then(|v| v.as_u64())` on the document that the text holds.
pub uninterp spec fn spec_json_unsigned(text: Seq<char>, key: Seq<char>) -> Option<u64>;

/// Parses `text` with `serde_json::from_str` into a `serde_json::Value` and
/// reads, for each key, `Value::get` followed by `Value::as_str` and
/// `Value::as_u64`. Trusted: the parse fails exactly when the named error
/// exists, and then the error's `Display` text is returned; on success each
/// field is what the named lookups give for that key.
#[verifier::external_body]
pub(crate) fn json_fields(text: &str, keys: &Vec<String>) -> (r: Result<Vec<JsonField>, String>)
    ensures
        match r {
            Ok(fields) => {
                &&& spec_json_parse_error(text@) is None
                &&& fields@.len() == keys@.len()
                &&& forall|i: int|
                    0 <= i < keys@.len() ==> opt_view((#[trigger] fields@[i]).text)
                        == spec_json_text(text@, keys@[i]@) && fields@[i].unsigned
                        == spec_json_unsigned(text@, keys@[i]@)
            },
            Err(e) => spec_json_parse_error(text@) == Some(e@),
        },
{
    let value: serde_json::Value = match serde_json::from_str(text) {
        Ok(v) => v,
        Err(e) => return Err(e.to_string()),
    };
    let mut fields = Vec::new();
    for key in keys.iter() {
        let field = value.get(key.as_str());
        let text = field.and_then(|v| v.as_str()).map(|s| s.to_string());
        fields.push(JsonField { text, unsigned: field.and_then(|v| v.as_u64()) });
    }
    Ok(fields)
}

} // verus!
