//! Metafield definitions and the JSON text they carry.
use vstd::prelude::*;
use crate::errors::{ErrorCode, RpcError, STATUS_BAD_REQUEST};
use crate::text::{is_blank, to_owned, trim_seq};

verus! {

/// A metafield definition as a caller submits it.
#[derive(Debug, Clone, PartialEq, Eq)]
pub struct MetafieldDefinitionInput {
    pub namespace: String,
    pub key: String,
    pub name: String,
    pub description: Option<String>,
    pub value_type: String,
    pub is_list: bool,
    pub validations_json: String,
    pub visibility_json: String,
}

/// A name for whether `serde_json` parses `s` as a JSON value. Whether a
/// text parses depends on the text alone.
pub uninterp spec fn json_parses(s: Seq<char>) -> bool;

/// Calls `serde_json::from_str::<serde_json::Value>` and tells whether it
/// succeeded. The contract names the answer `json_parses` of the text.
#[verifier::external_body]
pub(crate) fn parses_as_json(s: &str) -> (r: bool)
    ensures
        r == json_parses(s@),
{
    serde_json::from_str::<serde_json::Value>(s).is_ok()
}

/// What an optional JSON field is stored as, given whether its text parses:
/// blank text becomes the empty object, other text is kept when it parses,
/// and is refused (`None`) when it does not.
pub open spec fn optional_json_spec(value: Seq<char>, parses: bool) -> Option<Seq<char>> {
    if trim_seq(value).len() == 0 {
        Some("{}"@)
    } else if parses {
        Some(value)
    } else {
        None
    }
}

/// Stores an optional JSON field, given whether its text parses; a refusal
/// is 400 `invalid_argument` "invalid json provided".
pub fn optional_json_outcome(value: String, parses: bool) -> (r: Result<String, RpcError>)
    ensures
        match optional_json_spec(value@, parses) {
            Some(v) => r matches Ok(s) && s@ == v,
            None => r matches Err(e) && e.status == STATUS_BAD_REQUEST && e.error.code
                == ErrorCode::InvalidArgument && e.error.message@ == "invalid json provided"@,
        },
{
    if is_blank(value.as_str()) {
        Ok(to_owned("{}"))
    } else if parses {
        Ok(value)
    } else {
        Err(RpcError::invalid_argument("invalid json provided"))
    }
}

/// Blank text becomes `{}`; other text must parse as JSON and is kept.
pub fn normalize_optional_json(value: String) -> (r: Result<String, RpcError>)
    ensures
        match optional_json_spec(value@, json_parses(value@)) {
            Some(v) => r matches Ok(s) && s@ == v,
            None => r matches Err(e) && e.status == STATUS_BAD_REQUEST && e.error.code
                == ErrorCode::InvalidArgument && e.error.message@ == "invalid json provided"@,
        },
{
    if is_blank(value.as_str()) {
        return optional_json_outcome(value, false);
    }
    let parses = parses_as_json(value.as_str());
    optional_json_outcome(value, parses)
}

} // verus!
