use vstd::prelude::*;

verus! {

#[verifier::external_type_specification]
#[verifier::external_body]
pub struct ExJsonValue(serde_json::Value);

#[verifier::external_type_specification]
#[verifier::external_body]
pub struct ExJsonError(serde_json::Error);

/// The JSON text that `serde_json::to_string` writes for a value.
pub uninterp spec fn spec_json_text(value: serde_json::Value) -> Seq<char>;

/// Calls `serde_json::to_string` on a JSON value. The contract claims that it
/// succeeds (a `Value` holds string keys, non-finite numbers are written as
/// `null`, and writing into a `Vec` never fails) and that its text is
/// `spec_json_text` of the value, which depends on the value alone.
#[verifier::external_body]
fn json_text(value: &serde_json::Value) -> (text: Result<String, serde_json::Error>)
    ensures
        text is Ok,
        text->Ok_0@ == spec_json_text(*value),
{
    serde_json::to_string(value)
}

/// The answer to a raw query: the JSON that the database gave, as text.
pub struct ExecuteRawResult {
    pub json: String,
}

/// The answer to a raw query whose result is `json`; writing it as text
/// never fails.
pub fn execute_raw_result(json: &serde_json::Value) -> (result: ExecuteRawResult)
    ensures
        result.json@ == spec_json_text(*json),
{
    match json_text(json) {
        Ok(text) => ExecuteRawResult { json: text },
        Err(_) => {
            proof {
                assert(false);
            }
            ExecuteRawResult { json: String::new() }
        },
    }
}

} // verus!
