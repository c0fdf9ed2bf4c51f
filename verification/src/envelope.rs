//! The JSON envelopes that carry a host operation's answer back into the
//! Code Mode isolate: `{"ok":true,"result":...}` or `{"error":...,"ok":false}`.

use vstd::prelude::*;

use crate::json::{json_string_decode, lemma_quoted_decodes, json_quoted, json_reserialized, json_string_literal, json_value_accepts, reserialize_json};

verus! {

/// The JSON a success envelope carries for `result`: the document written
/// back out when the text is a JSON document, otherwise the text as a JSON
/// string.
pub open spec fn result_payload(result: Seq<char>) -> Seq<char> {
    if json_value_accepts(result) { json_reserialized(result) } else { json_quoted(result) }
}

/// The success envelope for `result`.
pub open spec fn spec_ok_envelope(result: Seq<char>) -> Seq<char> {
    "{\"ok\":true,\"result\":"@ + result_payload(result) + "}"@
}

/// The failure envelope for `message`.
pub open spec fn spec_error_envelope(message: Seq<char>) -> Seq<char> {
    "{\"error\":"@ + json_quoted(message) + ",\"ok\":false}"@
}

/// The success envelope for `result_json`, given what parsing it as JSON
/// and writing it back out gave: the written-back value is embedded when
/// there is one, otherwise the text itself as a JSON string.
pub fn ok_envelope_from(result_json: &str, reserialized: Option<String>) -> (r: String)
    ensures
        r@ == "{\"ok\":true,\"result\":"@ + match reserialized {
            Some(value) => value@,
            None => json_quoted(result_json@),
        } + "}"@,
{
    let mut out = String::new();
    out.append("{\"ok\":true,\"result\":");
    match reserialized {
        Some(value) => out.append(value.as_str()),
        None => {
            let quoted = json_string_literal(result_json);
            out.append(quoted.as_str());
        },
    }
    out.append("}");
    out
}

/// Wrap a result in a success envelope. A result that is valid JSON is
/// embedded as the JSON value it holds; any other text is embedded as a JSON
/// string.
pub fn ok_envelope(result_json: &str) -> (r: String)
    ensures
        r@ == spec_ok_envelope(result_json@),
        json_value_accepts(result_json@) ==> r@ == "{\"ok\":true,\"result\":"@
            + json_reserialized(result_json@) + "}"@,
        !json_value_accepts(result_json@) ==> r@ == "{\"ok\":true,\"result\":"@
            + json_quoted(result_json@) + "}"@,
{
    let reserialized = reserialize_json(result_json);
    ok_envelope_from(result_json, reserialized)
}

/// Wrap an error message in a failure envelope.
pub fn error_envelope(msg: &str) -> (r: String)
    ensures
        r@ == spec_error_envelope(msg@),
{
    let mut out = String::new();
    out.append("{\"error\":");
    let quoted = json_string_literal(msg);
    out.append(quoted.as_str());
    out.append(",\"ok\":false}");
    out
}

/// The envelope for the answer of a host operation: success for `Ok`,
/// failure for `Err`.
pub fn answer_envelope(answer: &core::result::Result<String, String>) -> (r: String)
    ensures
        r@ == match answer {
            Ok(result) => spec_ok_envelope(result@),
            Err(message) => spec_error_envelope(message@),
        },
{
    match answer {
        Ok(result) => ok_envelope(result.as_str()),
        Err(message) => error_envelope(message.as_str()),
    }
}

/// The failure envelope's `error` member is a JSON string literal that
/// decodes back to exactly the message, whatever characters it holds.
pub proof fn lemma_error_envelope_carries_message(message: Seq<char>)
    ensures
        exists|q: Seq<char>|
            spec_error_envelope(message) == "{\"error\":"@ + q + ",\"ok\":false}"@
            && #[trigger] json_string_decode(q) == Some(message),
{
    lemma_quoted_decodes(message);
    let q = json_quoted(message);
    assert(spec_error_envelope(message) == "{\"error\":"@ + q + ",\"ok\":false}"@);
    assert(json_string_decode(q) == Some(message));
}

/// A result that is not a JSON document travels in the success envelope as
/// a JSON string literal that decodes back to exactly the result text.
pub proof fn lemma_text_result_carried(result: Seq<char>)
    requires
        !json_value_accepts(result),
    ensures
        exists|q: Seq<char>|
            spec_ok_envelope(result) == "{\"ok\":true,\"result\":"@ + q + "}"@
            && #[trigger] json_string_decode(q) == Some(result),
{
    lemma_quoted_decodes(result);
    let q = json_quoted(result);
    assert(spec_ok_envelope(result) == "{\"ok\":true,\"result\":"@ + q + "}"@);
    assert(json_string_decode(q) == Some(result));
}

/// A result that is a JSON document is embedded as exactly the value
/// serde_json reads out of it, written back out: it is never quoted again,
/// so a tool answering the JSON string `"done"` gives the script `done`.
pub proof fn lemma_json_result_embedded(result: Seq<char>)
    requires
        json_value_accepts(result),
    ensures
        spec_ok_envelope(result) == "{\"ok\":true,\"result\":"@ + json_reserialized(result) + "}"@,
{
}

/// Whether the result is embedded as JSON or as a string depends on nothing
/// but whether serde_json reads it as JSON: two results that are both JSON
/// documents with the same written-back value get the same envelope.
pub proof fn lemma_json_results_with_same_value(a: Seq<char>, b: Seq<char>)
    requires
        json_value_accepts(a),
        json_value_accepts(b),
        json_reserialized(a) == json_reserialized(b),
    ensures
        spec_ok_envelope(a) == spec_ok_envelope(b),
{
}

} // verus!
