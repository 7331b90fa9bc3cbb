use vstd::prelude::*;

verus! {

/// The `error.message` string that the wire's JSON carries in a response
/// body, if any; it depends on the body's characters alone.
pub uninterp spec fn error_message_of(s: Seq<char>) -> Option<Seq<char>>;

/// The `choices[0].message.content` string of a non-streaming response
/// body, if any; it depends on the body's characters alone.
pub uninterp spec fn reply_content_of(s: Seq<char>) -> Option<Seq<char>>;

/// The incremental text of one streaming chunk: `None` when the chunk is
/// not valid JSON, otherwise `choices[0].delta.content` (the empty
/// sequence when that field is absent). It depends on the chunk's
/// characters alone.
pub uninterp spec fn chunk_delta_of(s: Seq<char>) -> Option<Seq<char>>;

/// Relies on serde_json::from_str and serde_json::Value's index and
/// as_str: extracts `error.message` from a JSON body, `None` when the
/// body is not JSON or the field is missing or not a string.
#[verifier::external_body]
pub fn extract_error_message(body: &str) -> (r: Option<String>)
    ensures
        r is Some <==> error_message_of(body@) is Some,
        r matches Some(m) ==> m@ == error_message_of(body@)->0,
{
    let data: serde_json::Value = match serde_json::from_str(body) {
        Ok(v) => v,
        Err(_) => return None,
    };
    data["error"]["message"].as_str().map(|s| s.to_string())
}

/// Relies on serde_json::from_str and serde_json::Value's index and
/// as_str: extracts `choices[0].message.content` from a JSON body,
/// `None` when the body is not JSON or the field is missing or not a
/// string.
#[verifier::external_body]
pub fn extract_reply_content(body: &str) -> (r: Option<String>)
    ensures
        r is Some <==> reply_content_of(body@) is Some,
        r matches Some(c) ==> c@ == reply_content_of(body@)->0,
{
    let data: serde_json::Value = match serde_json::from_str(body) {
        Ok(v) => v,
        Err(_) => return None,
    };
    data["choices"][0]["message"]["content"].as_str().map(|s| s.to_string())
}

/// Relies on serde_json::from_str and serde_json::Value's index and
/// as_str: extracts `choices[0].delta.content` from one streaming chunk,
/// `None` when the chunk is not valid JSON and the empty string when the
/// field is missing or not a string.
#[verifier::external_body]
pub fn extract_chunk_delta(chunk: &str) -> (r: Option<String>)
    ensures
        r is Some <==> chunk_delta_of(chunk@) is Some,
        r matches Some(d) ==> d@ == chunk_delta_of(chunk@)->0,
{
    let data: serde_json::Value = match serde_json::from_str(chunk) {
        Ok(v) => v,
        Err(_) => return None,
    };
    Some(data["choices"][0]["delta"]["content"].as_str().unwrap_or("").to_string())
}

} // verus!
