//! Conversion of failed gRPC calls into [`SzError`] values.
//!
//! The Senzing gRPC server encodes error details in the status message as
//! JSON holding a `"reason"` field of the form `SENZ####E|message text`;
//! the four characters after `SENZ` are the Senzing error code.
use vstd::prelude::*;
use vstd::utf8::{encode_utf8, is_char_boundary};

use crate::json::{
    json_get, json_str, lemma_member_index_first, member_index, parse_json, serde_json_from_str, Json,
};
use crate::szerrortypes::{kind_for_code, sz_error_from_code, SzError, SzErrorKind};
use crate::text::{concat, find_char, first_index_of};

verus! {

broadcast use vstd::string::group_string_axioms;

/// The `"reason"` text of a parsed error document: the string member
/// `"reason"` of the top-level object, or else the reason found in its
/// `"error"` member (the Go SDK wraps errors in one another).
pub open spec fn reason_in(value: Json) -> Option<Seq<char>>
    decreases value,
{
    match value {
        Json::Object(members) => match json_str(json_get(value, "reason"@)) {
            Some(reason) => Some(reason),
            None => match member_index(members@, "error"@) {
                Some(i) => if 0 <= i < members@.len() {
                    reason_in(members@[i].1)
                } else {
                    None
                },
                None => None,
            },
        },
        _ => None,
    }
}

/// `true` for the bytes of the ASCII digits `0` to `9`.
pub open spec fn is_ascii_digit(b: u8) -> bool {
    48 <= b <= 57
}

/// The number written by the ASCII digits `digits`.
pub open spec fn digits_value(digits: Seq<u8>) -> int
    decreases digits.len(),
{
    if digits.len() == 0 {
        0
    } else {
        digits_value(digits.drop_last()) * 10 + (digits.last() - 48)
    }
}

/// `true` when `t` is one or more ASCII digits.
pub open spec fn all_digits(t: Seq<u8>) -> bool {
    t.len() > 0 && forall|i: int| 0 <= i < t.len() ==> is_ascii_digit(#[trigger] t[i])
}

/// What parsing the UTF-8 text `t` as an `i32` gives (`str::parse::<i32>`):
/// an optional `+` or `-` sign followed by one or more ASCII digits, whose
/// value fits in an `i32`.
pub open spec fn parse_i32_text(t: Seq<u8>) -> Option<i32> {
    let signed = t.len() > 0 && (t[0] == 43 || t[0] == 45);
    let digits = if signed {
        t.drop_first()
    } else {
        t
    };
    let value = if signed && t[0] == 45 {
        -digits_value(digits)
    } else {
        digits_value(digits)
    };
    if all_digits(digits) && i32::MIN <= value <= i32::MAX {
        Some(value as i32)
    } else {
        None
    }
}

/// `true` when the reason text can be cut at bytes 4 and 8: it is shorter
/// than 8 bytes, or both positions fall between characters.
pub open spec fn reason_slice_ok(reason: Seq<char>) -> bool {
    let b = encode_utf8(reason);
    b.len() < 8 || (is_char_boundary(b, 4) && is_char_boundary(b, 8))
}

/// The Senzing error code written in a reason text `SENZ####E|...`: bytes 4
/// to 8 parsed as an `i32`; none when the reason is shorter than 8 bytes.
pub open spec fn code_from_reason(reason: Seq<char>) -> Option<i32> {
    let b = encode_utf8(reason);
    if b.len() < 8 {
        None
    } else {
        parse_i32_text(b.subrange(4, 8))
    }
}

/// The Senzing error code carried by a gRPC status message: the message
/// from its first `{` on is parsed as JSON, its reason is found, and the
/// code is read from the reason. None when any step fails, and also when
/// the reason cannot be cut at bytes 4 and 8.
pub open spec fn senzing_error_code(message: Seq<char>) -> Option<i32> {
    match first_index_of(message, '{') {
        None => None,
        Some(start) => match serde_json_from_str(message.subrange(start, message.len() as int)) {
            Err(_) => None,
            Ok(doc) => match reason_in(doc) {
                None => None,
                Some(reason) => if reason_slice_ok(reason) {
                    code_from_reason(reason)
                } else {
                    None
                },
            },
        },
    }
}

/// Searches a parsed error document for its reason text.
pub fn extract_reason(value: &Json) -> (r: Option<&String>)
    ensures
        match r {
            Some(reason) => reason_in(*value) == Some(reason@),
            None => reason_in(*value) is None,
        },
    decreases value,
{
    if let Json::Object(members) = value {
        if let Some(reason) = value.get("reason") {
            if let Some(text) = reason.as_str() {
                return Some(text);
            }
        }
        let mut i: usize = 0;
        let wanted = "error".to_owned();
        while i < members.len()
            invariant
                0 <= i <= members.len(),
                wanted@ == "error"@,
                *value === Json::Object(*members),
                json_str(json_get(*value, "reason"@)) is None,
                forall|j: int| 0 <= j < i ==> members@[j].0@ != "error"@,
            decreases members.len() - i,
        {
            if members[i].0 == wanted {
                proof {
                    lemma_member_index_first(members@, "error"@, i as int);
                    assert(decreases_to!(*value => members@[i as int].1));
                }
                return extract_reason(&members[i].1);
            }
            i += 1;
        }
        proof {
            lemma_member_index_first(members@, "error"@, members.len() as int);
        }
        None
    } else {
        None
    }
}

/// Parses four bytes of text as an `i32`, as `str::parse::<i32>` does.
fn parse_i32_of_four(t: &[u8]) -> (r: Option<i32>)
    requires
        t@.len() == 4,
    ensures
        r == parse_i32_text(t@),
{
    reveal_with_fuel(digits_value, 5);
    let signed = t[0] == 43 || t[0] == 45;
    let start: usize = if signed { 1 } else { 0 };
    let ghost digits = if signed { t@.drop_first() } else { t@ };
    let mut value: i32 = 0;
    let mut i: usize = start;
    while i < 4
        invariant
            t@.len() == 4,
            start <= i <= 4,
            start == (if signed { 1usize } else { 0usize }),
            signed == (t@[0] == 43 || t@[0] == 45),
            digits == (if signed { t@.drop_first() } else { t@ }),
            forall|j: int| start <= j < i ==> is_ascii_digit(t@[j]),
            0 <= value < 10000,
            i - start == 0 ==> value < 1,
            i - start <= 1 ==> value < 10,
            i - start <= 2 ==> value < 100,
            i - start <= 3 ==> value < 1000,
            value == digits_value(t@.subrange(start as int, i as int)),
        decreases 4 - i,
    {
        if !(48 <= t[i] && t[i] <= 57) {
            assert(!is_ascii_digit(digits[i - start]));
            return None;
        }
        assert(t@.subrange(start as int, i + 1).drop_last() =~= t@.subrange(start as int, i as int));
        value = value * 10 + (t[i] - 48) as i32;
        i += 1;
    }
    assert(t@.subrange(start as int, 4) =~= digits);
    if start == 4 {
        return None;
    }
    assert(all_digits(digits)) by {
        assert forall|j: int| 0 <= j < digits.len() implies is_ascii_digit(#[trigger] digits[j]) by {
            assert(digits[j] == t@[j + start]);
        }
    }
    if t[0] == 45 {
        Some(-value)
    } else {
        Some(value)
    }
}

/// Reads the Senzing error code from a reason text `SENZ####E|...`: bytes
/// 4 to 8 parsed as an `i32`; `None` when the reason is shorter than 8 bytes
/// or those bytes are not a number.
///
/// The reason must be cuttable at bytes 4 and 8 (see [`reason_slice_ok`]).
pub fn error_code_from_reason(reason: &str) -> (r: Option<i32>)
    requires
        reason_slice_ok(reason@),
    ensures
        r == code_from_reason(reason@),
{
    let bytes = reason.as_bytes();
    if bytes.len() < 8 {
        return None;
    }
    parse_i32_of_four(&bytes[4..8])
}

/// Extracts the Senzing error code from a gRPC status message.
///
/// The message is expected to contain JSON with a `"reason"` field of the
/// form `SENZ####E|...`, possibly nested in `"error"` objects; characters 4
/// to 8 of the reason are the numeric error code. Returns `None` when the
/// message holds no `{`, the JSON does not parse, no reason is found, the
/// code is not a number, or the reason cannot be cut at bytes 4 and 8.
pub fn parse_senzing_error_code(message: &str) -> (r: Option<i32>)
    ensures
        r == senzing_error_code(message@),
{
    let start = match find_char(message, '{') {
        Some(i) => i,
        None => return None,
    };
    proof {
        crate::text::lemma_first_index_of_found(message@, '{');
    }
    let json_text = message.substring_char(start, message.unicode_len());
    let doc = match parse_json(json_text) {
        Ok(doc) => doc,
        Err(_) => return None,
    };
    let reason = match extract_reason(&doc) {
        Some(reason) => reason,
        None => return None,
    };
    let reason = reason.as_str();
    if reason.as_bytes().len() >= 8 && !(reason.is_char_boundary(4) && reason.is_char_boundary(8)) {
        return None;
    }
    error_code_from_reason(reason)
}

/// The description that `tonic::Code` gives for the numeric gRPC status
/// code `code` (codes outside 0 to 16 are `Unknown`).
pub open spec fn grpc_code_text(code: int) -> Seq<char> {
    if code == 0 {
        "The operation completed successfully"@
    } else if code == 1 {
        "The operation was cancelled"@
    } else if code == 3 {
        "Client specified an invalid argument"@
    } else if code == 4 {
        "Deadline expired before operation could complete"@
    } else if code == 5 {
        "Some requested entity was not found"@
    } else if code == 6 {
        "Some entity that we attempted to create already exists"@
    } else if code == 7 {
        "The caller does not have permission to execute the specified operation"@
    } else if code == 8 {
        "Some resource has been exhausted"@
    } else if code == 9 {
        "The system is not in a state required for the operation's execution"@
    } else if code == 10 {
        "The operation was aborted"@
    } else if code == 11 {
        "Operation was attempted past the valid range"@
    } else if code == 12 {
        "Operation is not implemented or not supported"@
    } else if code == 13 {
        "Internal error"@
    } else if code == 14 {
        "The service is currently unavailable"@
    } else if code == 15 {
        "Unrecoverable data loss or corruption"@
    } else if code == 16 {
        "The request does not have valid authentication credentials"@
    } else {
        "Unknown error"@
    }
}

/// The text that `tonic::Code::from_i32(code)` displays (its description).
#[verifier::external_body]
fn grpc_code_description(code: i32) -> (s: String)
    ensures
        s@ == grpc_code_text(code as int),
{
    tonic::Code::from_i32(code).to_string()
}

/// The message of the error made for a failed gRPC call that carried no
/// Senzing error code.
pub open spec fn rpc_failure_text(method: Seq<char>, status_code: int, message: Seq<char>) -> Seq<
    char,
> {
    "gRPC "@ + method + " failed ("@ + grpc_code_text(status_code) + "): "@ + message
}

/// `true` when `e` is the error that [`grpc_to_sz_error`] makes for a call
/// of `method` that failed with status `status_code` and message `message`:
/// the error that the message's Senzing error code maps to, carrying the
/// whole message, or when the message carries none, a
/// [`SzErrorKind::General`] error with code 0 and [`rpc_failure_text`].
pub open spec fn rpc_error_is(e: SzError, method: Seq<char>, status_code: int, message: Seq<char>) -> bool {
    match senzing_error_code(message) {
        Some(code) => e.is(kind_for_code(code as int), code, message),
        None => e.is(SzErrorKind::General, 0, rpc_failure_text(method, status_code, message)),
    }
}

/// Converts a failed gRPC call, given by its numeric status code and its
/// status message, into an [`SzError`].
///
/// When the message carries a Senzing error code, the error is the one that
/// code maps to, with the whole message. Otherwise it is a
/// [`SzErrorKind::General`] error with code 0 whose message names the RPC
/// `method`, the status code's description and the status message.
pub fn grpc_to_sz_error(status_code: i32, message: String, method: &str) -> (e: SzError)
    ensures
        rpc_error_is(e, method@, status_code as int, message@),
{
    if let Some(code) = parse_senzing_error_code(message.as_str()) {
        return sz_error_from_code(code, message);
    }
    let description = grpc_code_description(status_code);
    let text = concat(
        &[
            "gRPC ",
            method,
            " failed (",
            description.as_str(),
            "): ",
            message.as_str(),
        ],
    );
    proof {
        reveal_with_fuel(crate::text::concat_text, 7);
    }
    SzError::new(SzErrorKind::General, 0, text)
}

/// The message of the error for a JSON response that failed to parse.
pub open spec fn json_failure_text(context: Seq<char>, err: Seq<char>) -> Seq<char> {
    "failed to parse "@ + context + " JSON: "@ + err
}

/// The error for a JSON response that failed to parse: a
/// [`SzErrorKind::General`] error with code 0 whose message names what was
/// being parsed (`context`) and the parser's error text.
pub fn json_parse_error(context: &str, err: &str) -> (e: SzError)
    ensures
        e.is(SzErrorKind::General, 0, json_failure_text(context@, err@)),
{
    let text = concat(&["failed to parse ", context, " JSON: ", err]);
    proof {
        reveal_with_fuel(crate::text::concat_text, 5);
    }
    SzError::new(SzErrorKind::General, 0, text)
}

/// Parses a JSON response of the server, or gives the error for one that
/// does not parse (see [`json_parse_error`]).
pub fn parse_response(context: &str, text: &str) -> (r: Result<Json, SzError>)
    ensures
        match serde_json_from_str(text@) {
            Ok(doc) => r == Ok::<Json, SzError>(doc),
            Err(err) => r matches Err(e) && e.is(
                SzErrorKind::General,
                0,
                json_failure_text(context@, err),
            ),
        },
{
    match parse_json(text) {
        Ok(doc) => Ok(doc),
        Err(err) => Err(json_parse_error(context, err.as_str())),
    }
}

/// A failed gRPC call as the transport reports it: the numeric status code
/// and the status message.
#[derive(Debug, Clone, PartialEq, Eq)]
pub struct RpcFailure {
    pub code: i32,
    pub message: String,
}

/// The outcome of a gRPC call of `method` as the SDK reports it: the reply
/// itself when the call succeeded, and otherwise the error that
/// [`grpc_to_sz_error`] makes of the failure.
pub fn rpc_outcome<T>(outcome: Result<T, RpcFailure>, method: &str) -> (r: Result<T, SzError>)
    ensures
        match outcome {
            Ok(reply) => r == Ok::<T, SzError>(reply),
            Err(failure) => r matches Err(e) && rpc_error_is(
                e,
                method@,
                failure.code as int,
                failure.message@,
            ),
        },
{
    match outcome {
        Ok(reply) => Ok(reply),
        Err(failure) => Err(grpc_to_sz_error(failure.code, failure.message, method)),
    }
}

} // verus!
