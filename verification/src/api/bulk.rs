use vstd::prelude::*;

use crate::api::{check_response, is_status_success, params_view, push_param, status_success};
use crate::json::{parse_json, parsed_json};
use crate::numbers::u64_dec_str;
use crate::text::{bytes_to_text_lossy, push_str_chars, str_eq, utf8_lossy_of};
use crate::utility::structures::bulk::{
    feedback_of, feedback_ok, file_status_of, file_status_ok, ZBBulkResponse, ZBFileFeedback,
    ZBFileStatus,
};
use crate::utility::{ZBError, ZBResult, CONTENT_TYPE_JSON, CONTENT_TYPE_STREAM};

verus! {

/// The query of the bulk status, result and delete endpoints.
pub fn file_request_query(api_key: &str, file_id: &str) -> (r: Vec<(String, String)>)
    ensures
        params_view(r@) == seq![("api_key"@, api_key@), ("file_id"@, file_id@)],
{
    let mut params: Vec<(String, String)> = Vec::new();
    push_param(&mut params, "api_key", api_key);
    push_param(&mut params, "file_id", file_id);
    proof {
        assert(params_view(params@) =~= seq![("api_key"@, api_key@), ("file_id"@, file_id@)]);
    }
    params
}

/// Interprets a file-status response.
pub fn file_status_from_response(status: u16, body: String) -> (r: ZBResult<ZBFileStatus>)
    ensures
        !status_success(status) ==> (r matches Err(e) && e matches ZBError::ExplicitError(m) && m@
            == body@),
        status_success(status) ==> match parsed_json(body@) {
            None => r matches Err(e) && e is JsonError,
            Some(v) => if file_status_ok(v) {
                r matches Ok(x) && x@ == file_status_of(v)
            } else {
                r matches Err(e) && e is JsonError
            },
        },
{
    let content = match check_response(status, body) {
        Ok(b) => b,
        Err(e) => {
            return Err(e);
        },
    };
    let parsed = match parse_json(content.as_str()) {
        Ok(j) => j,
        Err(e) => {
            return Err(ZBError::JsonError(e));
        },
    };
    ZBFileStatus::from_json(&parsed)
}

/// Interprets a result-delete response: the feedback envelope, with
/// `success: false` kept as a successful call whose envelope says no.
pub fn file_feedback_from_response(status: u16, body: String) -> (r: ZBResult<ZBFileFeedback>)
    ensures
        !status_success(status) ==> (r matches Err(e) && e matches ZBError::ExplicitError(m) && m@
            == body@),
        status_success(status) ==> match parsed_json(body@) {
            None => r matches Err(e) && e is JsonError,
            Some(v) => if feedback_ok(v) {
                r matches Ok(x) && x@ == feedback_of(v)
            } else {
                r matches Err(e) && e is JsonError
            },
        },
{
    let content = match check_response(status, body) {
        Ok(b) => b,
        Err(e) => {
            return Err(e);
        },
    };
    let parsed = match parse_json(content.as_str()) {
        Ok(j) => j,
        Err(e) => {
            return Err(ZBError::JsonError(e));
        },
    };
    ZBFileFeedback::from_json(&parsed)
}

/// Interprets a file-submit response. The submit endpoints answer the
/// feedback envelope whatever the status; a `success: false` envelope is
/// an application-level failure carrying the returned message.
pub fn file_submit_from_response(body: String) -> (r: ZBResult<ZBFileFeedback>)
    ensures
        match parsed_json(body@) {
            None => r matches Err(e) && e is JsonError,
            Some(v) => if feedback_ok(v) {
                if feedback_of(v).success {
                    r matches Ok(x) && x@ == feedback_of(v)
                } else {
                    r matches Err(e) && (e matches ZBError::ExplicitError(m) && m@
                        == "Feedback not success: "@ + feedback_of(v).message)
                }
            } else {
                r matches Err(e) && e is JsonError
            },
        },
{
    let parsed = match parse_json(body.as_str()) {
        Ok(j) => j,
        Err(e) => {
            return Err(ZBError::JsonError(e));
        },
    };
    let feedback = match ZBFileFeedback::from_json(&parsed) {
        Ok(f) => f,
        Err(e) => {
            return Err(e);
        },
    };
    if !feedback.success {
        let mut message: Vec<char> = Vec::new();
        push_str_chars(&mut message, "Feedback not success: ");
        push_str_chars(&mut message, feedback.message.as_str());
        return Err(ZBError::ExplicitError(crate::text::chars_to_string(&message)));
    }
    Ok(feedback)
}

/// A response header as the transport hands it over: absent, present but
/// not readable as text, or its text.
pub enum HeaderValue {
    Missing,
    Invalid(String),
    Value(String),
}

/// The diagnostic message for a result fetch whose body was neither the
/// raw file nor a feedback envelope.
pub open spec fn fetch_error_message(status: u16, content_type: Seq<char>, text: Seq<char>) -> Seq<
    char,
> {
    "Status: "@ + u64_dec_str(status as int) + ". Content-type: "@ + content_type
        + ". Response content: "@ + text
}

/// Interprets a result-fetch response, branching on the content type: a
/// binary stream is the raw file content; JSON that decodes as the
/// feedback envelope is that envelope; anything else is an explicit error
/// that names the status, content type and body.
pub fn bulk_fetch_from_response(status: u16, content_type: &HeaderValue, body: Vec<u8>) -> (r:
    ZBResult<ZBBulkResponse>)
    ensures
        content_type is Missing ==> (r matches Err(e) && (e matches ZBError::ExplicitError(m) && m@
            == "content type not specified in response"@)),
        content_type matches HeaderValue::Invalid(w) ==> (r matches Err(e) && (e matches
            ZBError::ExplicitError(m) && m@ == w@)),
        content_type matches HeaderValue::Value(c) ==> {
            if !status_success(status) {
                r matches Err(e) && (e matches ZBError::ExplicitError(m) && m@ == utf8_lossy_of(
                    body@,
                ))
            } else if c@ == CONTENT_TYPE_STREAM@ {
                r matches Ok(x) && (x matches ZBBulkResponse::Content(bytes) && bytes@ == body@)
            } else {
                match parsed_json(utf8_lossy_of(body@)) {
                    Some(v) => if c@ == CONTENT_TYPE_JSON@ && feedback_ok(v) {
                        r matches Ok(x) && (x matches ZBBulkResponse::Feedback(fb) && fb@
                            == feedback_of(v))
                    } else {
                        r matches Err(e) && (e matches ZBError::ExplicitError(m) && m@
                            == fetch_error_message(status, c@, utf8_lossy_of(body@)))
                    },
                    None => r matches Err(e) && (e matches ZBError::ExplicitError(m) && m@
                        == fetch_error_message(status, c@, utf8_lossy_of(body@))),
                }
            }
        },
{
    let content_type_text = match content_type {
        HeaderValue::Missing => {
            return Err(ZBError::explicit("content type not specified in response"));
        },
        HeaderValue::Invalid(w) => {
            return Err(ZBError::ExplicitError(w.clone()));
        },
        HeaderValue::Value(c) => c,
    };
    if !is_status_success(status) {
        let text = bytes_to_text_lossy(&body);
        return Err(ZBError::ExplicitError(text));
    }
    if str_eq(content_type_text.as_str(), CONTENT_TYPE_STREAM) {
        return Ok(ZBBulkResponse::Content(body));
    }
    let text = bytes_to_text_lossy(&body);
    if str_eq(content_type_text.as_str(), CONTENT_TYPE_JSON) {
        if let Ok(parsed) = parse_json(text.as_str()) {
            if let Ok(feedback) = ZBFileFeedback::from_json(&parsed) {
                return Ok(ZBBulkResponse::Feedback(feedback));
            }
        }
    }
    let status_digits = crate::numbers::u64_to_string(status as u64);
    let mut message: Vec<char> = Vec::new();
    push_str_chars(&mut message, "Status: ");
    push_str_chars(&mut message, status_digits.as_str());
    push_str_chars(&mut message, ". Content-type: ");
    push_str_chars(&mut message, content_type_text.as_str());
    push_str_chars(&mut message, ". Response content: ");
    push_str_chars(&mut message, text.as_str());
    Err(ZBError::ExplicitError(crate::text::chars_to_string(&message)))
}

} // verus!
