use vstd::prelude::*;

use crate::error::MajordomeError;

verus! {

/// JSON body wrapper for handlers; the web framework's extraction and
/// response impls live with the embedding, on its copy of this type.
pub struct Json<T>(pub T);

/// Form body wrapper for handlers; as `Json`.
pub struct Form<T>(pub T);

/// The ways a JSON request body is rejected before reaching a handler.
#[derive(Clone, Copy, Debug, PartialEq, Eq)]
pub enum JsonRejectionKind {
    BytesRejection,
    DataError,
    SyntaxError,
    MissingContentType,
    Unknown,
}

/// The structured error answering a rejected JSON request body: the code
/// names the rejection kind, the rejection's own text travels in the
/// message and the values, and the status is 415 for a missing content
/// type, 400 for everything else.
pub fn rejection_error(kind: JsonRejectionKind, body_text: String) -> (r: MajordomeError)
    ensures
        match kind {
            JsonRejectionKind::BytesRejection => {
                &&& r.error@ == "errors.http.bad_request.json.bytes_rejection"@
                &&& r.message@ == body_text@
                &&& r.values@.len() == 1 && r.values@[0]@ == body_text@
                &&& r.status_code == 400
            },
            JsonRejectionKind::DataError => {
                &&& r.error@ == "errors.http.bad_request.json.data_error"@
                &&& r.message@ == body_text@
                &&& r.values@.len() == 1 && r.values@[0]@ == body_text@
                &&& r.status_code == 400
            },
            JsonRejectionKind::SyntaxError => {
                &&& r.error@ == "errors.http.bad_request.json.syntax_error"@
                &&& r.message@ == body_text@
                &&& r.values@.len() == 1 && r.values@[0]@ == body_text@
                &&& r.status_code == 400
            },
            JsonRejectionKind::MissingContentType => {
                &&& r.error@ == "errors.http.bad_request.json.missing_content_type"@
                &&& r.message@ == "Expected request with `Content-Type: application/json`"@
                &&& r.values@.len() == 0
                &&& r.status_code == 415
            },
            JsonRejectionKind::Unknown => {
                &&& r.error@ == "errors.http.bad_request.json.unknown"@
                &&& r.message@ == "Unknown JSON error: "@ + body_text@
                &&& r.values@.len() == 1 && r.values@[0]@ == body_text@
                &&& r.status_code == 400
            },
        },
{
    match kind {
        JsonRejectionKind::BytesRejection => {
            let mut values: Vec<String> = Vec::new();
            values.push(body_text.clone());
            MajordomeError::new(
                String::from_str("errors.http.bad_request.json.bytes_rejection"),
                body_text,
                values,
                400,
            )
        },
        JsonRejectionKind::DataError => {
            let mut values: Vec<String> = Vec::new();
            values.push(body_text.clone());
            MajordomeError::new(
                String::from_str("errors.http.bad_request.json.data_error"),
                body_text,
                values,
                400,
            )
        },
        JsonRejectionKind::SyntaxError => {
            let mut values: Vec<String> = Vec::new();
            values.push(body_text.clone());
            MajordomeError::new(
                String::from_str("errors.http.bad_request.json.syntax_error"),
                body_text,
                values,
                400,
            )
        },
        JsonRejectionKind::MissingContentType => {
            MajordomeError::new(
                String::from_str("errors.http.bad_request.json.missing_content_type"),
                String::from_str("Expected request with `Content-Type: application/json`"),
                Vec::new(),
                415,
            )
        },
        JsonRejectionKind::Unknown => {
            let mut values: Vec<String> = Vec::new();
            values.push(body_text.clone());
            let message = String::from_str("Unknown JSON error: ").concat(body_text.as_str());
            MajordomeError::new(
                String::from_str("errors.http.bad_request.json.unknown"),
                message,
                values,
                400,
            )
        },
    }
}

} // verus!
