use vstd::prelude::*;

verus! {

/// Structured error value carried through the whole runtime: a stable,
/// dot-separated error code, a human-readable message, the values that were
/// interpolated into the message, and the HTTP status code an adapter
/// should answer with.
#[derive(Debug, Clone)]
pub struct MajordomeError {
    pub error: String,
    pub message: String,
    pub values: Vec<String>,
    pub status_code: u16,
}

impl MajordomeError {
    pub fn new(
        error: String,
        message: String,
        values: Vec<String>,
        status_code: u16,
    ) -> (r: MajordomeError)
        ensures
            r == (MajordomeError { error, message, values, status_code }),
    {
        MajordomeError { error, message, values, status_code }
    }

    /// Wrap this error as the `Err` case of a result.
    pub fn err<T>(self) -> (r: Result<T, MajordomeError>)
        ensures
            r == Result::<T, MajordomeError>::Err(self),
    {
        Err(self)
    }

    /// The generic error reported for an unexpected internal failure whose
    /// details were logged under `error_id`: the operator-facing message
    /// carries the id and nothing else about the cause.
    pub fn internal(error_id: String) -> (r: MajordomeError)
        ensures
            r.error@ == "errors.service.internal"@,
            r.message@ == "Something went wrong. Our team has been informed. (Error ID: "@
                + error_id@ + ")"@,
            r.values@.len() == 1,
            r.values@[0]@ == error_id@,
            r.status_code == 500,
    {
        let message = String::from_str("Something went wrong. Our team has been informed. (Error ID: ")
            .concat(error_id.as_str()).concat(")");
        let mut values: Vec<String> = Vec::new();
        values.push(error_id);
        MajordomeError {
            error: String::from_str("errors.service.internal"),
            message,
            values,
            status_code: 500,
        }
    }

    /// Convert an unexpected internal failure (already logged by the
    /// caller) into the generic internal error, tagged with a fresh error
    /// id so the log line can be found again.
    pub fn from_internal() -> (r: MajordomeError)
        ensures
            r.error@ == "errors.service.internal"@,
            r.values@.len() == 1,
            r.values@[0]@.len() == 36,
            r.message@ == "Something went wrong. Our team has been informed. (Error ID: "@
                + r.values@[0]@ + ")"@,
            r.status_code == 500,
    {
        let id = new_error_id();
        MajordomeError::internal(id)
    }
}

/// Relies on uuid::Uuid::new_v4 and its hyphenated rendering: a freshly
/// drawn random identifier, 36 characters long. Nothing else is assumed of
/// the value.
#[verifier::external_body]
fn new_error_id() -> (r: String)
    ensures
        r@.len() == 36,
{
    uuid::Uuid::new_v4().to_string()
}

} // verus!
