use crate::transform::{operation_name, Operation};
use vstd::prelude::*;

verus! {

/// Every way in which handling an upload can fail.
#[derive(Debug)]
pub enum UploadError {
    /// The part carries a name other than the expected one.
    InvalidFieldName { name: String },
    /// The part carries no name at all.
    MissingFieldName,
    /// The part declares no content type.
    MissingContentType { name: String },
    /// The body holds no part.
    MissingField { name: String },
    /// The declared content type has no registered image format.
    InvalidContentType { name: String, content_type: String },
    /// The part's payload is longer than the upload limit.
    PayloadTooLarge { name: String, limit: usize },
    /// The requested operation has no implementation yet.
    OperationUnavailable { operation: Operation },
    /// The image could not be decoded or encoded; `detail` is for the
    /// server's log and never reaches the client.
    FailedToProcessImage { detail: String },
    /// The multipart framing of the body is malformed; `detail` is for the
    /// server's log and never reaches the client.
    FailedToParseMultipart { detail: String },
}

/// The HTTP status that each failure maps to: the request's shape is the
/// client's fault, processing is the server's.
pub open spec fn status_of(e: UploadError) -> u16 {
    match e {
        UploadError::PayloadTooLarge { .. } => 413,
        UploadError::OperationUnavailable { .. } => 501,
        UploadError::FailedToProcessImage { .. } => 500,
        _ => 400,
    }
}

/// Whether a failure is caused by the shape of the request.
pub open spec fn is_client_error(e: UploadError) -> bool {
    400 <= status_of(e) < 500
}

/// The human-readable description of each failure.
pub open spec fn message_of(e: UploadError) -> Seq<char> {
    match e {
        UploadError::InvalidFieldName { name } => "Invalid field name '"@ + name@ + "'"@,
        UploadError::MissingFieldName => "Missing field name"@,
        UploadError::MissingContentType { name } => "Missing content type for field '"@
            + name@ + "'"@,
        UploadError::MissingField { name } => "Missing field '"@ + name@ + "'"@,
        UploadError::InvalidContentType { name, content_type } => "Invalid content type '"@
            + content_type@ + "' for field '"@ + name@ + "'"@,
        UploadError::PayloadTooLarge { name, .. } => "Field '"@ + name@
            + "' exceeds the upload size limit"@,
        UploadError::OperationUnavailable { operation } => "Operation '"@ + operation_name(
            operation,
        ) + "' is not available yet"@,
        UploadError::FailedToProcessImage { .. } => "Failed to encode / decode image"@,
        UploadError::FailedToParseMultipart { .. } => "Failed to parse multipart request"@,
    }
}

/// The JSON text of a string value, quotes and escapes included.
pub uninterp spec fn json_string_of(s: Seq<char>) -> Seq<char>;

/// A character that JSON writes inside a string as it is, without escaping.
pub open spec fn is_plain_json_char(c: char) -> bool {
    c != '"' && c != '\\' && (c as u32) >= 0x20
}

/// Relies on serde_json's `Display` of `Value::String`: the JSON text of the
/// string, which depends on its characters alone; it writes a quote, each
/// character as it is but for `"`, `\` and control characters below 0x20,
/// which it escapes, and a closing quote.
#[verifier::external_body]
fn json_string(s: &String) -> (r: String)
    ensures
        r@ == json_string_of(s@),
        (forall|i: int| 0 <= i < s@.len() ==> is_plain_json_char(#[trigger] s@[i])) ==> r@
            == seq!['"'] + s@ + seq!['"'],
{
    serde_json::Value::String(s.clone()).to_string()
}

/// The response body of a failure: an object with a single `message` field.
pub open spec fn body_of(e: UploadError) -> Seq<char> {
    "{\"message\":"@ + json_string_of(message_of(e)) + "}"@
}

/// Appends `a`, then `b`, then `c` to `s`.
fn push3(s: &mut String, a: &str, b: &str, c: &str)
    ensures
        final(s)@ == old(s)@ + a@ + b@ + c@,
{
    s.append(a);
    s.append(b);
    s.append(c);
}

impl UploadError {
    /// The HTTP status of this failure.
    pub fn status_code(&self) -> (r: u16)
        ensures
            r == status_of(*self),
    {
        match self {
            UploadError::PayloadTooLarge { .. } => 413,
            UploadError::OperationUnavailable { .. } => 501,
            UploadError::FailedToProcessImage { .. } => 500,
            _ => 400,
        }
    }

    /// Whether this failure is caused by the shape of the request.
    pub fn is_client_error(&self) -> (r: bool)
        ensures
            r == is_client_error(*self),
    {
        let s = self.status_code();
        400 <= s && s < 500
    }

    /// The human-readable description of this failure.
    pub fn message(&self) -> (r: String)
        ensures
            r@ == message_of(*self),
    {
        match self {
            UploadError::InvalidFieldName { name } => {
                let mut s = String::new();
                push3(&mut s, "Invalid field name '", name.as_str(), "'");
                s
            },
            UploadError::MissingFieldName => String::from_str("Missing field name"),
            UploadError::MissingContentType { name } => {
                let mut s = String::new();
                push3(&mut s, "Missing content type for field '", name.as_str(), "'");
                s
            },
            UploadError::MissingField { name } => {
                let mut s = String::new();
                push3(&mut s, "Missing field '", name.as_str(), "'");
                s
            },
            UploadError::InvalidContentType { name, content_type } => {
                let mut s = String::new();
                push3(&mut s, "Invalid content type '", content_type.as_str(), "' for field '");
                push3(&mut s, name.as_str(), "'", "");
                proof {
                    reveal_strlit("");
                }
                s
            },
            UploadError::PayloadTooLarge { name, .. } => {
                let mut s = String::new();
                push3(&mut s, "Field '", name.as_str(), "' exceeds the upload size limit");
                s
            },
            UploadError::OperationUnavailable { operation } => {
                let mut s = String::new();
                push3(&mut s, "Operation '", operation.name(), "' is not available yet");
                s
            },
            UploadError::FailedToProcessImage { .. } => String::from_str(
                "Failed to encode / decode image",
            ),
            UploadError::FailedToParseMultipart { .. } => String::from_str(
                "Failed to parse multipart request",
            ),
        }
    }

    /// The JSON response body of this failure: `{"message":<description>}`.
    pub fn body(&self) -> (r: String)
        ensures
            r@ == body_of(*self),
    {
        let m = self.message();
        let j = json_string(&m);
        let mut s = String::new();
        push3(&mut s, "{\"message\":", j.as_str(), "}");
        s
    }
}

} // verus!
