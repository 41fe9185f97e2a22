use crate::codec::{encode_with_format, encoded_of};
use crate::codec::describe_image_error;
use crate::error::UploadError;
use crate::field::MultipartImageField;
use crate::transform::{apply_transform, is_available, Operation};
use vstd::prelude::*;

verus! {

/// A successful response: status, headers and the encoded image.
pub struct ImageResponse {
    pub status: u16,
    /// The value of `Content-Type`.
    pub content_type: String,
    /// The value of `Content-Disposition`, present only where the upload named a file.
    pub content_disposition: Option<String>,
    pub body: Vec<u8>,
}

/// The `Content-Disposition` value that offers the body as a download under `filename`.
pub open spec fn disposition_of(filename: Seq<char>) -> Seq<char> {
    "attachment; filename=\""@ + filename + "\""@
}

/// `r` answers an upload declared with `content_type` and `filename` with the
/// encoded bytes `body`.
pub open spec fn answers(
    r: ImageResponse,
    content_type: Seq<char>,
    filename: Option<String>,
    body: Seq<u8>,
) -> bool {
    &&& r.status == 200
    &&& r.content_type@ == content_type
    &&& match filename {
        Some(n) => r.content_disposition matches Some(d) && d@ == disposition_of(n@),
        None => r.content_disposition is None,
    }
    &&& r.body@ == body
}

/// The `Content-Disposition` value that offers the body as a download under `filename`.
pub fn content_disposition(filename: &String) -> (r: String)
    ensures
        r@ == disposition_of(filename@),
{
    let mut s = String::new();
    s.append("attachment; filename=\"");
    s.append(filename.as_str());
    s.append("\"");
    s
}

/// Builds the response to a field from the outcome of encoding its image: an
/// encoding failure becomes a processing failure.
pub fn response_from_encoded(
    field: &MultipartImageField,
    encoded: Result<Vec<u8>, image::ImageError>,
) -> (r: Result<ImageResponse, UploadError>)
    ensures
        match encoded {
            Ok(bytes) => r matches Ok(resp) && answers(resp, field.content_type@, field.filename, bytes@),
            Err(_) => r matches Err(UploadError::FailedToProcessImage { .. }),
        },
{
    match encoded {
        Ok(body) => {
            let content_disposition = match &field.filename {
                Some(n) => Some(content_disposition(n)),
                None => None,
            };
            Ok(ImageResponse {
                status: 200,
                content_type: field.content_type.clone(),
                content_disposition,
                body,
            })
        },
        Err(e) => Err(UploadError::FailedToProcessImage { detail: describe_image_error(&e) }),
    }
}

/// The response to a field whose image the encoder writes as `encoded`
/// (`None` where it cannot write it).
pub open spec fn encoded_response(
    r: Result<ImageResponse, UploadError>,
    field: MultipartImageField,
    encoded: Option<Seq<u8>>,
) -> bool {
    match encoded {
        Some(b) => r matches Ok(resp) && answers(resp, field.content_type@, field.filename, b),
        None => r matches Err(UploadError::FailedToProcessImage { .. }),
    }
}

/// Encodes the field's image in its own format and builds the response.
pub fn multipart_image_response(field: &MultipartImageField) -> (r: Result<
    ImageResponse,
    UploadError,
>)
    ensures
        encoded_response(r, *field, encoded_of(field.image, field.format)),
{
    let encoded = encode_with_format(&field.image, field.format);
    response_from_encoded(field, encoded)
}

/// Runs an operation on a decoded field and builds the response.
pub fn process_image_field(op: Operation, field: MultipartImageField) -> (r: Result<
    ImageResponse,
    UploadError,
>)
    ensures
        !is_available(op, field.format) ==> r == Err::<ImageResponse, UploadError>(
            UploadError::OperationUnavailable { operation: op },
        ),
        is_available(op, field.format) ==> encoded_response(
            r,
            field,
            encoded_of(field.image, field.format),
        ),
{
    let field = match apply_transform(op, field) {
        Ok(f) => f,
        Err(e) => {
            return Err(e);
        },
    };
    multipart_image_response(&field)
}

} // verus!
