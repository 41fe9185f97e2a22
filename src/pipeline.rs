use crate::error::{is_client_error, UploadError};
use crate::codec::{decoded_of, decodes_as, encoded_of};
use crate::field::{declared_format, head_error, multipart_image_field, PartHead};
use crate::format::{format_of_mime, lemma_registered_mime_is_image};
use crate::response::{answers, process_image_field, ImageResponse};
use crate::transform::{is_available, Operation};
use vstd::prelude::*;

verus! {

/// The name of the one field that every operation expects.
pub const IMAGE_FIELD: &'static str = "image";

/// The largest payload, in bytes, that an upload may carry.
pub const MAX_UPLOAD_BYTES: usize = 16 * 1024 * 1024;

/// The first part of a request body, read whole: its declarations and payload.
pub struct Upload {
    pub head: PartHead,
    pub bytes: Vec<u8>,
}

/// The declarations of the first part, if the body has one.
pub open spec fn head_of(part: Option<Upload>) -> Option<PartHead> {
    match part {
        Some(u) => Some(u.head),
        None => None,
    }
}

/// The body that answers `op`: compression never answers with more bytes
/// than were uploaded, and falls back on the upload itself where the encoder
/// wrote more.
pub open spec fn body_for(op: Operation, encoded: Seq<u8>, uploaded: Seq<u8>) -> Seq<u8> {
    if op == Operation::Compress && encoded.len() > uploaded.len() {
        uploaded
    } else {
        encoded
    }
}

/// Handles one request for `op`: extracts the image field from the first part
/// under `field_name`, runs the operation and encodes the result in the
/// declared format.
pub fn handle_upload(
    op: Operation,
    part: Option<Upload>,
    field_name: &String,
    max_len: usize,
) -> (r: Result<ImageResponse, UploadError>)
    ensures
        head_error(head_of(part), *field_name) matches Some(e) ==> r == Err::<
            ImageResponse,
            UploadError,
        >(e),
        head_error(head_of(part), *field_name) is None ==> {
            let u = part->0;
            let b = u.bytes@;
            let f = declared_format(u.head);
            &&& b.len() > max_len ==> r == Err::<ImageResponse, UploadError>(
                UploadError::PayloadTooLarge { name: u.head.name->0, limit: max_len },
            )
            &&& b.len() <= max_len && !decodes_as(b, f) ==> (r is Err
                && r->Err_0 is FailedToProcessImage)
            &&& b.len() <= max_len && decodes_as(b, f) && !is_available(op, f) ==> r == Err::<
                ImageResponse,
                UploadError,
            >(UploadError::OperationUnavailable { operation: op })
            &&& b.len() <= max_len && decodes_as(b, f) && is_available(op, f) ==> match encoded_of(
                decoded_of(b, f),
                f,
            ) {
                Some(e) => r matches Ok(resp) && answers(
                    resp,
                    u.head.content_type->0@,
                    u.head.filename,
                    body_for(op, e, b),
                ),
                None => r is Err && r->Err_0 is FailedToProcessImage,
            }
        },
        op == Operation::Compress && r is Ok ==> r->Ok_0.body@.len() <= part->0.bytes@.len(),
{
    let (head, bytes) = match part {
        None => (None, Vec::new()),
        Some(u) => (Some(u.head), u.bytes),
    };
    let field = match multipart_image_field(head, bytes.as_slice(), field_name, max_len) {
        Ok(f) => f,
        Err(e) => {
            return Err(e);
        },
    };
    let mut resp = match process_image_field(op, field) {
        Ok(resp) => resp,
        Err(e) => {
            return Err(e);
        },
    };
    if op == Operation::Compress && resp.body.len() > bytes.len() {
        resp.body = bytes;
    }
    Ok(resp)
}

/// A body without any part is refused as missing the expected field, which is
/// the client's fault; `handle_upload` makes this check before any operation.
pub proof fn lemma_missing_part_rejected(field_name: String)
    ensures
        head_error(None, field_name) == Some(UploadError::MissingField { name: field_name }),
        is_client_error(UploadError::MissingField { name: field_name }),
{
}

/// A part under a name other than the expected one is refused with that
/// name, whatever it declares besides, which is the client's fault.
pub proof fn lemma_wrong_name_rejected(p: PartHead, field_name: String)
    requires
        p.name is Some,
        p.name->0@ != field_name@,
    ensures
        head_error(Some(p), field_name) == Some(UploadError::InvalidFieldName { name: p.name->0 }),
        is_client_error(UploadError::InvalidFieldName { name: p.name->0 }),
{
}

/// A part under the expected name that declares `text/plain` is refused as an
/// invalid content type, which is the client's fault.
pub proof fn lemma_plain_text_rejected(p: PartHead, field_name: String)
    requires
        p.name is Some,
        p.name->0@ == field_name@,
        p.content_type is Some,
        p.content_type->0@ == "text/plain"@,
    ensures
        head_error(Some(p), field_name) == Some(
            UploadError::InvalidContentType { name: p.name->0, content_type: p.content_type->0 },
        ),
        is_client_error(
            UploadError::InvalidContentType { name: p.name->0, content_type: p.content_type->0 },
        ),
{
    reveal_strlit("text/plain");
    reveal_strlit("image/");
    if format_of_mime("text/plain"@) is Some {
        lemma_registered_mime_is_image("text/plain"@);
        assert("text/plain"@.subrange(0, 6)[0] != "image/"@[0]);
    }
}

} // verus!
