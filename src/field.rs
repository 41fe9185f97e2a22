use crate::codec::{decode_with_format, decoded_of, decodes_as, describe_image_error};
use crate::error::UploadError;
use crate::format::{format_of_mime, FormatTag};
use vstd::prelude::*;

verus! {

/// What a multipart part declares about itself before its payload is read.
pub struct PartHead {
    pub name: Option<String>,
    pub content_type: Option<String>,
    pub filename: Option<String>,
    /// The part's headers, name and value, in the order they came.
    pub headers: Vec<(String, String)>,
}

/// The declarations of a part that passed every check of its shape.
pub struct FieldHead {
    pub name: String,
    pub content_type: String,
    pub filename: Option<String>,
    pub headers: Vec<(String, String)>,
    /// The format resolved from `content_type`.
    pub format: FormatTag,
}

/// An uploaded image field: its declarations and the decoded image.
pub struct MultipartImageField {
    pub name: String,
    pub content_type: String,
    pub filename: Option<String>,
    pub headers: Vec<(String, String)>,
    pub image: image::DynamicImage,
    pub format: FormatTag,
}

impl FieldHead {
    /// The declared content type resolves to the recorded format.
    pub open spec fn wf(&self) -> bool {
        format_of_mime(self.content_type@) == Some(self.format)
    }
}

impl MultipartImageField {
    /// The declared content type resolves to the recorded format.
    pub open spec fn wf(&self) -> bool {
        format_of_mime(self.content_type@) == Some(self.format)
    }
}

/// The failure, if any, of checking the shape of the first part against the
/// expected field name; the checks come in this order.
pub open spec fn head_error(part: Option<PartHead>, field_name: String) -> Option<UploadError> {
    match part {
        None => Some(UploadError::MissingField { name: field_name }),
        Some(p) => match p.name {
            None => Some(UploadError::MissingFieldName),
            Some(name) => if name@ != field_name@ {
                Some(UploadError::InvalidFieldName { name })
            } else {
                match p.content_type {
                    None => Some(UploadError::MissingContentType { name }),
                    Some(ct) => if format_of_mime(ct@) is None {
                        Some(UploadError::InvalidContentType { name, content_type: ct })
                    } else {
                        None
                    },
                }
            },
        },
    }
}

/// The format that a part which passed every check declares.
pub open spec fn declared_format(p: PartHead) -> FormatTag {
    format_of_mime(p.content_type->0@)->0
}

/// `h` keeps every declaration of `p` and the format resolved from its content type.
pub open spec fn keeps_part(h: FieldHead, p: PartHead) -> bool {
    &&& p.name == Some(h.name)
    &&& p.content_type == Some(h.content_type)
    &&& h.filename == p.filename
    &&& h.headers == p.headers
    &&& h.wf()
}

/// `f` keeps every declaration of `h`, with `img` as its image.
pub open spec fn keeps_head(f: MultipartImageField, h: FieldHead, img: image::DynamicImage) -> bool {
    &&& f.name == h.name
    &&& f.content_type == h.content_type
    &&& f.filename == h.filename
    &&& f.headers == h.headers
    &&& f.format == h.format
    &&& f.image == img
}

/// Resolves the content type declared by field `name` to its format tag.
pub fn resolve_format(name: &String, content_type: &String) -> (r: Result<FormatTag, UploadError>)
    ensures
        r == match format_of_mime(content_type@) {
            Some(f) => Ok(f),
            None => Err(
                UploadError::InvalidContentType { name: *name, content_type: *content_type },
            ),
        },
{
    match FormatTag::from_mime_type(content_type.as_str()) {
        Some(f) => Ok(f),
        None => Err(
            UploadError::InvalidContentType { name: name.clone(), content_type: content_type.clone() },
        ),
    }
}

/// Checks the declarations of the first part of a body (`None` where the body
/// has no part) against the expected field name, and resolves its format.
pub fn check_field_head(part: Option<PartHead>, field_name: &String) -> (r: Result<
    FieldHead,
    UploadError,
>)
    ensures
        match head_error(part, *field_name) {
            Some(e) => r == Err::<FieldHead, UploadError>(e),
            None => r matches Ok(h) && keeps_part(h, part->0),
        },
{
    let p = match part {
        None => {
            return Err(UploadError::MissingField { name: field_name.clone() });
        },
        Some(p) => p,
    };
    let PartHead { name, content_type, filename, headers } = p;
    let name = match name {
        None => {
            return Err(UploadError::MissingFieldName);
        },
        Some(n) => n,
    };
    if !name.eq(field_name) {
        return Err(UploadError::InvalidFieldName { name });
    }
    let content_type = match content_type {
        None => {
            return Err(UploadError::MissingContentType { name });
        },
        Some(c) => c,
    };
    let format = match resolve_format(&name, &content_type) {
        Ok(f) => f,
        Err(e) => {
            return Err(e);
        },
    };
    Ok(FieldHead { name, content_type, filename, headers, format })
}

/// Completes a checked field with the outcome of decoding its payload: a
/// decoding failure becomes a processing failure.
pub fn field_from_decoded(
    head: FieldHead,
    decoded: Result<image::DynamicImage, image::ImageError>,
) -> (r: Result<MultipartImageField, UploadError>)
    ensures
        match decoded {
            Ok(img) => r matches Ok(f) && keeps_head(f, head, img),
            Err(_) => r matches Err(UploadError::FailedToProcessImage { .. }),
        },
{
    match decoded {
        Ok(image) => {
            let FieldHead { name, content_type, filename, headers, format } = head;
            Ok(MultipartImageField { name, content_type, filename, headers, image, format })
        },
        Err(e) => Err(UploadError::FailedToProcessImage { detail: describe_image_error(&e) }),
    }
}

/// Decodes the payload of a checked field with the decoder of its resolved
/// format, after holding the payload to `max_len` bytes.
pub fn decode_field(head: FieldHead, bytes: &[u8], max_len: usize) -> (r: Result<
    MultipartImageField,
    UploadError,
>)
    ensures
        bytes@.len() > max_len ==> r == Err::<MultipartImageField, UploadError>(
            UploadError::PayloadTooLarge { name: head.name, limit: max_len },
        ),
        bytes@.len() <= max_len ==> (r is Ok <==> decodes_as(bytes@, head.format)),
        bytes@.len() <= max_len && !decodes_as(bytes@, head.format) ==> r matches Err(
            UploadError::FailedToProcessImage { .. },
        ),
        r matches Ok(f) ==> keeps_head(f, head, decoded_of(bytes@, head.format)),
{
    if bytes.len() > max_len {
        return Err(UploadError::PayloadTooLarge { name: head.name, limit: max_len });
    }
    let decoded = decode_with_format(bytes, head.format);
    field_from_decoded(head, decoded)
}

/// Extracts the image field from the first part of a body: `part` holds its
/// declarations (`None` where the body has no part) and `bytes` its payload.
/// The part is checked against `field_name`, its content type resolved, its
/// payload held to `max_len` bytes and decoded in the resolved format.
pub fn multipart_image_field(
    part: Option<PartHead>,
    bytes: &[u8],
    field_name: &String,
    max_len: usize,
) -> (r: Result<MultipartImageField, UploadError>)
    ensures
        head_error(part, *field_name) matches Some(e) ==> r == Err::<
            MultipartImageField,
            UploadError,
        >(e),
        head_error(part, *field_name) is None ==> {
            let p = part->0;
            let f = declared_format(p);
            &&& bytes@.len() > max_len ==> r == Err::<MultipartImageField, UploadError>(
                UploadError::PayloadTooLarge { name: p.name->0, limit: max_len },
            )
            &&& bytes@.len() <= max_len ==> (r is Ok <==> decodes_as(bytes@, f))
            &&& bytes@.len() <= max_len && !decodes_as(bytes@, f) ==> (r is Err && r->Err_0 is FailedToProcessImage)
            &&& match r {
                Ok(fld) => {
                &&& p.name == Some(fld.name)
                &&& p.content_type == Some(fld.content_type)
                &&& fld.filename == p.filename
                &&& fld.headers == p.headers
                &&& fld.format == f
                &&& fld.image == decoded_of(bytes@, f)
                &&& fld.wf()
                },
                Err(_) => true,
            }
        },
{
    let head = match check_field_head(part, field_name) {
        Ok(h) => h,
        Err(e) => {
            return Err(e);
        },
    };
    decode_field(head, bytes, max_len)
}

} // verus!
