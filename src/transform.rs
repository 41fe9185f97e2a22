use crate::error::UploadError;
use crate::field::MultipartImageField;
use crate::format::FormatTag;
use vstd::prelude::*;

verus! {

/// The named operations that the service offers on an uploaded image.
#[derive(Clone, Copy, Debug, PartialEq, Eq, Structural)]
pub enum Operation {
    Compress,
    StripExif,
    Watermark,
}

/// The name under which an operation is offered.
pub open spec fn operation_name(op: Operation) -> Seq<char> {
    match op {
        Operation::Compress => "compress"@,
        Operation::StripExif => "strip-exif"@,
        Operation::Watermark => "watermark"@,
    }
}

impl Operation {
    /// The name under which this operation is offered.
    pub fn name(self) -> (r: &'static str)
        ensures
            r@ == operation_name(self),
    {
        match self {
            Operation::Compress => "compress",
            Operation::StripExif => "strip-exif",
            Operation::Watermark => "watermark",
        }
    }
}

/// The formats whose encoder writes back exactly the decoded pixels.
pub open spec fn is_lossless(f: FormatTag) -> bool {
    match f {
        FormatTag::Png => true,
        FormatTag::Bmp => true,
        FormatTag::Tiff => true,
        FormatTag::Tga => true,
        FormatTag::Pnm => true,
        FormatTag::Qoi => true,
        FormatTag::Farbfeld => true,
        _ => false,
    }
}

/// Whether an operation is offered on an image of format `f`. Metadata removal
/// works by decoding and encoding again, so it is offered only where that
/// keeps every pixel; watermarking has no implementation yet.
pub open spec fn is_available(op: Operation, f: FormatTag) -> bool {
    match op {
        Operation::Compress => true,
        Operation::StripExif => is_lossless(f),
        Operation::Watermark => false,
    }
}

impl FormatTag {
    /// Whether this format's encoder writes back exactly the decoded pixels.
    pub fn is_lossless(self) -> (r: bool)
        ensures
            r == is_lossless(self),
    {
        match self {
            FormatTag::Png => true,
            FormatTag::Bmp => true,
            FormatTag::Tiff => true,
            FormatTag::Tga => true,
            FormatTag::Pnm => true,
            FormatTag::Qoi => true,
            FormatTag::Farbfeld => true,
            _ => false,
        }
    }
}

/// Applies an operation to a decoded field. Compression keeps the decoded
/// pixels and leaves the footprint to the encoder that follows; metadata
/// removal keeps the decoded pixels, which the encoder writes without any
/// metadata of the upload. An operation that is not offered for the field's
/// format says so.
pub fn apply_transform(op: Operation, field: MultipartImageField) -> (r: Result<
    MultipartImageField,
    UploadError,
>)
    ensures
        is_available(op, field.format) ==> r == Ok::<MultipartImageField, UploadError>(field),
        !is_available(op, field.format) ==> r == Err::<MultipartImageField, UploadError>(
            UploadError::OperationUnavailable { operation: op },
        ),
{
    match op {
        Operation::Compress => Ok(field),
        Operation::StripExif => if field.format.is_lossless() {
            Ok(field)
        } else {
            Err(UploadError::OperationUnavailable { operation: op })
        },
        Operation::Watermark => Err(UploadError::OperationUnavailable { operation: op }),
    }
}

} // verus!
