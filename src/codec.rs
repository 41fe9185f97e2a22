use crate::format::{format_of_mime, mime_of, FormatTag};
use crate::format::FormatTag as F;
use image::ImageFormat as G;
use vstd::prelude::*;

verus! {

/// A decoded pixel image, held as the image crate gives it.
#[verifier::external_type_specification]
#[verifier::external_body]
pub struct ExDynamicImage(image::DynamicImage);

/// The image crate's failure to decode or encode.
#[verifier::external_type_specification]
#[verifier::external_body]
pub struct ExImageError(image::ImageError);

/// The image crate's own format tag, handed to its decoder and encoder.
#[verifier::external_type_specification]
#[verifier::external_body]
pub struct ExOutsideFormat(image::ImageFormat);

/// Relies on the variants of image::ImageFormat: each format tag is carried
/// over to the image crate's variant of the same name.
#[verifier::external_body]
fn to_image_format(f: FormatTag) -> image::ImageFormat {
    match f {
        F::Png => G::Png, F::Jpeg => G::Jpeg, F::Gif => G::Gif, F::WebP => G::WebP,
        F::Pnm => G::Pnm, F::Tiff => G::Tiff, F::Tga => G::Tga, F::Dds => G::Dds,
        F::Bmp => G::Bmp, F::Ico => G::Ico, F::Hdr => G::Hdr, F::OpenExr => G::OpenExr,
        F::Farbfeld => G::Farbfeld, F::Avif => G::Avif, F::Qoi => G::Qoi,
    }
}

/// Relies on image::ImageFormat::from_mime_type: a lookup of the MIME string
/// in the crate's fixed table; the variant found is carried over one for one.
#[verifier::external_body]
pub(crate) fn lookup_mime(s: &str) -> (r: Option<FormatTag>)
    ensures
        r == format_of_mime(s@),
{
    Some(match G::from_mime_type(s)? {
        G::Png => F::Png, G::Jpeg => F::Jpeg, G::Gif => F::Gif, G::WebP => F::WebP,
        G::Pnm => F::Pnm, G::Tiff => F::Tiff, G::Tga => F::Tga, G::Dds => F::Dds,
        G::Bmp => F::Bmp, G::Ico => F::Ico, G::Hdr => F::Hdr, G::OpenExr => F::OpenExr,
        G::Farbfeld => F::Farbfeld, G::Avif => F::Avif, G::Qoi => F::Qoi,
        _ => return None,
    })
}

/// Relies on image::ImageFormat::to_mime_type: the fixed MIME string of each
/// format, `application/octet-stream` where none is registered.
#[verifier::external_body]
pub(crate) fn mime_type(f: FormatTag) -> (r: &'static str)
    ensures
        r@ == mime_of(f),
{
    to_image_format(f).to_mime_type()
}

/// Whether the bytes decode as an image with the decoder of the given format.
pub uninterp spec fn decodes_as(bytes: Seq<u8>, f: FormatTag) -> bool;

/// The image that the decoder of the given format reads from the bytes.
pub uninterp spec fn decoded_of(bytes: Seq<u8>, f: FormatTag) -> image::DynamicImage;

/// The bytes that the encoder of the given format writes for the image, if it
/// can write it at all.
pub uninterp spec fn encoded_of(img: image::DynamicImage, f: FormatTag) -> Option<Seq<u8>>;

/// Relies on image::load_from_memory_with_format: decodes the bytes with the
/// decoder of the given format, never guessing the format from the content;
/// the outcome depends on the bytes and the format alone.
#[verifier::external_body]
pub(crate) fn decode_with_format(bytes: &[u8], f: FormatTag) -> (r: Result<
    image::DynamicImage,
    image::ImageError,
>)
    ensures
        r is Ok <==> decodes_as(bytes@, f),
        r matches Ok(img) ==> img == decoded_of(bytes@, f),
{
    image::load_from_memory_with_format(bytes, to_image_format(f))
}

/// Relies on image::DynamicImage::write_to: encodes the image in the given
/// format into a fresh buffer; the outcome depends on the image and the
/// format alone.
#[verifier::external_body]
pub(crate) fn encode_with_format(img: &image::DynamicImage, f: FormatTag) -> (r: Result<
    Vec<u8>,
    image::ImageError,
>)
    ensures
        match encoded_of(*img, f) {
            Some(b) => r matches Ok(v) && v@ == b,
            None => r is Err,
        },
{
    let mut bytes = Vec::new();
    img.write_to(&mut std::io::Cursor::new(&mut bytes), to_image_format(f))?;
    Ok(bytes)
}

/// Relies on the `Display` of image::ImageError: its description, for the
/// server's own log.
#[verifier::external_body]
pub(crate) fn describe_image_error(e: &image::ImageError) -> String {
    e.to_string()
}

} // verus!
