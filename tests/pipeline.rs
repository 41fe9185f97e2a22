use image_api::error::UploadError;
use image_api::field::{check_field_head, decode_field, multipart_image_field, resolve_format, PartHead};
use image_api::format::FormatTag;
use image_api::pipeline::{handle_upload, Upload, IMAGE_FIELD, MAX_UPLOAD_BYTES};
use image_api::response::{content_disposition, multipart_image_response};
use image_api::transform::{apply_transform, Operation};

fn sample_image(w: u32, h: u32) -> image::DynamicImage {
    let img = image::RgbImage::from_fn(w, h, |x, y| {
        image::Rgb([(x * 20) as u8, (y * 20) as u8, ((x + y) * 7) as u8])
    });
    image::DynamicImage::ImageRgb8(img)
}

fn png_bytes(img: &image::DynamicImage) -> Vec<u8> {
    let mut out = Vec::new();
    img.write_to(&mut std::io::Cursor::new(&mut out), image::ImageFormat::Png)
        .unwrap();
    out
}

fn crc32(data: &[u8]) -> u32 {
    let mut crc: u32 = 0xffff_ffff;
    for &b in data {
        crc ^= b as u32;
        for _ in 0..8 {
            let mask = (crc & 1).wrapping_neg();
            crc = (crc >> 1) ^ (0xedb8_8320 & mask);
        }
    }
    !crc
}

/// Inserts an `eXIf` chunk right after the `IHDR` chunk of a PNG stream.
fn with_exif_chunk(png: &[u8]) -> Vec<u8> {
    let data: &[u8] = b"MM\x00\x2a\x00\x00\x00\x08\x00\x00";
    let mut chunk = Vec::new();
    chunk.extend_from_slice(&(data.len() as u32).to_be_bytes());
    let mut typed = b"eXIf".to_vec();
    typed.extend_from_slice(data);
    chunk.extend_from_slice(&typed);
    chunk.extend_from_slice(&crc32(&typed).to_be_bytes());
    let mut out = png[..33].to_vec();
    out.extend_from_slice(&chunk);
    out.extend_from_slice(&png[33..]);
    out
}

fn contains(hay: &[u8], needle: &[u8]) -> bool {
    hay.windows(needle.len()).any(|w| w == needle)
}

fn head(name: Option<&str>, content_type: Option<&str>, filename: Option<&str>) -> PartHead {
    PartHead {
        name: name.map(String::from),
        content_type: content_type.map(String::from),
        filename: filename.map(String::from),
        headers: vec![],
    }
}

fn upload(name: &str, content_type: &str, filename: Option<&str>, bytes: Vec<u8>) -> Option<Upload> {
    Some(Upload { head: head(Some(name), Some(content_type), filename), bytes })
}

fn expected() -> String {
    String::from(IMAGE_FIELD)
}

const ALL_FORMATS: [FormatTag; 15] = [
    FormatTag::Png,
    FormatTag::Jpeg,
    FormatTag::Gif,
    FormatTag::WebP,
    FormatTag::Pnm,
    FormatTag::Tiff,
    FormatTag::Tga,
    FormatTag::Dds,
    FormatTag::Bmp,
    FormatTag::Ico,
    FormatTag::Hdr,
    FormatTag::OpenExr,
    FormatTag::Farbfeld,
    FormatTag::Avif,
    FormatTag::Qoi,
];

#[test]
fn mime_round_trip_for_registered_formats() {
    for f in ALL_FORMATS {
        let mime = f.to_mime_type();
        if f == FormatTag::Farbfeld {
            assert_eq!(mime, "application/octet-stream");
            assert_eq!(FormatTag::from_mime_type(mime), None);
        } else {
            assert_eq!(FormatTag::from_mime_type(mime), Some(f));
        }
    }
}

#[test]
fn mime_strings_of_some_formats() {
    assert_eq!(FormatTag::Png.to_mime_type(), "image/png");
    assert_eq!(FormatTag::Tga.to_mime_type(), "image/x-targa");
    assert_eq!(FormatTag::Pnm.to_mime_type(), "image/x-portable-anymap");
}

#[test]
fn mime_aliases_resolve() {
    assert_eq!(FormatTag::from_mime_type("image/x-tga"), Some(FormatTag::Tga));
    assert_eq!(FormatTag::from_mime_type("image/x-portable-pixmap"), Some(FormatTag::Pnm));
    assert_eq!(FormatTag::from_mime_type("image/jpeg"), Some(FormatTag::Jpeg));
}

#[test]
fn unregistered_mime_types_do_not_resolve() {
    assert_eq!(FormatTag::from_mime_type("text/plain"), None);
    assert_eq!(FormatTag::from_mime_type("image/PNG"), None);
    assert_eq!(FormatTag::from_mime_type(""), None);
}

#[test]
fn resolve_format_reports_field_and_type() {
    let r = resolve_format(&String::from("image"), &String::from("text/plain"));
    match r {
        Err(UploadError::InvalidContentType { name, content_type }) => {
            assert_eq!(name, "image");
            assert_eq!(content_type, "text/plain");
        }
        _ => panic!("expected an invalid content type"),
    }
    assert_eq!(
        resolve_format(&String::from("image"), &String::from("image/gif")).ok(),
        Some(FormatTag::Gif)
    );
}

#[test]
fn missing_part_is_rejected_by_every_operation() {
    for op in [Operation::Compress, Operation::StripExif, Operation::Watermark] {
        let e = handle_upload(op, None, &expected(), MAX_UPLOAD_BYTES).err().unwrap();
        assert!(matches!(&e, UploadError::MissingField { name } if name == "image"));
        assert_eq!(e.status_code(), 400);
        assert!(e.is_client_error());
        assert_eq!(e.message(), "Missing field 'image'");
    }
}

#[test]
fn part_without_name_is_rejected() {
    let part = Some(Upload { head: head(None, Some("image/png"), None), bytes: vec![] });
    let e = handle_upload(Operation::Compress, part, &expected(), MAX_UPLOAD_BYTES)
        .err()
        .unwrap();
    assert!(matches!(e, UploadError::MissingFieldName));
    assert_eq!(e.status_code(), 400);
    assert_eq!(e.message(), "Missing field name");
}

#[test]
fn part_without_content_type_is_rejected() {
    let part = Some(Upload { head: head(Some("image"), None, None), bytes: vec![] });
    let e = handle_upload(Operation::Compress, part, &expected(), MAX_UPLOAD_BYTES)
        .err()
        .unwrap();
    assert!(matches!(&e, UploadError::MissingContentType { name } if name == "image"));
    assert_eq!(e.status_code(), 400);
    assert_eq!(e.message(), "Missing content type for field 'image'");
}

#[test]
fn wrong_field_name_carries_actual_name() {
    for name in ["photo", "file", "Image", ""] {
        let r = check_field_head(Some(head(Some(name), Some("image/png"), None)), &expected());
        let e = r.err().unwrap();
        assert!(matches!(&e, UploadError::InvalidFieldName { name: n } if n == name));
        assert!(e.is_client_error());
    }
}

#[test]
fn plain_text_content_type_is_rejected() {
    let r = check_field_head(Some(head(Some("image"), Some("text/plain"), None)), &expected());
    let e = r.err().unwrap();
    assert!(matches!(&e, UploadError::InvalidContentType { content_type, .. } if content_type == "text/plain"));
    assert_eq!(e.status_code(), 400);
    assert_eq!(e.message(), "Invalid content type 'text/plain' for field 'image'");
}

#[test]
fn accepted_head_keeps_declarations() {
    let mut h = head(Some("image"), Some("image/png"), Some("cat.png"));
    h.headers = vec![(String::from("x-tag"), String::from("1"))];
    let checked = check_field_head(Some(h), &expected()).ok().unwrap();
    assert_eq!(checked.name, "image");
    assert_eq!(checked.content_type, "image/png");
    assert_eq!(checked.filename.as_deref(), Some("cat.png"));
    assert_eq!(checked.headers, vec![(String::from("x-tag"), String::from("1"))]);
    assert_eq!(checked.format, FormatTag::Png);
}

#[test]
fn png_round_trip_keeps_pixels() {
    let img = sample_image(7, 5);
    let bytes = png_bytes(&img);
    let field = multipart_image_field(
        Some(head(Some("image"), Some("image/png"), None)),
        &bytes,
        &expected(),
        MAX_UPLOAD_BYTES,
    )
    .ok()
    .unwrap();
    assert_eq!(field.format, FormatTag::Png);
    let resp = multipart_image_response(&field).ok().unwrap();
    let back = image::load_from_memory_with_format(&resp.body, image::ImageFormat::Png).unwrap();
    assert_eq!(back.to_rgba8(), img.to_rgba8());
}

#[test]
fn strip_exif_removes_metadata_and_keeps_pixels() {
    let img = sample_image(6, 4);
    let tagged = with_exif_chunk(&png_bytes(&img));
    assert!(contains(&tagged, b"eXIf"));
    let resp = handle_upload(
        Operation::StripExif,
        upload("image", "image/png", None, tagged),
        &expected(),
        MAX_UPLOAD_BYTES,
    )
    .ok()
    .unwrap();
    assert!(!contains(&resp.body, b"eXIf"));
    let back = image::load_from_memory_with_format(&resp.body, image::ImageFormat::Png).unwrap();
    assert_eq!(back.to_rgba8(), img.to_rgba8());
}

#[test]
fn compress_answers_with_same_type_and_size() {
    let bytes = png_bytes(&sample_image(10, 10));
    let resp = handle_upload(
        Operation::Compress,
        upload("image", "image/png", None, bytes),
        &expected(),
        MAX_UPLOAD_BYTES,
    )
    .ok()
    .unwrap();
    assert_eq!(resp.status, 200);
    assert_eq!(resp.content_type, "image/png");
    assert_eq!(resp.content_disposition, None);
    let back = image::load_from_memory(&resp.body).unwrap();
    assert_eq!((back.width(), back.height()), (10, 10));
}

#[test]
fn strip_exif_with_photo_field_is_bad_request() {
    let bytes = png_bytes(&sample_image(2, 2));
    let e = handle_upload(
        Operation::StripExif,
        upload("photo", "image/png", None, bytes),
        &expected(),
        MAX_UPLOAD_BYTES,
    )
    .err()
    .unwrap();
    assert_eq!(e.status_code(), 400);
    assert_eq!(e.body(), "{\"message\":\"Invalid field name 'photo'\"}");
}

#[test]
fn watermark_with_octet_stream_is_bad_request() {
    let e = handle_upload(
        Operation::Watermark,
        upload("image", "application/octet-stream", None, vec![1, 2, 3]),
        &expected(),
        MAX_UPLOAD_BYTES,
    )
    .err()
    .unwrap();
    assert_eq!(e.status_code(), 400);
    assert!(e.body().contains("application/octet-stream"));
    assert_eq!(
        e.body(),
        "{\"message\":\"Invalid content type 'application/octet-stream' for field 'image'\"}"
    );
}

#[test]
fn watermark_is_unavailable() {
    let bytes = png_bytes(&sample_image(3, 3));
    let e = handle_upload(
        Operation::Watermark,
        upload("image", "image/png", None, bytes),
        &expected(),
        MAX_UPLOAD_BYTES,
    )
    .err()
    .unwrap();
    assert!(matches!(e, UploadError::OperationUnavailable { operation: Operation::Watermark }));
    assert_eq!(e.status_code(), 501);
    assert!(!e.is_client_error());
    assert_eq!(e.message(), "Operation 'watermark' is not available yet");
}

#[test]
fn transform_keeps_field_for_available_operations() {
    let bytes = png_bytes(&sample_image(4, 4));
    for op in [Operation::Compress, Operation::StripExif] {
        let checked = check_field_head(
            Some(head(Some("image"), Some("image/png"), Some("a.png"))),
            &expected(),
        )
        .ok()
        .unwrap();
        let field = decode_field(checked, &bytes, MAX_UPLOAD_BYTES).ok().unwrap();
        let out = apply_transform(op, field).ok().unwrap();
        assert_eq!(out.filename.as_deref(), Some("a.png"));
        assert_eq!(out.format, FormatTag::Png);
        assert_eq!((out.image.width(), out.image.height()), (4, 4));
    }
}

#[test]
fn corrupt_payload_is_a_processing_failure() {
    let e = handle_upload(
        Operation::Compress,
        upload("image", "image/png", None, vec![0, 1, 2, 3, 4, 5]),
        &expected(),
        MAX_UPLOAD_BYTES,
    )
    .err()
    .unwrap();
    assert!(matches!(e, UploadError::FailedToProcessImage { .. }));
    assert_eq!(e.status_code(), 500);
    assert_eq!(e.body(), "{\"message\":\"Failed to encode / decode image\"}");
}

#[test]
fn mislabeled_payload_is_not_sniffed() {
    let bytes = png_bytes(&sample_image(3, 3));
    let e = handle_upload(
        Operation::Compress,
        upload("image", "image/jpeg", None, bytes),
        &expected(),
        MAX_UPLOAD_BYTES,
    )
    .err()
    .unwrap();
    assert!(matches!(e, UploadError::FailedToProcessImage { .. }));
}

#[test]
fn oversized_payload_is_rejected() {
    let bytes = png_bytes(&sample_image(3, 3));
    let limit = bytes.len() - 1;
    let e = handle_upload(
        Operation::Compress,
        upload("image", "image/png", None, bytes),
        &expected(),
        limit,
    )
    .err()
    .unwrap();
    assert!(matches!(&e, UploadError::PayloadTooLarge { name, limit: l } if name == "image" && *l == limit));
    assert_eq!(e.status_code(), 413);
    assert!(e.is_client_error());
    assert_eq!(e.message(), "Field 'image' exceeds the upload size limit");
}

#[test]
fn payload_at_the_limit_is_accepted() {
    let bytes = png_bytes(&sample_image(3, 3));
    let limit = bytes.len();
    let resp = handle_upload(
        Operation::Compress,
        upload("image", "image/png", None, bytes),
        &expected(),
        limit,
    );
    assert!(resp.is_ok());
}

#[test]
fn filename_gives_content_disposition() {
    let bytes = png_bytes(&sample_image(2, 3));
    let resp = handle_upload(
        Operation::StripExif,
        upload("image", "image/png", Some("cat.png"), bytes),
        &expected(),
        MAX_UPLOAD_BYTES,
    )
    .ok()
    .unwrap();
    assert_eq!(
        resp.content_disposition.as_deref(),
        Some("attachment; filename=\"cat.png\"")
    );
    assert_eq!(content_disposition(&String::from("")), "attachment; filename=\"\"");
}

#[test]
fn multipart_failure_message_and_status() {
    let e = UploadError::FailedToParseMultipart { detail: String::from("boundary") };
    assert_eq!(e.status_code(), 400);
    assert_eq!(e.message(), "Failed to parse multipart request");
}

#[test]
fn error_body_escapes_message() {
    let e = UploadError::InvalidFieldName { name: String::from("a\"b\\c") };
    assert_eq!(e.body(), "{\"message\":\"Invalid field name 'a\\\"b\\\\c'\"}");
}

#[test]
fn operation_names() {
    assert_eq!(Operation::Compress.name(), "compress");
    assert_eq!(Operation::StripExif.name(), "strip-exif");
    assert_eq!(Operation::Watermark.name(), "watermark");
}


#[test]
fn wrong_name_without_content_type_is_invalid_name() {
    let e = multipart_image_field(Some(head(Some("photo"), None, None)), &[], &expected(), 10)
        .err()
        .unwrap();
    assert!(matches!(&e, UploadError::InvalidFieldName { name } if name == "photo"));
}

#[test]
fn extraction_reports_each_shape_error() {
    let e = multipart_image_field(None, &[], &expected(), 10).err().unwrap();
    assert!(matches!(&e, UploadError::MissingField { name } if name == "image"));
    let e = multipart_image_field(Some(head(None, Some("image/png"), None)), &[], &expected(), 10)
        .err()
        .unwrap();
    assert!(matches!(e, UploadError::MissingFieldName));
    let e = multipart_image_field(Some(head(Some("image"), None, None)), &[], &expected(), 10)
        .err()
        .unwrap();
    assert!(matches!(&e, UploadError::MissingContentType { name } if name == "image"));
    let e = multipart_image_field(
        Some(head(Some("image"), Some("text/plain"), None)),
        &[],
        &expected(),
        10,
    )
    .err()
    .unwrap();
    assert!(matches!(&e, UploadError::InvalidContentType { content_type, .. } if content_type == "text/plain"));
}

#[test]
fn strip_exif_on_lossy_format_is_unavailable() {
    let img = sample_image(8, 8);
    let mut jpeg = Vec::new();
    img.write_to(&mut std::io::Cursor::new(&mut jpeg), image::ImageFormat::Jpeg)
        .unwrap();
    let e = handle_upload(
        Operation::StripExif,
        upload("image", "image/jpeg", None, jpeg),
        &expected(),
        MAX_UPLOAD_BYTES,
    )
    .err()
    .unwrap();
    assert!(matches!(e, UploadError::OperationUnavailable { operation: Operation::StripExif }));
    assert!(FormatTag::Png.is_lossless());
    assert!(!FormatTag::Jpeg.is_lossless());
}

#[test]
fn compress_never_answers_with_more_bytes() {
    // A PNG written with an oversized ancillary chunk re-encodes shorter; a
    // tightly written one may re-encode longer, and then the upload is kept.
    for bytes in [png_bytes(&sample_image(10, 10)), with_exif_chunk(&png_bytes(&sample_image(10, 10)))] {
        let len = bytes.len();
        let resp = handle_upload(
            Operation::Compress,
            upload("image", "image/png", None, bytes.clone()),
            &expected(),
            MAX_UPLOAD_BYTES,
        )
        .ok()
        .unwrap();
        assert!(resp.body.len() <= len);
        let back = image::load_from_memory_with_format(&resp.body, image::ImageFormat::Png).unwrap();
        assert_eq!((back.width(), back.height()), (10, 10));
    }
}

#[test]
fn processing_failure_keeps_detail_out_of_body() {
    let e = handle_upload(
        Operation::Compress,
        upload("image", "image/png", None, vec![9, 9, 9]),
        &expected(),
        MAX_UPLOAD_BYTES,
    )
    .err()
    .unwrap();
    match &e {
        UploadError::FailedToProcessImage { detail } => assert!(!detail.is_empty()),
        _ => panic!("expected a processing failure"),
    }
    assert_eq!(e.body(), "{\"message\":\"Failed to encode / decode image\"}");
}
