use vstd::prelude::*;

verus! {

/// Image encodings that the pipeline knows how to name.
#[derive(Clone, Copy, Debug, PartialEq, Eq, Structural)]
pub enum FormatTag {
    Png,
    Jpeg,
    Gif,
    WebP,
    Pnm,
    Tiff,
    Tga,
    Dds,
    Bmp,
    Ico,
    Hdr,
    OpenExr,
    Farbfeld,
    Avif,
    Qoi,
}

/// The MIME string registered for each format; a format without a registered
/// MIME type is named `application/octet-stream`.
pub open spec fn mime_of(f: FormatTag) -> Seq<char> {
    match f {
        FormatTag::Avif => "image/avif"@,
        FormatTag::Jpeg => "image/jpeg"@,
        FormatTag::Png => "image/png"@,
        FormatTag::Gif => "image/gif"@,
        FormatTag::WebP => "image/webp"@,
        FormatTag::Tiff => "image/tiff"@,
        FormatTag::Tga => "image/x-targa"@,
        FormatTag::Dds => "image/vnd-ms.dds"@,
        FormatTag::Bmp => "image/bmp"@,
        FormatTag::Ico => "image/x-icon"@,
        FormatTag::Hdr => "image/vnd.radiance"@,
        FormatTag::OpenExr => "image/x-exr"@,
        FormatTag::Pnm => "image/x-portable-anymap"@,
        FormatTag::Qoi => "image/x-qoi"@,
        FormatTag::Farbfeld => "application/octet-stream"@,
    }
}

/// The format that a MIME string resolves to, if any is registered for it.
pub open spec fn format_of_mime(s: Seq<char>) -> Option<FormatTag> {
    if s == "image/avif"@ {
        Some(FormatTag::Avif)
    } else if s == "image/jpeg"@ {
        Some(FormatTag::Jpeg)
    } else if s == "image/png"@ {
        Some(FormatTag::Png)
    } else if s == "image/gif"@ {
        Some(FormatTag::Gif)
    } else if s == "image/webp"@ {
        Some(FormatTag::WebP)
    } else if s == "image/tiff"@ {
        Some(FormatTag::Tiff)
    } else if s == "image/x-targa"@ || s == "image/x-tga"@ {
        Some(FormatTag::Tga)
    } else if s == "image/vnd-ms.dds"@ {
        Some(FormatTag::Dds)
    } else if s == "image/bmp"@ {
        Some(FormatTag::Bmp)
    } else if s == "image/x-icon"@ {
        Some(FormatTag::Ico)
    } else if s == "image/vnd.radiance"@ {
        Some(FormatTag::Hdr)
    } else if s == "image/x-exr"@ {
        Some(FormatTag::OpenExr)
    } else if s == "image/x-portable-bitmap"@ || s == "image/x-portable-graymap"@
        || s == "image/x-portable-pixmap"@ || s == "image/x-portable-anymap"@ {
        Some(FormatTag::Pnm)
    } else if s == "image/x-qoi"@ {
        Some(FormatTag::Qoi)
    } else {
        None
    }
}

impl FormatTag {
    /// Resolves a MIME string to its format tag; unregistered strings give `None`.
    pub fn from_mime_type(content_type: &str) -> (r: Option<FormatTag>)
        ensures
            r == format_of_mime(content_type@),
    {
        crate::codec::lookup_mime(content_type)
    }

    /// The MIME string of this format.
    pub fn to_mime_type(self) -> (r: &'static str)
        ensures
            r@ == mime_of(self),
    {
        crate::codec::mime_type(self)
    }
}

/// Every format that has a registered MIME string resolves back to itself from
/// that string: naming a format and resolving the name is the identity.
pub proof fn lemma_mime_round_trip(f: FormatTag)
    requires
        f != FormatTag::Farbfeld,
    ensures
        format_of_mime(mime_of(f)) == Some(f),
{
    // Registered strings of one length differ at position 6, 8 or 17; naming
    // those characters lets the solver tell every two of them apart.
    reveal_strlit("image/avif");
    let ghost _ = ("image/avif"@.len(), "image/avif"@[6], "image/avif"@[8], "image/avif"@[17]);
    reveal_strlit("image/jpeg");
    let ghost _ = ("image/jpeg"@.len(), "image/jpeg"@[6], "image/jpeg"@[8], "image/jpeg"@[17]);
    reveal_strlit("image/png");
    let ghost _ = ("image/png"@.len(), "image/png"@[6], "image/png"@[8], "image/png"@[17]);
    reveal_strlit("image/gif");
    let ghost _ = ("image/gif"@.len(), "image/gif"@[6], "image/gif"@[8], "image/gif"@[17]);
    reveal_strlit("image/webp");
    let ghost _ = ("image/webp"@.len(), "image/webp"@[6], "image/webp"@[8], "image/webp"@[17]);
    reveal_strlit("image/tiff");
    let ghost _ = ("image/tiff"@.len(), "image/tiff"@[6], "image/tiff"@[8], "image/tiff"@[17]);
    reveal_strlit("image/x-targa");
    let ghost _ = ("image/x-targa"@.len(), "image/x-targa"@[6], "image/x-targa"@[8], "image/x-targa"@[17]);
    reveal_strlit("image/x-tga");
    let ghost _ = ("image/x-tga"@.len(), "image/x-tga"@[6], "image/x-tga"@[8], "image/x-tga"@[17]);
    reveal_strlit("image/vnd-ms.dds");
    let ghost _ = ("image/vnd-ms.dds"@.len(), "image/vnd-ms.dds"@[6], "image/vnd-ms.dds"@[8], "image/vnd-ms.dds"@[17]);
    reveal_strlit("image/bmp");
    let ghost _ = ("image/bmp"@.len(), "image/bmp"@[6], "image/bmp"@[8], "image/bmp"@[17]);
    reveal_strlit("image/x-icon");
    let ghost _ = ("image/x-icon"@.len(), "image/x-icon"@[6], "image/x-icon"@[8], "image/x-icon"@[17]);
    reveal_strlit("image/vnd.radiance");
    let ghost _ = ("image/vnd.radiance"@.len(), "image/vnd.radiance"@[6], "image/vnd.radiance"@[8], "image/vnd.radiance"@[17]);
    reveal_strlit("image/x-exr");
    let ghost _ = ("image/x-exr"@.len(), "image/x-exr"@[6], "image/x-exr"@[8], "image/x-exr"@[17]);
    reveal_strlit("image/x-portable-bitmap");
    let ghost _ = ("image/x-portable-bitmap"@.len(), "image/x-portable-bitmap"@[6], "image/x-portable-bitmap"@[8], "image/x-portable-bitmap"@[17]);
    reveal_strlit("image/x-portable-graymap");
    let ghost _ = ("image/x-portable-graymap"@.len(), "image/x-portable-graymap"@[6], "image/x-portable-graymap"@[8], "image/x-portable-graymap"@[17]);
    reveal_strlit("image/x-portable-pixmap");
    let ghost _ = ("image/x-portable-pixmap"@.len(), "image/x-portable-pixmap"@[6], "image/x-portable-pixmap"@[8], "image/x-portable-pixmap"@[17]);
    reveal_strlit("image/x-portable-anymap");
    let ghost _ = ("image/x-portable-anymap"@.len(), "image/x-portable-anymap"@[6], "image/x-portable-anymap"@[8], "image/x-portable-anymap"@[17]);
    reveal_strlit("image/x-qoi");
    let ghost _ = ("image/x-qoi"@.len(), "image/x-qoi"@[6], "image/x-qoi"@[8], "image/x-qoi"@[17]);
    reveal_strlit("application/octet-stream");
    let ghost _ = ("application/octet-stream"@.len(), "application/octet-stream"@[6], "application/octet-stream"@[8], "application/octet-stream"@[17]);
}

/// Two formats with registered MIME strings never share one.
pub proof fn lemma_mime_injective(f: FormatTag, g: FormatTag)
    requires
        f != FormatTag::Farbfeld,
        g != FormatTag::Farbfeld,
        mime_of(f) == mime_of(g),
    ensures
        f == g,
{
    lemma_mime_round_trip(f);
    lemma_mime_round_trip(g);
}

/// Every MIME string that resolves to a format is of the `image/` family.
pub proof fn lemma_registered_mime_is_image(s: Seq<char>)
    requires
        format_of_mime(s) is Some,
    ensures
        s.len() > 6,
        s.subrange(0, 6) == "image/"@,
{
    reveal_strlit("image/");
    reveal_strlit("image/avif");
    assert("image/avif"@.subrange(0, 6) =~= "image/"@);
    reveal_strlit("image/jpeg");
    assert("image/jpeg"@.subrange(0, 6) =~= "image/"@);
    reveal_strlit("image/png");
    assert("image/png"@.subrange(0, 6) =~= "image/"@);
    reveal_strlit("image/gif");
    assert("image/gif"@.subrange(0, 6) =~= "image/"@);
    reveal_strlit("image/webp");
    assert("image/webp"@.subrange(0, 6) =~= "image/"@);
    reveal_strlit("image/tiff");
    assert("image/tiff"@.subrange(0, 6) =~= "image/"@);
    reveal_strlit("image/x-targa");
    assert("image/x-targa"@.subrange(0, 6) =~= "image/"@);
    reveal_strlit("image/x-tga");
    assert("image/x-tga"@.subrange(0, 6) =~= "image/"@);
    reveal_strlit("image/vnd-ms.dds");
    assert("image/vnd-ms.dds"@.subrange(0, 6) =~= "image/"@);
    reveal_strlit("image/bmp");
    assert("image/bmp"@.subrange(0, 6) =~= "image/"@);
    reveal_strlit("image/x-icon");
    assert("image/x-icon"@.subrange(0, 6) =~= "image/"@);
    reveal_strlit("image/vnd.radiance");
    assert("image/vnd.radiance"@.subrange(0, 6) =~= "image/"@);
    reveal_strlit("image/x-exr");
    assert("image/x-exr"@.subrange(0, 6) =~= "image/"@);
    reveal_strlit("image/x-portable-bitmap");
    assert("image/x-portable-bitmap"@.subrange(0, 6) =~= "image/"@);
    reveal_strlit("image/x-portable-graymap");
    assert("image/x-portable-graymap"@.subrange(0, 6) =~= "image/"@);
    reveal_strlit("image/x-portable-pixmap");
    assert("image/x-portable-pixmap"@.subrange(0, 6) =~= "image/"@);
    reveal_strlit("image/x-portable-anymap");
    assert("image/x-portable-anymap"@.subrange(0, 6) =~= "image/"@);
    reveal_strlit("image/x-qoi");
    assert("image/x-qoi"@.subrange(0, 6) =~= "image/"@);
}

} // verus!
