//! Output-format negotiation: the requested selector, the caller's
//! capabilities, and the source's own format decide what the image is
//! encoded as, and whether the response varies on the Accept header.

use crate::error::ImageError;
use crate::strutil::{contains_seq, push_char, str_contains, str_eq};
use vstd::prelude::*;

verus! {

/// The format selector a request may carry: an explicit output format, or
/// `Auto` to ask for content negotiation.
#[derive(Clone, Copy, PartialEq, Eq, Structural, Debug)]
pub enum ResizeImageFormat {
    Auto,
    Png,
    Jpeg,
    Gif,
    WebP,
    Pnm,
    Tiff,
    Tga,
    Dds,
    Bmp,
    Ico,
    Hdr,
    OpenExr,
    Farbfeld,
    Avif,
}

/// A concrete image encoding the codec engine can write.
#[derive(Clone, Copy, PartialEq, Eq, Structural, Debug)]
pub enum ImageFormat {
    Png,
    Jpeg,
    Gif,
    WebP,
    Pnm,
    Tiff,
    Tga,
    Dds,
    Bmp,
    Ico,
    Hdr,
    OpenExr,
    Farbfeld,
    Avif,
}

impl ResizeImageFormat {
    /// The concrete format an explicit selector names; `Auto` names none.
    pub open spec fn image_format_spec(self) -> Option<ImageFormat> {
        match self {
            ResizeImageFormat::Auto => None,
            ResizeImageFormat::Png => Some(ImageFormat::Png),
            ResizeImageFormat::Jpeg => Some(ImageFormat::Jpeg),
            ResizeImageFormat::Gif => Some(ImageFormat::Gif),
            ResizeImageFormat::WebP => Some(ImageFormat::WebP),
            ResizeImageFormat::Pnm => Some(ImageFormat::Pnm),
            ResizeImageFormat::Tiff => Some(ImageFormat::Tiff),
            ResizeImageFormat::Tga => Some(ImageFormat::Tga),
            ResizeImageFormat::Dds => Some(ImageFormat::Dds),
            ResizeImageFormat::Bmp => Some(ImageFormat::Bmp),
            ResizeImageFormat::Ico => Some(ImageFormat::Ico),
            ResizeImageFormat::Hdr => Some(ImageFormat::Hdr),
            ResizeImageFormat::OpenExr => Some(ImageFormat::OpenExr),
            ResizeImageFormat::Farbfeld => Some(ImageFormat::Farbfeld),
            ResizeImageFormat::Avif => Some(ImageFormat::Avif),
        }
    }

    /// Convert an explicit selector into the format it names.
    pub fn to_image_format(self) -> (r: Option<ImageFormat>)
        ensures
            r == self.image_format_spec(),
    {
        match self {
            ResizeImageFormat::Auto => None,
            ResizeImageFormat::Png => Some(ImageFormat::Png),
            ResizeImageFormat::Jpeg => Some(ImageFormat::Jpeg),
            ResizeImageFormat::Gif => Some(ImageFormat::Gif),
            ResizeImageFormat::WebP => Some(ImageFormat::WebP),
            ResizeImageFormat::Pnm => Some(ImageFormat::Pnm),
            ResizeImageFormat::Tiff => Some(ImageFormat::Tiff),
            ResizeImageFormat::Tga => Some(ImageFormat::Tga),
            ResizeImageFormat::Dds => Some(ImageFormat::Dds),
            ResizeImageFormat::Bmp => Some(ImageFormat::Bmp),
            ResizeImageFormat::Ico => Some(ImageFormat::Ico),
            ResizeImageFormat::Hdr => Some(ImageFormat::Hdr),
            ResizeImageFormat::OpenExr => Some(ImageFormat::OpenExr),
            ResizeImageFormat::Farbfeld => Some(ImageFormat::Farbfeld),
            ResizeImageFormat::Avif => Some(ImageFormat::Avif),
        }
    }
}

/// Does an Accept header advertise WebP support? Absent header: no.
pub open spec fn supports_webp_spec(accept: Option<&str>) -> bool {
    match accept {
        Some(a) => contains_seq(a@, "image/webp"@),
        None => false,
    }
}

/// Content-negotiation probe: the caller supports WebP when its Accept
/// header mentions the WebP media type.
pub fn supports_webp(accept: Option<&str>) -> (b: bool)
    ensures
        b == supports_webp_spec(accept),
{
    match accept {
        Some(a) => str_contains(a, "image/webp"),
        None => false,
    }
}

/// The format the response is encoded as: an explicit non-`Auto` selector
/// always wins; `Auto` picks WebP when the caller supports it and falls
/// back to the source's own format otherwise; no selector keeps the
/// source's format.
pub open spec fn negotiated_format_spec(
    requested: Option<ResizeImageFormat>,
    webp_ok: bool,
    source: ImageFormat,
) -> ImageFormat {
    match requested {
        None => source,
        Some(rf) => if rf is Auto {
            if webp_ok {
                ImageFormat::WebP
            } else {
                source
            }
        } else {
            match rf.image_format_spec() {
                Some(f) => f,
                None => source,
            }
        },
    }
}

/// The negotiator's outcome: the chosen encoding, and whether negotiation
/// was exercised, so the response must carry a `Vary` marker.
#[derive(Clone, Copy, PartialEq, Eq, Structural, Debug)]
pub struct FormatChoice {
    pub format: ImageFormat,
    pub vary: bool,
}

/// Decide the output format, and whether the response must vary on the
/// Accept header. The `Vary` marker is owed exactly when negotiation was
/// requested, whether or not WebP won.
pub fn negotiate_format(
    requested: Option<ResizeImageFormat>,
    webp_ok: bool,
    source: ImageFormat,
) -> (c: FormatChoice)
    ensures
        c.format == negotiated_format_spec(requested, webp_ok, source),
        c.vary == (requested == Some(ResizeImageFormat::Auto)),
{
    let vary = matches!(requested, Some(ResizeImageFormat::Auto));
    let format = match requested {
        None => source,
        Some(rf) => {
            if rf == ResizeImageFormat::Auto && webp_ok {
                ImageFormat::WebP
            } else {
                match rf.to_image_format() {
                    Some(f) => f,
                    None => source,
                }
            }
        },
    };
    FormatChoice { format, vary }
}

impl ImageFormat {
    /// The MIME type the response's Content-Type carries for this format.
    pub open spec fn mime_type_spec(self) -> Seq<char> {
        match self {
            ImageFormat::Avif => "image/avif"@,
            ImageFormat::Jpeg => "image/jpeg"@,
            ImageFormat::Png => "image/png"@,
            ImageFormat::Gif => "image/gif"@,
            ImageFormat::WebP => "image/webp"@,
            ImageFormat::Tiff => "image/tiff"@,
            ImageFormat::Tga => "image/x-tga"@,
            ImageFormat::Dds => "image/vnd-ms.dds"@,
            ImageFormat::Bmp => "image/bmp"@,
            ImageFormat::Ico => "image/x-icon"@,
            ImageFormat::Hdr => "image/vnd.radiance"@,
            ImageFormat::OpenExr => "image/x-exr"@,
            ImageFormat::Pnm => "image/x-portable-bitmap"@,
            ImageFormat::Farbfeld => "application/octet-stream"@,
        }
    }

    /// The MIME type for this format.
    pub fn mime_type(self) -> (m: &'static str)
        ensures
            m@ == self.mime_type_spec(),
    {
        match self {
            ImageFormat::Avif => "image/avif",
            ImageFormat::Jpeg => "image/jpeg",
            ImageFormat::Png => "image/png",
            ImageFormat::Gif => "image/gif",
            ImageFormat::WebP => "image/webp",
            ImageFormat::Tiff => "image/tiff",
            ImageFormat::Tga => "image/x-tga",
            ImageFormat::Dds => "image/vnd-ms.dds",
            ImageFormat::Bmp => "image/bmp",
            ImageFormat::Ico => "image/x-icon",
            ImageFormat::Hdr => "image/vnd.radiance",
            ImageFormat::OpenExr => "image/x-exr",
            ImageFormat::Pnm => "image/x-portable-bitmap",
            ImageFormat::Farbfeld => "application/octet-stream",
        }
    }

    /// The primary file-name extension of this format, used as the codec
    /// engine's write hint.
    pub open spec fn extension_spec(self) -> Seq<char> {
        match self {
            ImageFormat::Png => "png"@,
            ImageFormat::Jpeg => "jpg"@,
            ImageFormat::Gif => "gif"@,
            ImageFormat::WebP => "webp"@,
            ImageFormat::Pnm => "pbm"@,
            ImageFormat::Tiff => "tiff"@,
            ImageFormat::Tga => "tga"@,
            ImageFormat::Dds => "dds"@,
            ImageFormat::Bmp => "bmp"@,
            ImageFormat::Ico => "ico"@,
            ImageFormat::Hdr => "hdr"@,
            ImageFormat::OpenExr => "exr"@,
            ImageFormat::Farbfeld => "ff"@,
            ImageFormat::Avif => "avif"@,
        }
    }

    /// The primary extension for this format.
    pub fn extension(self) -> (e: &'static str)
        ensures
            e@ == self.extension_spec(),
    {
        match self {
            ImageFormat::Png => "png",
            ImageFormat::Jpeg => "jpg",
            ImageFormat::Gif => "gif",
            ImageFormat::WebP => "webp",
            ImageFormat::Pnm => "pbm",
            ImageFormat::Tiff => "tiff",
            ImageFormat::Tga => "tga",
            ImageFormat::Dds => "dds",
            ImageFormat::Bmp => "bmp",
            ImageFormat::Ico => "ico",
            ImageFormat::Hdr => "hdr",
            ImageFormat::OpenExr => "exr",
            ImageFormat::Farbfeld => "ff",
            ImageFormat::Avif => "avif",
        }
    }
}

/// ASCII-lowercase one character; anything but `A`..`Z` is unchanged.
pub open spec fn lower_char(c: char) -> char {
    match c {
        'A' => 'a',
        'B' => 'b',
        'C' => 'c',
        'D' => 'd',
        'E' => 'e',
        'F' => 'f',
        'G' => 'g',
        'H' => 'h',
        'I' => 'i',
        'J' => 'j',
        'K' => 'k',
        'L' => 'l',
        'M' => 'm',
        'N' => 'n',
        'O' => 'o',
        'P' => 'p',
        'Q' => 'q',
        'R' => 'r',
        'S' => 's',
        'T' => 't',
        'U' => 'u',
        'V' => 'v',
        'W' => 'w',
        'X' => 'x',
        'Y' => 'y',
        'Z' => 'z',
        _ => c,
    }
}

/// ASCII-lowercase a whole name.
pub open spec fn lower_seq(s: Seq<char>) -> Seq<char> {
    s.map_values(|c: char| lower_char(c))
}

/// ASCII-lowercase one character.
fn lower_char_exec(c: char) -> (r: char)
    ensures
        r == lower_char(c),
{
    match c {
        'A' => 'a',
        'B' => 'b',
        'C' => 'c',
        'D' => 'd',
        'E' => 'e',
        'F' => 'f',
        'G' => 'g',
        'H' => 'h',
        'I' => 'i',
        'J' => 'j',
        'K' => 'k',
        'L' => 'l',
        'M' => 'm',
        'N' => 'n',
        'O' => 'o',
        'P' => 'p',
        'Q' => 'q',
        'R' => 'r',
        'S' => 's',
        'T' => 't',
        'U' => 'u',
        'V' => 'v',
        'W' => 'w',
        'X' => 'x',
        'Y' => 'y',
        'Z' => 'z',
        _ => c,
    }
}

/// ASCII-lowercase a whole name.
fn ascii_lower(s: &str) -> (r: String)
    ensures
        r@ == lower_seq(s@),
{
    let n = s.unicode_len();
    let mut out = String::new();
    let mut i: usize = 0;
    while i < n
        invariant
            n == s@.len(),
            0 <= i <= n,
            out@ == lower_seq(s@.take(i as int)),
        decreases n - i,
    {
        let c = lower_char_exec(s.get_char(i));
        push_char(&mut out, c);
        proof {
            assert(s@.take(i + 1).map_values(|x: char| lower_char(x)) =~= s@.take(
                i as int,
            ).map_values(|x: char| lower_char(x)).push(lower_char(s@[i as int])));
        }
        i += 1;
    }
    proof {
        assert(s@.take(n as int) =~= s@);
    }
    out
}

/// Which format a codec-reported name (matched case-insensitively by its
/// usual file-name extensions) resolves to.
pub open spec fn format_from_extension_spec(s: Seq<char>) -> Option<ImageFormat> {
    let l = lower_seq(s);
    if l == "avif"@ {
        Some(ImageFormat::Avif)
    } else if l == "jpg"@ || l == "jpeg"@ {
        Some(ImageFormat::Jpeg)
    } else if l == "png"@ {
        Some(ImageFormat::Png)
    } else if l == "gif"@ {
        Some(ImageFormat::Gif)
    } else if l == "webp"@ {
        Some(ImageFormat::WebP)
    } else if l == "tif"@ || l == "tiff"@ {
        Some(ImageFormat::Tiff)
    } else if l == "tga"@ {
        Some(ImageFormat::Tga)
    } else if l == "dds"@ {
        Some(ImageFormat::Dds)
    } else if l == "bmp"@ {
        Some(ImageFormat::Bmp)
    } else if l == "ico"@ {
        Some(ImageFormat::Ico)
    } else if l == "hdr"@ {
        Some(ImageFormat::Hdr)
    } else if l == "exr"@ {
        Some(ImageFormat::OpenExr)
    } else if l == "pbm"@ || l == "pam"@ || l == "ppm"@ || l == "pgm"@ || l == "pnm"@ {
        Some(ImageFormat::Pnm)
    } else if l == "ff"@ || l == "farbfeld"@ {
        Some(ImageFormat::Farbfeld)
    } else {
        None
    }
}

/// Resolve a codec-reported format name (for example `JPEG`) to the format
/// it names, matching its usual extensions case-insensitively.
pub fn format_from_extension(name: &str) -> (r: Option<ImageFormat>)
    ensures
        r == format_from_extension_spec(name@),
{
    let l = ascii_lower(name);
    let ls = l.as_str();
    if str_eq(ls, "avif") {
        Some(ImageFormat::Avif)
    } else if str_eq(ls, "jpg") || str_eq(ls, "jpeg") {
        Some(ImageFormat::Jpeg)
    } else if str_eq(ls, "png") {
        Some(ImageFormat::Png)
    } else if str_eq(ls, "gif") {
        Some(ImageFormat::Gif)
    } else if str_eq(ls, "webp") {
        Some(ImageFormat::WebP)
    } else if str_eq(ls, "tif") || str_eq(ls, "tiff") {
        Some(ImageFormat::Tiff)
    } else if str_eq(ls, "tga") {
        Some(ImageFormat::Tga)
    } else if str_eq(ls, "dds") {
        Some(ImageFormat::Dds)
    } else if str_eq(ls, "bmp") {
        Some(ImageFormat::Bmp)
    } else if str_eq(ls, "ico") {
        Some(ImageFormat::Ico)
    } else if str_eq(ls, "hdr") {
        Some(ImageFormat::Hdr)
    } else if str_eq(ls, "exr") {
        Some(ImageFormat::OpenExr)
    } else if str_eq(ls, "pbm") || str_eq(ls, "pam") || str_eq(ls, "ppm") || str_eq(ls, "pgm")
        || str_eq(ls, "pnm") {
        Some(ImageFormat::Pnm)
    } else if str_eq(ls, "ff") || str_eq(ls, "farbfeld") {
        Some(ImageFormat::Farbfeld)
    } else {
        None
    }
}

/// Resolve the source image's own format, or fail with `InvalidFormat`
/// when the reported name resolves to nothing.
pub fn resolve_source_format(name: &str) -> (r: Result<ImageFormat, ImageError>)
    ensures
        match r {
            Ok(f) => format_from_extension_spec(name@) == Some(f),
            Err(e) => format_from_extension_spec(name@) is None && e == ImageError::InvalidFormat,
        },
{
    match format_from_extension(name) {
        Some(f) => Ok(f),
        None => Err(ImageError::InvalidFormat),
    }
}

} // verus!
