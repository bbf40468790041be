//! Decoding of request payloads and helpers for custom fonts.
use vstd::prelude::*;
use crate::diagrams::providers::text_bytes;
use crate::config::{join_path, opt_view, path_join, spec_cache_dir_choice, Config};
use vstd::string::*;
use crate::text::{
    chars_of, concat2, decimal, find_first, find_last, first_index_of, has_prefix, last_index_of,
    owned, slice_chars, spec_decimal, starts_with, str_eq, string_from_chars,
};
use crate::trusted::{
    decode_png, encode_webp_lossless, png_decoding, webp_lossless,
    base64url_decode, base64url_decoded, deflate_decode_text, deflate_text, hex_encode, hex_lower,
    sha256, sha256_of, to_lowercase, unicode_lower, zlib_decode_text, zlib_text,
};

verus! {

broadcast use vstd::string::group_string_axioms;

/// Why a diagram payload could not be decoded.
#[derive(Debug, Clone)]
pub enum DecodeError {
    /// The payload is not URL-safe Base64.
    InvalidBase64,
    /// Neither Zlib nor raw DEFLATE gave text, and reading the raw DEFLATE
    /// stream failed with an `InvalidData` error (as invalid UTF-8 does); its
    /// text.
    InflateInvalidData(String),
    /// Neither gave text, and reading the raw DEFLATE stream failed with
    /// another error (as a corrupt stream does); its text.
    InflateFailed(String),
}

impl DecodeError {
    /// The text shown for the error.
    pub open spec fn spec_message(&self) -> Seq<char> {
        match self {
            DecodeError::InvalidBase64 => "Base64URL decode failed — input is not valid Base64URL"@,
            DecodeError::InflateInvalidData(e) => "Decompression failed — input is not valid Zlib or Deflate compressed data: "@
                + e@,
            DecodeError::InflateFailed(e) => "Decompressed data is not valid UTF-8 text: "@ + e@,
        }
    }

    /// The text shown for the error.
    pub fn to_string(&self) -> (s: String)
        ensures
            s@ == self.spec_message(),
    {
        match self {
            DecodeError::InvalidBase64 => owned("Base64URL decode failed — input is not valid Base64URL"),
            DecodeError::InflateInvalidData(e) => concat2(
                "Decompression failed — input is not valid Zlib or Deflate compressed data: ",
                e.as_str(),
            ),
            DecodeError::InflateFailed(e) => concat2("Decompressed data is not valid UTF-8 text: ", e.as_str()),
        }
    }
}

/// The text a payload decodes to, or the message of the error.
pub open spec fn spec_decode(encoded: Seq<char>) -> Result<Seq<char>, Seq<char>> {
    match base64url_decoded(encoded) {
        None => Err("Base64URL decode failed — input is not valid Base64URL"@),
        Some(b) => match zlib_text(b) {
            Some(t) => Ok(t),
            None => match deflate_text(b) {
                Ok(t) => Ok(t),
                Err((invalid_data, e)) => if invalid_data {
                    Err("Decompression failed — input is not valid Zlib or Deflate compressed data: "@ + e)
                } else {
                    Err("Decompressed data is not valid UTF-8 text: "@ + e)
                },
            },
        },
    }
}

/// Decodes a Base64URL-encoded + Zlib/Deflate-compressed string.
///
/// Attempts Zlib (RFC 1950) first, then falls back to raw Deflate (RFC 1951).
pub fn decode(encoded: &str) -> (r: Result<String, DecodeError>)
    ensures
        spec_decode(encoded@) matches Ok(t) ==> (r matches Ok(s) && s@ == t),
        spec_decode(encoded@) matches Err(m) ==> (r matches Err(e) && e.spec_message() == m),
        base64url_decoded(encoded@) is None ==> r matches Err(DecodeError::InvalidBase64),
        base64url_decoded(encoded@) matches Some(b) ==> {
            match zlib_text(b) {
                Some(t) => r matches Ok(s) && s@ == t,
                None => match deflate_text(b) {
                    Ok(t) => r matches Ok(s) && s@ == t,
                    Err((invalid_data, e)) => if invalid_data {
                        r matches Err(DecodeError::InflateInvalidData(m)) && m@ == e
                    } else {
                        r matches Err(DecodeError::InflateFailed(m)) && m@ == e
                    },
                },
            }
        },
{
    let bytes = match base64url_decode(encoded) {
        Some(b) => b,
        None => return Err(DecodeError::InvalidBase64),
    };
    match zlib_decode_text(&bytes) {
        Some(s) => return Ok(s),
        None => {},
    }
    match deflate_decode_text(&bytes) {
        Ok(s) => Ok(s),
        Err(e) => {
            if e.invalid_data {
                Err(DecodeError::InflateInvalidData(e.text))
            } else {
                Err(DecodeError::InflateFailed(e.text))
            }
        },
    }
}

/// Represents WebP quality configuration.
#[derive(Debug, Clone, Copy)]
pub enum WebpQuality {
    Lossless,
    /// 0 to 100
    Lossy(u8),
}

/// The pixel layout of a decoded image (`image::ColorType`); `Other` stands for
/// layouts added to that enum later.
#[derive(Debug, Clone, Copy, PartialEq, Eq, Structural)]
pub enum PixelLayout {
    L8,
    La8,
    Rgb8,
    Rgba8,
    L16,
    La16,
    Rgb16,
    Rgba16,
    Rgb32F,
    Rgba32F,
    Other,
}

/// Bytes per pixel of a layout (`ColorType::bytes_per_pixel`).
pub open spec fn bytes_per_pixel(l: PixelLayout) -> nat {
    match l {
        PixelLayout::L8 => 1,
        PixelLayout::L16 | PixelLayout::La8 => 2,
        PixelLayout::Rgb8 => 3,
        PixelLayout::Rgba8 | PixelLayout::La16 => 4,
        PixelLayout::Rgb16 => 6,
        PixelLayout::Rgba16 => 8,
        PixelLayout::Rgb32F => 12,
        PixelLayout::Rgba32F => 16,
        PixelLayout::Other => 0,
    }
}

fn layout_bytes(l: PixelLayout) -> (n: u64)
    ensures
        n == bytes_per_pixel(l),
{
    match l {
        PixelLayout::L8 => 1,
        PixelLayout::L16 | PixelLayout::La8 => 2,
        PixelLayout::Rgb8 => 3,
        PixelLayout::Rgba8 | PixelLayout::La16 => 4,
        PixelLayout::Rgb16 => 6,
        PixelLayout::Rgba16 => 8,
        PixelLayout::Rgb32F => 12,
        PixelLayout::Rgba32F => 16,
        PixelLayout::Other => 0,
    }
}

/// A decoded raster image: its size, pixel layout and raw pixel bytes.
#[derive(Debug, Clone)]
pub struct RasterImage {
    pub width: u32,
    pub height: u32,
    pub layout: PixelLayout,
    pub pixels: Vec<u8>,
}

/// The plain values of a decoded image, if there is one.
pub open spec fn raster_view(r: Option<RasterImage>) -> Option<(u32, u32, PixelLayout, Seq<u8>)> {
    match r {
        Some(img) => Some((img.width, img.height, img.layout, img.pixels@)),
        None => None,
    }
}

/// Whether pixel bytes fill an image of this size and layout exactly, as the
/// WebP encoder demands.
pub open spec fn pixels_fit(width: u32, height: u32, layout: PixelLayout, pixels: Seq<u8>) -> bool {
    layout != PixelLayout::Other && pixels.len() == width * height * bytes_per_pixel(layout)
}

/// Converts PNG bytes to lossless WebP (the quality is not consulted). A PNG
/// that does not decode, or whose pixels do not fill its size, or that the
/// encoder rejects, is reported with the stage that failed.
pub fn png_to_webp(png_bytes: &Vec<u8>, _quality: WebpQuality) -> (r: Result<Vec<u8>, String>)
    ensures
        png_decoding(png_bytes@) is None ==> (r matches Err(m) && m@
            == "Failed to decode PNG for WebP conversion"@),
        png_decoding(png_bytes@) matches Some(d) ==> (if pixels_fit(d.0, d.1, d.2, d.3) {
            match webp_lossless(d.0, d.1, d.2, d.3) {
                Some(w) => r matches Ok(b) && b@ == w,
                None => r matches Err(m) && m@ == "Failed to encode lossless WebP from PNG"@,
            }
        } else {
            r matches Err(m) && m@ == "Failed to encode lossless WebP from PNG"@
        }),
{
    let img = match decode_png(png_bytes) {
        Some(img) => img,
        None => {
            return Err(owned("Failed to decode PNG for WebP conversion"));
        },
    };
    let fits = match img.layout {
        PixelLayout::Other => false,
        _ => {
            let bpp = layout_bytes(img.layout) as u128;
            let w = img.width as u128;
            let h = img.height as u128;
            proof {
                assert(w * h <= 0xffff_ffffu128 * 0xffff_ffffu128) by (nonlinear_arith)
                    requires
                        w <= 0xffff_ffffu128,
                        h <= 0xffff_ffffu128,
                ;
                assert(w * h * bpp <= 0xffff_ffffu128 * 0xffff_ffffu128 * 16) by (nonlinear_arith)
                    requires
                        w * h <= 0xffff_ffffu128 * 0xffff_ffffu128,
                        bpp <= 16,
                ;
            }
            (img.pixels.len() as u128) == w * h * bpp
        },
    };
    if !fits {
        return Err(owned("Failed to encode lossless WebP from PNG"));
    }
    match encode_webp_lossless(&img) {
        Some(b) => Ok(b),
        None => Err(owned("Failed to encode lossless WebP from PNG")),
    }
}

/// The largest font accepted, in bytes (5 MiB).
pub const MAX_FONT_BYTES: u64 = 5 * 1024 * 1024;

/// Whether a font source is fetched over HTTP(S) rather than read from disk.
pub fn is_remote(url: &str) -> (b: bool)
    ensures
        b == (has_prefix(url@, "http://"@) || has_prefix(url@, "https://"@)),
{
    starts_with(url, "http://") || starts_with(url, "https://")
}

/// Why a font of `actual` bytes, announced as `content_length`, is refused, if
/// it is.
pub open spec fn spec_font_size_error(content_length: Option<u64>, actual: nat) -> Option<Seq<char>> {
    if actual > MAX_FONT_BYTES {
        Some("Font payload too large ("@ + spec_decimal(actual) + " bytes). Maximum allowed: 5242880 bytes"@)
    } else {
        match content_length {
            Some(e) => if e > MAX_FONT_BYTES {
                Some("Font payload too large based on Content-Length ("@ + spec_decimal(e as nat) + " bytes)"@)
            } else {
                None
            },
            None => None,
        }
    }
}

/// Checks a font's size: the bytes received and, when the server announced
/// one, the Content-Length, must not exceed 5 MiB.
pub fn validate_font_size(content_length: Option<u64>, actual: usize) -> (r: Result<(), String>)
    ensures
        spec_font_size_error(content_length, actual as nat) is None ==> r is Ok,
        spec_font_size_error(content_length, actual as nat) matches Some(m) ==> (r matches Err(e)
            && e@ == m),
{
    if actual as u64 > MAX_FONT_BYTES {
        let mut m = concat2("Font payload too large (", decimal(actual as u64).as_str());
        m.append(" bytes). Maximum allowed: 5242880 bytes");
        return Err(m);
    }
    match content_length {
        Some(expected) => {
            if expected > MAX_FONT_BYTES {
                let mut m = concat2(
                    "Font payload too large based on Content-Length (",
                    decimal(expected).as_str(),
                );
                m.append(" bytes)");
                return Err(m);
            }
        },
        None => {},
    }
    Ok(())
}


/// The part of a font URL that names the file: the text after the last `/`,
/// cut at the first `?` and then at the first `#`.
pub open spec fn url_file_segment(s: Seq<char>) -> Seq<char> {
    let a = s.skip(last_index_of(s, '/') + 1);
    let b = if first_index_of(a, '?') >= 0 {
        a.take(first_index_of(a, '?'))
    } else {
        a
    };
    if first_index_of(b, '#') >= 0 {
        b.take(first_index_of(b, '#'))
    } else {
        b
    }
}

/// `Path::extension` of a single file name: the text after the last dot, if
/// that dot is not the first character (and the name is not `..`).
pub open spec fn file_extension(f: Seq<char>) -> Option<Seq<char>> {
    if f == ".."@ {
        None
    } else {
        let i = last_index_of(f, '.');
        if i <= 0 {
            None
        } else {
            Some(f.skip(i + 1))
        }
    }
}

/// The cache file name of a font: the SHA-256 of its URL or path in lower-case
/// hex, then the lower-cased extension of the named file, or `.ttf`.
pub open spec fn spec_safe_file_name(source: &str) -> Seq<char> {
    let hash = hex_lower(sha256_of(source.spec_bytes()));
    let seg = url_file_segment(source@);
    if seg.len() > 0 && file_extension(seg) is Some {
        hash + "."@ + unicode_lower(file_extension(seg)->0)
    } else {
        hash + ".ttf"@
    }
}

/// The cache file name of a font source.
pub fn safe_file_name(source: &str) -> (name: String)
    ensures
        name@ == spec_safe_file_name(source),
{
    let hash = hex_encode(&sha256(&text_bytes(source)));
    let v = chars_of(source);
    let start: usize = match find_last(&v, '/') {
        Some(i) => i + 1,
        None => 0,
    };
    let a = slice_chars(&v, start, v.len());
    assert(a@ =~= source@.skip(last_index_of(source@, '/') + 1));
    let b = match find_first(&a, '?') {
        Some(i) => slice_chars(&a, 0, i),
        None => a,
    };
    let seg = match find_first(&b, '#') {
        Some(i) => slice_chars(&b, 0, i),
        None => b,
    };
    assert(seg@ =~= url_file_segment(source@));
    if seg.len() > 0 {
        let seg_text = string_from_chars(&seg);
        if !str_eq(seg_text.as_str(), "..") {
            match find_last(&seg, '.') {
                Some(i) => {
                    if i > 0 {
                        let ext = string_from_chars(&slice_chars(&seg, i + 1, seg.len()));
                        let mut name = hash;
                        name.append(".");
                        name.append(to_lowercase(ext.as_str()).as_str());
                        return name;
                    }
                },
                None => {},
            }
        }
    }
    let mut name = hash;
    name.append(".ttf");
    name
}

/// Where fonts are cached under a resolved cache directory: its `fonts`
/// subdirectory, or `.kroki-fonts` when there is no cache directory.
pub open spec fn spec_fonts_under(cache_dir: Option<Seq<char>>) -> Seq<char> {
    match cache_dir {
        Some(d) => path_join(d, "fonts"@),
        None => ".kroki-fonts"@,
    }
}

/// The font cache directory: `fonts` under the given cache directory, else
/// under the resolved one, else `.kroki-fonts`. Creating it is left to the
/// caller.
pub fn font_cache_dir(cache_dir: Option<&str>) -> (r: String)
    ensures
        cache_dir matches Some(d) ==> r@ == path_join(d@, "fonts"@),
        cache_dir is None ==> exists|system: Option<Seq<char>>|
            r@ == spec_fonts_under(#[trigger] spec_cache_dir_choice(None, system)),
{
    match cache_dir {
        Some(d) => join_path(d, "fonts"),
        None => {
            let resolved = Config::resolve_cache_dir(None);
            let ghost system = choose|system: Option<Seq<char>>|
                opt_view(resolved) == #[trigger] spec_cache_dir_choice(None, system);
            match resolved {
                Some(d) => join_path(d.as_str(), "fonts"),
                None => owned(".kroki-fonts"),
            }
        },
    }
}

} // verus!
