//! Declarations and wrappers for the standard-library and outside-crate items
//! that the verified code calls. Each contract here is believed, not proved.
use vstd::prelude::*;
use dashmap::DashMap;
use base64::Engine;
use sha2::Digest;
use std::io::Read;
use std::time::Instant;
use crate::server::circuit_breaker::ProviderCircuit;
use crate::server::rate_limit::TokenBucket;
use crate::utils::{pixels_fit, raster_view, PixelLayout, RasterImage};

verus! {

/// `std::time::Instant`, carried through opaquely.
#[verifier::external_type_specification]
#[verifier::external_body]
pub struct ExInstant(Instant);

/// `dashmap::DashMap`, the concurrent map that holds per-key state.
#[verifier::external_type_specification]
#[verifier::external_body]
#[verifier::reject_recursive_types(K)]
#[verifier::reject_recursive_types(V)]
#[verifier::reject_recursive_types(S)]
pub struct ExDashMap<K, V, S>(DashMap<K, V, S>);

/// `Instant::now`: the current reading of the monotonic clock. Nothing is
/// claimed of the value.
#[verifier::external_body]
pub fn instant_now() -> (t: Instant) {
    Instant::now()
}

/// `Instant::elapsed` in whole seconds (`Duration::as_secs`). The value depends on
/// the clock, so nothing is claimed of it.
#[verifier::external_body]
pub fn elapsed_secs(t: &Instant) -> (s: u64) {
    t.elapsed().as_secs()
}

/// `dirs::cache_dir`: the user's cache directory, which the crate reads from the
/// environment (`$XDG_CACHE_HOME` or `$HOME/.cache` on Linux), converted to text
/// with `to_string_lossy`. Nothing is claimed of the result: it depends on the
/// environment.
#[verifier::external_body]
pub fn system_cache_dir() -> (r: Option<String>) {
    dirs::cache_dir().map(|p| p.to_string_lossy().into_owned())
}

/// The table of circuits, one per provider name.
pub type CircuitTable = DashMap<String, ProviderCircuit>;

/// What a circuit table holds: provider name to its circuit.
pub uninterp spec fn circuit_table(m: CircuitTable) -> Map<
    Seq<char>,
    ProviderCircuit,
>;

/// `DashMap::new`: an empty table.
#[verifier::external_body]
pub fn circuit_table_new() -> (m: CircuitTable)
    ensures
        circuit_table(m).dom().is_empty(),
{
    DashMap::new()
}

/// `DashMap::get` on a provider name, copying the circuit out of the guard:
/// the circuit stored under `key`, if any.
#[verifier::external_body]
pub fn circuit_table_get(m: &CircuitTable, key: &str) -> (r: Option<
    ProviderCircuit,
>)
    ensures
        circuit_table(*m).contains_key(key@) ==> r == Some(circuit_table(*m)[key@]),
        !circuit_table(*m).contains_key(key@) ==> r is None,
{
    m.get(key).map(|entry| *entry.value())
}

/// `DashMap::insert`: stores `value` under `key`, replacing any previous circuit
/// and leaving every other key as it was.
#[verifier::external_body]
pub fn circuit_table_insert(m: &mut CircuitTable, key: String, value: ProviderCircuit)
    ensures
        circuit_table(*final(m)) == circuit_table(*old(m)).insert(key@, value),
{
    m.insert(key, value);
}

/// `DashMap::iter`, mapping each entry to its key and the circuit's state. The
/// order of the entries depends on the map's hasher and is not claimed; each
/// stored key appears exactly once.
#[verifier::external_body]
pub fn circuit_table_states(m: &CircuitTable) -> (r: Vec<(String, crate::server::circuit_breaker::CircuitState)>)
    ensures
        forall|i: int|
            0 <= i < r@.len() ==> circuit_table(*m).contains_key(#[trigger] r@[i].0@)
                && circuit_table(*m)[r@[i].0@].state == r@[i].1,
        forall|i: int, j: int| 0 <= i < j < r@.len() ==> #[trigger] r@[i].0@ != #[trigger] r@[j].0@,
        forall|k: Seq<char>|
            circuit_table(*m).contains_key(k) ==> exists|i: int|
                0 <= i < r@.len() && #[trigger] r@[i].0@ == k,
{
    m.iter().map(|entry| (entry.key().clone(), entry.value().state)).collect()
}


/// `Instant::duration_since` in nanoseconds (`Duration::as_nanos`): the time
/// from `earlier` to `later`, zero if `later` is not after `earlier`. The
/// value depends on the clock readings, so nothing is claimed of it.
#[verifier::external_body]
pub fn nanos_between(earlier: &Instant, later: &Instant) -> (n: u128) {
    later.duration_since(*earlier).as_nanos()
}

/// The table of token buckets, keyed by client address (see `IpAddress::key`).
pub type BucketTable = DashMap<(bool, u128), TokenBucket>;

/// What a bucket table holds: address key to its bucket.
pub uninterp spec fn bucket_table(m: BucketTable) -> Map<(bool, u128), TokenBucket>;

/// `DashMap::new`: an empty table.
#[verifier::external_body]
pub fn bucket_table_new() -> (m: BucketTable)
    ensures
        bucket_table(m).dom().is_empty(),
{
    DashMap::new()
}

/// `DashMap::get`, copying the bucket out of the guard: the bucket stored under
/// `key`, if any.
#[verifier::external_body]
pub fn bucket_table_get(m: &BucketTable, key: (bool, u128)) -> (r: Option<TokenBucket>)
    ensures
        bucket_table(*m).contains_key(key) ==> r == Some(bucket_table(*m)[key]),
        !bucket_table(*m).contains_key(key) ==> r is None,
{
    m.get(&key).map(|entry| *entry.value())
}

/// `DashMap::insert`: stores `value` under `key`, replacing any previous bucket
/// and leaving every other key as it was.
#[verifier::external_body]
pub fn bucket_table_insert(m: &mut BucketTable, key: (bool, u128), value: TokenBucket)
    ensures
        bucket_table(*final(m)) == bucket_table(*old(m)).insert(key, value),
{
    m.insert(key, value);
}


/// The text `String::from_utf8_lossy` makes of a byte string.
pub uninterp spec fn lossy_text(bytes: Seq<u8>) -> Seq<char>;

/// `String::from_utf8_lossy`, made owned: invalid sequences become U+FFFD. Of
/// valid UTF-8 the result is the decoded text.
#[verifier::external_body]
pub fn utf8_lossy(bytes: &Vec<u8>) -> (s: String)
    ensures
        s@ == lossy_text(bytes@),
        vstd::utf8::valid_utf8(bytes@) ==> s@ == vstd::utf8::decode_utf8(bytes@),
{
    String::from_utf8_lossy(bytes).into_owned()
}


/// What `base64` decodes a text to with the URL-safe alphabet, no padding
/// written and padding accepted or not (`DecodePaddingMode::Indifferent`);
/// `None` where it reports an error.
pub uninterp spec fn base64url_decoded(s: Seq<char>) -> Option<Seq<u8>>;

/// `GeneralPurpose::decode` with the URL-safe alphabet and indifferent
/// padding: the bytes, or `None` when the text is not such Base64.
#[verifier::external_body]
pub fn base64url_decode(s: &str) -> (r: Option<Vec<u8>>)
    ensures
        r is Some <==> base64url_decoded(s@) is Some,
        r matches Some(b) ==> b@ == base64url_decoded(s@)->0,
{
    let engine = base64::engine::GeneralPurpose::new(
        &base64::alphabet::URL_SAFE,
        base64::engine::general_purpose::NO_PAD.with_decode_padding_mode(
            base64::engine::DecodePaddingMode::Indifferent,
        ),
    );
    engine.decode(s).ok()
}

/// The standard Base64 alphabet.
pub open spec fn base64_char(v: int) -> char {
    if v < 26 {
        (65 + v) as char
    } else if v < 52 {
        (97 + v - 26) as char
    } else if v < 62 {
        (48 + v - 52) as char
    } else if v == 62 {
        '+'
    } else {
        '/'
    }
}

/// Standard Base64 with `=` padding, three bytes to four characters.
pub open spec fn base64_standard(b: Seq<u8>) -> Seq<char>
    decreases b.len(),
{
    if b.len() == 0 {
        Seq::empty()
    } else {
        let x = b[0] as int;
        if b.len() == 1 {
            seq![base64_char(x / 4), base64_char((x % 4) * 16), '=', '=']
        } else {
            let y = b[1] as int;
            if b.len() == 2 {
                seq![
                    base64_char(x / 4),
                    base64_char((x % 4) * 16 + y / 16),
                    base64_char((y % 16) * 4),
                    '=',
                ]
            } else {
                let z = b[2] as int;
                seq![
                    base64_char(x / 4),
                    base64_char((x % 4) * 16 + y / 16),
                    base64_char((y % 16) * 4 + z / 64),
                    base64_char(z % 64),
                ] + base64_standard(b.skip(3))
            }
        }
    }
}

/// `base64::engine::general_purpose::STANDARD.encode`: standard Base64 with padding.
#[verifier::external_body]
pub fn base64_standard_encode(bytes: &Vec<u8>) -> (s: String)
    ensures
        s@ == base64_standard(bytes@),
{
    base64::engine::general_purpose::STANDARD.encode(bytes)
}

/// The text that a zlib (RFC 1950) stream decompresses to, read as UTF-8;
/// `None` where `flate2` reports an error.
pub uninterp spec fn zlib_text(bytes: Seq<u8>) -> Option<Seq<char>>;

/// `flate2::read::ZlibDecoder` with `read_to_string`: the text, or `None` when
/// decompression or UTF-8 decoding fails.
#[verifier::external_body]
pub fn zlib_decode_text(bytes: &Vec<u8>) -> (r: Option<String>)
    ensures
        r is Some <==> zlib_text(bytes@) is Some,
        r matches Some(t) ==> t@ == zlib_text(bytes@)->0,
{
    let mut decoder = flate2::read::ZlibDecoder::new(&bytes[..]);
    let mut s = String::new();
    match decoder.read_to_string(&mut s) {
        Ok(_) => Some(s),
        Err(_) => None,
    }
}

/// Why raw DEFLATE decoding failed: whether the error kind is `InvalidData`,
/// and the error's text.
#[derive(Debug, Clone)]
pub struct InflateFailure {
    pub invalid_data: bool,
    pub text: String,
}

/// What `flate2` makes of a raw DEFLATE (RFC 1951) stream read as UTF-8: the
/// text, or the error's kind (`InvalidData` or not) and text.
pub uninterp spec fn deflate_text(bytes: Seq<u8>) -> Result<Seq<char>, (bool, Seq<char>)>;

/// `flate2::read::DeflateDecoder` with `read_to_string`.
#[verifier::external_body]
pub fn deflate_decode_text(bytes: &Vec<u8>) -> (r: Result<String, InflateFailure>)
    ensures
        r is Ok <==> deflate_text(bytes@) is Ok,
        r matches Ok(t) ==> deflate_text(bytes@)->Ok_0 == t@,
        r matches Err(e) ==> deflate_text(bytes@)->Err_0 == (e.invalid_data, e.text@),
{
    let mut decoder = flate2::read::DeflateDecoder::new(&bytes[..]);
    let mut s = String::new();
    match decoder.read_to_string(&mut s) {
        Ok(_) => Ok(s),
        Err(e) => Err(InflateFailure {
            invalid_data: e.kind() == std::io::ErrorKind::InvalidData,
            text: e.to_string(),
        }),
    }
}

/// The SHA-256 digest of a byte string.
pub uninterp spec fn sha256_of(bytes: Seq<u8>) -> Seq<u8>;

/// `sha2::Sha256::digest`: the 32-byte SHA-256 digest.
#[verifier::external_body]
pub fn sha256(bytes: &Vec<u8>) -> (d: Vec<u8>)
    ensures
        d@ == sha256_of(bytes@),
        d@.len() == 32,
{
    sha2::Sha256::digest(bytes).to_vec()
}

/// The lower-case hexadecimal digit for `v` in `0..16`.
pub open spec fn hex_digit(v: int) -> char {
    if v < 10 {
        (48 + v) as char
    } else {
        (97 + v - 10) as char
    }
}

/// Lower-case hexadecimal, two digits per byte, high nibble first.
pub open spec fn hex_lower(b: Seq<u8>) -> Seq<char>
    decreases b.len(),
{
    if b.len() == 0 {
        Seq::empty()
    } else {
        seq![hex_digit((b[0] as int) / 16), hex_digit((b[0] as int) % 16)] + hex_lower(b.skip(1))
    }
}

/// `hex::encode`: lower-case hexadecimal.
#[verifier::external_body]
pub fn hex_encode(bytes: &Vec<u8>) -> (s: String)
    ensures
        s@ == hex_lower(bytes@),
{
    hex::encode(bytes)
}


/// What `str::to_lowercase` makes of a text (full Unicode lower-casing).
pub uninterp spec fn unicode_lower(s: Seq<char>) -> Seq<char>;

/// `str::to_lowercase`. Of ASCII text the result is its ASCII lower-casing.
#[verifier::external_body]
pub fn to_lowercase(s: &str) -> (r: String)
    ensures
        r@ == unicode_lower(s@),
        vstd::utf8::is_ascii_chars(s@) ==> r@ == crate::text::ascii_lower_seq(s@),
{
    s.to_lowercase()
}


/// What the standard Base64 engine (`STANDARD`, canonical padding required)
/// decodes a text to; `None` where it reports an error.
pub uninterp spec fn base64_standard_decoded(s: Seq<char>) -> Option<Seq<u8>>;

/// `base64::prelude::BASE64_STANDARD.decode`: the bytes, or `None` when the text
/// is not standard Base64.
#[verifier::external_body]
pub fn base64_standard_decode(s: &str) -> (r: Option<Vec<u8>>)
    ensures
        r is Some <==> base64_standard_decoded(s@) is Some,
        r matches Some(b) ==> b@ == base64_standard_decoded(s@)->0,
{
    base64::prelude::BASE64_STANDARD.decode(s).ok()
}

/// `String::from_utf8`: the text when the bytes are valid UTF-8.
#[verifier::external_body]
pub fn utf8_decode(bytes: Vec<u8>) -> (r: Option<String>)
    ensures
        r is Some <==> vstd::utf8::valid_utf8(bytes@),
        r matches Some(s) ==> s@ == vstd::utf8::decode_utf8(bytes@),
{
    String::from_utf8(bytes).ok()
}

/// Whether `bcrypt::verify` accepts a password for a hash: `false` where it
/// reports an error (a malformed hash).
pub uninterp spec fn bcrypt_verifies(password: Seq<char>, hash: Seq<char>) -> bool;

/// `bcrypt::verify(password, hash).unwrap_or(false)`.
#[verifier::external_body]
pub fn bcrypt_verify(password: &str, hash: &str) -> (ok: bool)
    ensures
        ok == bcrypt_verifies(password@, hash@),
{
    bcrypt::verify(password, hash).unwrap_or(false)
}

/// `bcrypt::hash(password, DEFAULT_COST)`, `None` where it reports an error.
/// The salt is random, so the hash itself is not claimed; `bcrypt::verify`
/// accepts the password for it (it recomputes the hash with the salt and cost
/// that the hash records, truncating the password as `hash` does).
#[verifier::external_body]
pub fn bcrypt_hash(password: &str) -> (r: Option<String>)
    ensures
        r matches Some(h) ==> bcrypt_verifies(password@, h@),
{
    bcrypt::hash(password, bcrypt::DEFAULT_COST).ok()
}


/// What `str::to_uppercase` makes of a text (full Unicode upper-casing).
pub uninterp spec fn unicode_upper(s: Seq<char>) -> Seq<char>;

/// `str::to_uppercase`. Of ASCII text the result is its ASCII upper-casing.
#[verifier::external_body]
pub fn to_uppercase(s: &str) -> (r: String)
    ensures
        r@ == unicode_upper(s@),
        vstd::utf8::is_ascii_chars(s@) ==> r@ == crate::text::ascii_upper_seq(s@),
{
    s.to_uppercase()
}

/// `image::ColorType`, the pixel layout of a decoded image.
#[verifier::external_type_specification]
#[verifier::external_body]
pub struct ExColorType(image::ColorType);

/// The library's name for an `image::ColorType` variant, one for one.
#[verifier::external_body]
pub fn pixel_layout(c: image::ColorType) -> (l: PixelLayout) {
    match c {
        image::ColorType::L8 => PixelLayout::L8,
        image::ColorType::La8 => PixelLayout::La8,
        image::ColorType::Rgb8 => PixelLayout::Rgb8,
        image::ColorType::Rgba8 => PixelLayout::Rgba8,
        image::ColorType::L16 => PixelLayout::L16,
        image::ColorType::La16 => PixelLayout::La16,
        image::ColorType::Rgb16 => PixelLayout::Rgb16,
        image::ColorType::Rgba16 => PixelLayout::Rgba16,
        image::ColorType::Rgb32F => PixelLayout::Rgb32F,
        image::ColorType::Rgba32F => PixelLayout::Rgba32F,
        _ => PixelLayout::Other,
    }
}

/// What decoding PNG bytes gives: the width, height, pixel layout and raw
/// pixel bytes, or nothing when the bytes are not a PNG the crate decodes.
pub uninterp spec fn png_decoding(png: Seq<u8>) -> Option<(u32, u32, PixelLayout, Seq<u8>)>;

/// `image::load_from_memory_with_format(bytes, ImageFormat::Png)`, the image
/// taken apart into its size, layout and `as_bytes` pixels; `None` where the
/// crate reports an error.
#[verifier::external_body]
pub fn decode_png(bytes: &Vec<u8>) -> (r: Option<RasterImage>)
    ensures
        raster_view(r) == png_decoding(bytes@),
{
    let img = image::load_from_memory_with_format(bytes, image::ImageFormat::Png).ok()?;
    let pixels = img.as_bytes().to_vec();
    Some(RasterImage { width: img.width(), height: img.height(), layout: pixel_layout(img.color()), pixels })
}

/// What the lossless WebP encoder makes of raw pixels: the WebP bytes, or
/// nothing when it reports an error.
pub uninterp spec fn webp_lossless(width: u32, height: u32, layout: PixelLayout, pixels: Seq<u8>) -> Option<Seq<u8>>;

/// `WebPEncoder::new_lossless` and `ImageEncoder::write_image` into a byte
/// buffer, the layout given as the matching `ExtendedColorType`; `None` where
/// the encoder reports an error, which it does for every layout but `L8`,
/// `La8`, `Rgb8` and `Rgba8`. The encoder panics when the pixels do not fill
/// the image exactly, so that is required.
#[verifier::external_body]
pub fn encode_webp_lossless(img: &RasterImage) -> (r: Option<Vec<u8>>)
    requires
        pixels_fit(img.width, img.height, img.layout, img.pixels@),
    ensures
        r is Some <==> webp_lossless(img.width, img.height, img.layout, img.pixels@) is Some,
        r matches Some(b) ==> b@ == webp_lossless(img.width, img.height, img.layout, img.pixels@)->0,
        !(img.layout is L8 || img.layout is La8 || img.layout is Rgb8 || img.layout is Rgba8) ==> r is None,
{
    let mut out = std::io::Cursor::new(Vec::new());
    let color = extended_color(img.layout);
    let encoder = image::codecs::webp::WebPEncoder::new_lossless(&mut out);
    image::ImageEncoder::write_image(encoder, &img.pixels, img.width, img.height, color).ok()?;
    Some(out.into_inner())
}

/// `image::ExtendedColorType`, the pixel layout handed to an encoder.
#[verifier::external_type_specification]
#[verifier::external_body]
pub struct ExExtendedColorType(image::ExtendedColorType);

/// `image::ExtendedColorType` of a layout, one for one.
#[verifier::external_body]
fn extended_color(l: PixelLayout) -> (c: image::ExtendedColorType) {
    match l {
        PixelLayout::L8 => image::ExtendedColorType::L8,
        PixelLayout::La8 => image::ExtendedColorType::La8,
        PixelLayout::Rgb8 => image::ExtendedColorType::Rgb8,
        PixelLayout::Rgba8 => image::ExtendedColorType::Rgba8,
        PixelLayout::L16 => image::ExtendedColorType::L16,
        PixelLayout::La16 => image::ExtendedColorType::La16,
        PixelLayout::Rgb16 => image::ExtendedColorType::Rgb16,
        PixelLayout::Rgba16 => image::ExtendedColorType::Rgba16,
        PixelLayout::Rgb32F => image::ExtendedColorType::Rgb32F,
        PixelLayout::Rgba32F => image::ExtendedColorType::Rgba32F,
        PixelLayout::Other => image::ExtendedColorType::Unknown(0),
    }
}

/// The JSON escape of one character, as `serde_json` writes it: `"` and `\`
/// and the controls with a short form (`\b`, `\t`, `\n`, `\f`, `\r`) are
/// escaped with a backslash, other controls below 0x20 as `\u00` and two
/// lower-case hex digits, and every other character is kept.
pub open spec fn json_escape(c: char) -> Seq<char> {
    let u = c as u32;
    if c == '"' {
        seq!['\\', '"']
    } else if c == '\\' {
        seq!['\\', '\\']
    } else if u == 8 {
        seq!['\\', 'b']
    } else if u == 9 {
        seq!['\\', 't']
    } else if u == 10 {
        seq!['\\', 'n']
    } else if u == 12 {
        seq!['\\', 'f']
    } else if u == 13 {
        seq!['\\', 'r']
    } else if u < 32 {
        seq!['\\', 'u', '0', '0', hex_digit((u / 16) as int), hex_digit((u % 16) as int)]
    } else {
        seq![c]
    }
}

/// The escaped characters of a text.
pub open spec fn json_escaped(s: Seq<char>) -> Seq<char>
    decreases s.len(),
{
    if s.len() == 0 {
        Seq::empty()
    } else {
        json_escape(s[0]) + json_escaped(s.skip(1))
    }
}

/// A text as a JSON string: quoted, with its characters escaped.
pub open spec fn json_quoted(s: Seq<char>) -> Seq<char> {
    seq!['"'] + json_escaped(s) + seq!['"']
}

/// `serde_json::to_string` of a `&str`, which cannot fail: the text quoted and
/// escaped as its serializer's escape table says.
#[verifier::external_body]
pub fn json_string(s: &str) -> (r: String)
    ensures
        r@ == json_quoted(s@),
{
    serde_json::to_string(s).unwrap_or_default()
}

} // verus!
