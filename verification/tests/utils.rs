use base64::Engine as _;
use flate2::write::{DeflateEncoder, ZlibEncoder};
use flate2::Compression;
use kroki_rs::utils::{
    decode, font_cache_dir, is_remote, png_to_webp, safe_file_name, validate_font_size, DecodeError,
    PixelLayout, WebpQuality,
};
use sha2::Digest;
use std::io::Write;

fn zlib(text: &[u8]) -> Vec<u8> {
    let mut e = ZlibEncoder::new(Vec::new(), Compression::default());
    e.write_all(text).unwrap();
    e.finish().unwrap()
}

fn deflate(text: &[u8]) -> Vec<u8> {
    let mut e = DeflateEncoder::new(Vec::new(), Compression::default());
    e.write_all(text).unwrap();
    e.finish().unwrap()
}

fn url_safe(bytes: &[u8]) -> String {
    base64::engine::general_purpose::URL_SAFE.encode(bytes)
}

#[test]
fn test_decode_graphviz() {
    // "digraph G { Hello -> World }" encoded with Python's zlib.compress + base64.urlsafe_b64encode
    let encoded = "eJxLyUwvSizIUHBXqFbwSM3JyVfQtVMIzy_KSVGoBQCJQglG";
    let result = decode(encoded);
    assert!(result.is_ok(), "decode failed: {:?}", result.err());
    let decoded = result.unwrap();
    assert_eq!(decoded, "digraph G { Hello -> World }");
}

#[test]
fn test_decode_invalid_base64() {
    let result = decode("not-valid-base64!!!");
    assert!(result.is_err());
    let err = result.unwrap_err().to_string();
    assert!(err.contains("Base64URL"), "Expected Base64 error, got: {}", err);
}

#[test]
fn test_decode_not_compressed() {
    // Valid base64 but not compressed data
    let encoded = base64::engine::general_purpose::URL_SAFE.encode("hello world");
    let result = decode(&encoded);
    // This should fail because "hello world" is not zlib/deflate compressed
    assert!(result.is_err());
}

#[test]
fn decode_zlib_round_trip() {
    let source = "graph { a -- b }";
    assert_eq!(decode(&url_safe(&zlib(source.as_bytes()))).unwrap(), source);
}

#[test]
fn decode_raw_deflate_falls_back() {
    let source = "sequenceDiagram\n A->>B: hi";
    assert_eq!(decode(&url_safe(&deflate(source.as_bytes()))).unwrap(), source);
}

#[test]
fn decode_error_variants() {
    assert!(matches!(decode("***"), Err(DecodeError::InvalidBase64)));
    assert_eq!(
        DecodeError::InvalidBase64.to_string(),
        "Base64URL decode failed — input is not valid Base64URL"
    );
    // Raw DEFLATE reports a corrupt stream with an error that is not
    // `InvalidData`, and invalid UTF-8 with one that is: the messages follow
    // the error kind.
    match decode(&url_safe(b"hello world")) {
        Err(e @ DecodeError::InflateFailed(_)) => {
            assert_eq!(e.to_string(), "Decompressed data is not valid UTF-8 text: corrupt deflate stream");
        }
        other => panic!("expected a stream error, got {:?}", other),
    }
    match decode(&url_safe(&deflate(&[0xff, 0xfe, 0x00]))) {
        Err(e @ DecodeError::InflateInvalidData(_)) => {
            assert!(e.to_string().starts_with(
                "Decompression failed — input is not valid Zlib or Deflate compressed data: "
            ));
        }
        other => panic!("expected an invalid-data error, got {:?}", other),
    }
}

#[test]
fn remote_font_sources() {
    assert!(is_remote("https://example.com/font.woff2"));
    assert!(is_remote("http://example.com/font.ttf"));
    assert!(!is_remote("/usr/share/fonts/a.ttf"));
    assert!(!is_remote("ftp://example.com/a.ttf"));
}

#[test]
fn font_file_names() {
    let url = "https://example.com/fonts/Inter.WOFF2?v=3#x";
    let hash = hex::encode(sha2::Sha256::digest(url.as_bytes()));
    assert_eq!(safe_file_name(url), format!("{}.woff2", hash));
    let plain = "/fonts/noext";
    let hash = hex::encode(sha2::Sha256::digest(plain.as_bytes()));
    assert_eq!(safe_file_name(plain), format!("{}.ttf", hash));
    let dotfile = "/fonts/.hidden";
    let hash = hex::encode(sha2::Sha256::digest(dotfile.as_bytes()));
    assert_eq!(safe_file_name(dotfile), format!("{}.ttf", hash));
}

#[test]
fn font_size_limits() {
    assert!(validate_font_size(None, 5 * 1024 * 1024).is_ok());
    assert_eq!(
        validate_font_size(None, 5 * 1024 * 1024 + 1).unwrap_err(),
        "Font payload too large (5242881 bytes). Maximum allowed: 5242880 bytes"
    );
    assert_eq!(
        validate_font_size(Some(6_000_000), 10).unwrap_err(),
        "Font payload too large based on Content-Length (6000000 bytes)"
    );
    assert!(validate_font_size(Some(100), 10).is_ok());
}

#[test]
fn font_cache_directory() {
    assert_eq!(font_cache_dir(Some("/tmp/cache")), "/tmp/cache/fonts");
    assert_eq!(font_cache_dir(Some("/tmp/cache/")), "/tmp/cache/fonts");
    let resolved = font_cache_dir(None);
    assert!(resolved.ends_with("fonts"));
}

#[test]
fn png_converts_to_webp() {
    let img = image::RgbaImage::from_pixel(3, 2, image::Rgba([10, 20, 30, 255]));
    let mut png = std::io::Cursor::new(Vec::new());
    img.write_to(&mut png, image::ImageFormat::Png).unwrap();
    let webp = png_to_webp(&png.into_inner(), WebpQuality::Lossless).unwrap();
    assert_eq!(&webp[0..4], b"RIFF");
    assert_eq!(&webp[8..12], b"WEBP");
}

#[test]
fn png_decode_failure_is_reported() {
    assert_eq!(
        png_to_webp(&b"not a png".to_vec(), WebpQuality::Lossy(80)).unwrap_err(),
        "Failed to decode PNG for WebP conversion"
    );
}

#[test]
fn sixteen_bit_png_is_not_encodable() {
    let img = image::ImageBuffer::<image::Rgb<u16>, Vec<u16>>::from_pixel(2, 2, image::Rgb([1, 2, 3]));
    let mut png = std::io::Cursor::new(Vec::new());
    img.write_to(&mut png, image::ImageFormat::Png).unwrap();
    assert_eq!(
        png_to_webp(&png.into_inner(), WebpQuality::Lossless).unwrap_err(),
        "Failed to encode lossless WebP from PNG"
    );
    assert_ne!(PixelLayout::Rgb16, PixelLayout::Rgb8);
}
