use brotli::CompressorWriter;
use cors_fetch::encoding::Encoding;
use cors_fetch::response::{decode_body, ExecError};
use flate2::{write::DeflateEncoder, write::GzEncoder, Compression};
use std::io::Write;

fn encode_gzip(data: &[u8]) -> Vec<u8> {
    let mut encoder = GzEncoder::new(Vec::new(), Compression::default());
    encoder.write_all(data).unwrap();
    encoder.finish().unwrap()
}

fn encode_deflate(data: &[u8]) -> Vec<u8> {
    let mut encoder = DeflateEncoder::new(Vec::new(), Compression::default());
    encoder.write_all(data).unwrap();
    encoder.finish().unwrap()
}

fn encode_brotli(data: &[u8]) -> Vec<u8> {
    let mut encoder = CompressorWriter::new(Vec::new(), 4096, 5, 22);
    encoder.write_all(data).unwrap();
    encoder.into_inner()
}

#[test]
fn test_gzip_decode() {
    let original = b"hello gzip";
    let encoded = encode_gzip(original);
    let decoded = decode_body(Encoding::Gzip, encoded).unwrap();
    assert_eq!(decoded, original);
}

#[test]
fn test_deflate_decode() {
    let original = b"hello deflate";
    let encoded = encode_deflate(original);
    let decoded = decode_body(Encoding::Deflate, encoded).unwrap();
    assert_eq!(decoded, original);
}

#[test]
fn test_brotli_decode() {
    let original = b"hello brotli";
    let encoded = encode_brotli(original);
    let decoded = decode_body(Encoding::Brotli, encoded).unwrap();
    assert_eq!(decoded, original);
}

#[test]
fn round_trip_every_codec_on_several_payloads() {
    let payloads: Vec<Vec<u8>> = vec![
        Vec::new(),
        vec![0u8],
        (0..=255u8).collect(),
        b"abcabcabcabcabcabcabcabcabcabc".repeat(100),
    ];
    for p in payloads {
        assert_eq!(decode_body(Encoding::Gzip, encode_gzip(&p)).unwrap(), p);
        assert_eq!(decode_body(Encoding::Deflate, encode_deflate(&p)).unwrap(), p);
        assert_eq!(decode_body(Encoding::Brotli, encode_brotli(&p)).unwrap(), p);
    }
}

#[test]
fn identity_returns_raw_bytes() {
    let raw = encode_gzip(b"still compressed");
    assert_eq!(decode_body(Encoding::Identity, raw.clone()).unwrap(), raw);
}

#[test]
fn truncated_gzip_is_a_decode_error() {
    let encoded = encode_gzip(b"hello gzip, a little longer so that halving cuts the stream");
    let half = encoded[..encoded.len() / 2].to_vec();
    assert!(matches!(decode_body(Encoding::Gzip, half), Err(ExecError::Decode(_))));
}

#[test]
fn truncated_brotli_is_a_decode_error() {
    let encoded = encode_brotli(b"hello brotli, a little longer so that halving cuts the stream");
    let half = encoded[..encoded.len() / 2].to_vec();
    assert!(matches!(decode_body(Encoding::Brotli, half), Err(ExecError::Decode(_))));
}

#[test]
fn garbage_under_each_codec_is_a_decode_error() {
    let junk = vec![0xffu8; 16];
    assert!(matches!(decode_body(Encoding::Gzip, junk.clone()), Err(ExecError::Decode(_))));
    assert!(matches!(decode_body(Encoding::Deflate, junk.clone()), Err(ExecError::Decode(_))));
    assert!(matches!(decode_body(Encoding::Brotli, junk), Err(ExecError::Decode(_))));
}

#[test]
fn truncated_deflate_is_a_decode_error() {
    let encoded = encode_deflate(b"hello deflate, a little longer so that halving cuts the stream");
    let half = encoded[..encoded.len() / 2].to_vec();
    assert!(matches!(decode_body(Encoding::Deflate, half), Err(ExecError::Decode(_))));
}
