use htmlpacker::encoder::{
    encode_base64, encode_brotli, encode_brotli_base64, decode_base64_text,
    decode_embedded_payload, round_trip_compressed, round_trip_uncompressed, to_hex_lower, Base,
};
use htmlpacker::decoder::decompress;
use htmlpacker::errors::PackError;

#[test]
fn encode_base64_known_values() {
    let bytes = b"abc".to_vec();
    let base = encode_base64(&bytes, "bin-test");
    assert_eq!(base.id, "bin-test");
    // Well-known SHA-256 of "abc".
    assert_eq!(
        base.hash,
        "ba7816bf8f01cfea414140de5dae2223b00361a396177a9cb410ff61f20015ad"
    );
    assert_eq!(base.text, "YWJj");
}

#[test]
fn encode_base64_padding() {
    let bytes = b"hello world!!!".to_vec();
    let base = encode_base64(&bytes, "x");
    assert_eq!(base.text, "aGVsbG8gd29ybGQhISE=");
}

#[test]
fn hex_rendering_is_lowercase_two_digits_per_byte() {
    let s = to_hex_lower(&vec![0x00u8, 0xff, 0x0a, 0xb5]);
    assert_eq!(s, "00ff0ab5");
}

#[test]
fn round_trip_uncompressed_pipeline() {
    let bytes: Vec<u8> = (0u8..=255).collect();
    let base = encode_base64(&bytes, "bin");
    let decoded = decode_base64_text(&base.text).unwrap();
    assert_eq!(decoded, bytes);
}

#[test]
fn round_trip_compressed_pipeline() {
    let bytes: Vec<u8> = (0..4096u32).map(|i| (i % 251) as u8).collect();
    let base = encode_brotli_base64(&bytes, "bin-wasm").unwrap();
    assert_eq!(base.id, "bin-wasm");
    // The hash is over the original, pre-compression bytes.
    let plain = encode_base64(&bytes, "bin-wasm");
    assert_eq!(base.hash, plain.hash);
    // The payload decodes and decompresses back to the original bytes.
    let decoded = decode_embedded_payload(&base.text).unwrap();
    assert_eq!(decoded, bytes);
}

#[test]
fn encode_brotli_matches_the_crate() {
    let bytes: Vec<u8> = b"some compressible data, some compressible data".to_vec();
    let ours = encode_brotli(&bytes).unwrap();
    let mut theirs = Vec::new();
    let params = brotli::enc::BrotliEncoderParams {
        quality: 9,
        lgwin: 22,
        ..Default::default()
    };
    brotli::BrotliCompress(&mut &bytes[..], &mut theirs, &params).unwrap();
    assert_eq!(ours, theirs);
}

#[test]
fn decoder_inverts_compression() {
    let bytes: Vec<u8> = (0..10000u32).map(|i| (i / 7) as u8).collect();
    let compressed = encode_brotli(&bytes).unwrap();
    let out = decompress(&compressed).unwrap();
    assert_eq!(out, bytes);
}

#[test]
fn decoder_reports_bad_input() {
    let garbage = vec![0x42u8; 16];
    let err = decompress(&garbage).unwrap_err();
    assert!(err.starts_with("Brotli decompress failed: "));
}

#[test]
fn decode_base64_rejects_bad_text() {
    let err = decode_base64_text("!!!not base64!!!").unwrap_err();
    assert!(matches!(err, PackError::DecodeFailed { .. }));
}

#[test]
fn base_new_keeps_fields() {
    let b = Base::new("id".to_string(), "hash".to_string(), "text".to_string());
    assert_eq!(b.id, "id");
    assert_eq!(b.hash, "hash");
    assert_eq!(b.text, "text");
}

#[test]
fn round_trip_witnesses_run_on_real_data() {
    let bytes: Vec<u8> = (0..2048u32).map(|i| (i * 31 % 257) as u8).collect();
    assert_eq!(round_trip_uncompressed(&bytes), bytes);
    assert_eq!(round_trip_compressed(&bytes).unwrap(), bytes);
}
