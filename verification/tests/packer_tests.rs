use htmlpacker::config::{AssetSource, CompressionType, WasmModule};
use htmlpacker::encoder::{
    decode_base64_text, encode_base64, encode_brotli, encode_brotli_base64, round_trip_compressed,
};
use htmlpacker::errors::PackError;
use htmlpacker::packer::{favicon_paths, get_icons, get_wasm, wasm_module_paths};

#[test]
fn favicon_paths_keep_local_order() {
    let sources = vec![
        AssetSource::Local("icons/a.svg".to_string()),
        AssetSource::Local("icons/b.svg".to_string()),
    ];
    let paths = favicon_paths(&sources).unwrap();
    assert_eq!(paths, vec!["icons/a.svg".to_string(), "icons/b.svg".to_string()]);
}

#[test]
fn remote_favicons_are_rejected() {
    let sources = vec![
        AssetSource::Local("icons/a.svg".to_string()),
        AssetSource::Remote("https://example.com/icon.svg".to_string()),
    ];
    let err = favicon_paths(&sources).unwrap_err();
    assert_eq!(err, PackError::RemoteFaviconUnsupported);
}

#[test]
fn remote_wasm_modules_are_rejected() {
    let modules = vec![WasmModule {
        compile_wasm: false,
        id: "bin-x".to_string(),
        source: AssetSource::Remote("https://example.com/x.wasm".to_string()),
        compression: CompressionType::NoCompression,
    }];
    let err = wasm_module_paths(&modules).unwrap_err();
    assert_eq!(err, PackError::RemoteWasmUnsupported);
}

#[test]
fn icons_are_encoded_per_file_in_order() {
    let files = vec![b"one".to_vec(), b"two".to_vec()];
    let icons = get_icons(&files);
    assert_eq!(icons.len(), 2);
    assert_eq!(decode_base64_text(&icons[0]).unwrap(), b"one");
    assert_eq!(decode_base64_text(&icons[1]).unwrap(), b"two");
}

#[test]
fn wasm_encoding_follows_each_modules_compression() {
    let modules = vec![
        WasmModule {
            compile_wasm: false,
            id: "bin-plain".to_string(),
            source: AssetSource::Local("plain.wasm".to_string()),
            compression: CompressionType::NoCompression,
        },
        WasmModule {
            compile_wasm: false,
            id: "bin-packed".to_string(),
            source: AssetSource::Local("packed.wasm".to_string()),
            compression: CompressionType::Brotli,
        },
    ];
    let plain_bytes: Vec<u8> = (0..512u32).map(|i| (i % 201) as u8).collect();
    let packed_bytes: Vec<u8> = (0..512u32).map(|i| (i % 7) as u8).collect();
    let files = vec![plain_bytes.clone(), packed_bytes.clone()];

    let bin = get_wasm(&modules, &files).unwrap();
    assert_eq!(bin.len(), 2);

    let expected_plain = encode_base64(&plain_bytes, "bin-plain");
    assert_eq!(bin[0], expected_plain);

    let expected_packed = encode_brotli_base64(&packed_bytes, "bin-packed").unwrap();
    assert_eq!(bin[1], expected_packed);
    // The hash is over the original bytes even when the text is compressed.
    assert_eq!(bin[1].hash, encode_base64(&packed_bytes, "x").hash);
}

#[test]
fn get_wasm_itself_rejects_a_remote_module() {
    let modules = vec![WasmModule {
        compile_wasm: false,
        id: "bin-remote".to_string(),
        source: AssetSource::Remote("https://example.com/m.wasm".to_string()),
        compression: CompressionType::Brotli,
    }];
    let files = vec![vec![1u8, 2, 3]];
    let err = get_wasm(&modules, &files).unwrap_err();
    assert_eq!(err, PackError::RemoteWasmUnsupported);
}

#[test]
fn compression_succeeds_on_ordinary_buffers() {
    // The round-trip witnesses owe success whenever compression accepts
    // the bytes; on real data that is every buffer, the empty one included.
    assert!(encode_brotli(&Vec::new()).is_ok());
    assert_eq!(round_trip_compressed(&Vec::new()).unwrap(), Vec::<u8>::new());
    let big: Vec<u8> = (0..100_000u32).map(|i| (i % 255) as u8).collect();
    assert_eq!(round_trip_compressed(&big).unwrap(), big);
}
