use htmlpacker::cli::{
    convert_yaml_assets, default_compile, default_compression, default_true,
    set_config_from_yaml, Cli, YamlAssets, YamlMeta, YamlPack, YamlRuntime, YamlWasmModule,
};
use htmlpacker::config::{AssetSource, CompressionType, PackerConfig, RuntimeConfig};
use htmlpacker::errors::PackError;

fn empty_pack() -> YamlPack {
    YamlPack {
        runtime: None,
        meta: None,
        favicon: None,
        css: None,
        scripts: None,
        wasm: None,
    }
}

#[test]
fn manifest_defaults() {
    assert!(default_true());
    assert!(!default_compile());
    assert_eq!(default_compression(), "none");
    let rt = YamlRuntime::default();
    assert!(rt.enabled);
    let config = PackerConfig::default();
    assert!(config.runtime.enabled);
    assert!(config.wasm.is_none());
}

#[test]
fn cli_output_defaults_to_index_html() {
    let c = Cli::new("pack.yaml".to_string(), None);
    assert_eq!(c.config, "pack.yaml");
    assert_eq!(c.output, "./index.html");
    let c2 = Cli::new("pack.yaml".to_string(), Some("out/app.html".to_string()));
    assert_eq!(c2.output, "out/app.html");
}

#[test]
fn runtime_toggle_is_copied_and_defaults_on() {
    let mut pack = empty_pack();
    let config = set_config_from_yaml(pack).unwrap();
    assert!(config.runtime.enabled);

    pack = empty_pack();
    pack.runtime = Some(YamlRuntime { enabled: false });
    let config = set_config_from_yaml(pack).unwrap();
    assert!(!config.runtime.enabled);
}

#[test]
fn meta_is_copied_verbatim() {
    let mut pack = empty_pack();
    pack.meta = Some(YamlMeta {
        title: Some("t".to_string()),
        author: None,
        description: Some("d".to_string()),
        keywords: None,
    });
    let config = set_config_from_yaml(pack).unwrap();
    let meta = config.meta.unwrap();
    assert_eq!(meta.title.as_deref(), Some("t"));
    assert_eq!(meta.author, None);
    assert_eq!(meta.description.as_deref(), Some("d"));
    assert_eq!(meta.keywords, None);
}

#[test]
fn local_sources_precede_remote_sources() {
    let assets = Some(YamlAssets {
        local: Some(vec!["a.css".to_string(), "b.css".to_string()]),
        remote: Some(vec!["https://example.com/c.css".to_string()]),
    });
    let sources = convert_yaml_assets(&assets).unwrap().unwrap();
    assert_eq!(sources.len(), 3);
    assert_eq!(sources[0], AssetSource::Local("a.css".to_string()));
    assert_eq!(sources[1], AssetSource::Local("b.css".to_string()));
    match &sources[2] {
        AssetSource::Remote(url) => assert_eq!(url, "https://example.com/c.css"),
        other => panic!("expected a remote source, got {other:?}"),
    }
}

#[test]
fn absent_assets_convert_to_nothing() {
    assert_eq!(convert_yaml_assets(&None).unwrap(), None);
}

#[test]
fn invalid_url_aborts_with_its_text() {
    let assets = Some(YamlAssets {
        local: None,
        remote: Some(vec!["https://ok.example/x".to_string(), "not a url".to_string()]),
    });
    let err = convert_yaml_assets(&assets).unwrap_err();
    match err {
        PackError::InvalidUrl { url, reason } => {
            assert_eq!(url, "not a url");
            assert!(!reason.is_empty());
        },
        other => panic!("expected an invalid-url error, got {other:?}"),
    }
}

#[test]
fn remote_urls_are_normalized_by_the_parser() {
    let assets = Some(YamlAssets {
        local: None,
        remote: Some(vec!["https://example.com".to_string()]),
    });
    let sources = convert_yaml_assets(&assets).unwrap().unwrap();
    match &sources[0] {
        AssetSource::Remote(url) => assert_eq!(url, "https://example.com/"),
        other => panic!("expected a remote source, got {other:?}"),
    }
}

#[test]
fn wasm_modules_convert_in_order_with_compression_mapping() {
    let mut pack = empty_pack();
    pack.wasm = Some(vec![
        YamlWasmModule {
            compile_wasm: true,
            id: "bin-one".to_string(),
            path: "../one/pkg/one_bg.wasm".to_string(),
            compression: "brotli".to_string(),
        },
        YamlWasmModule {
            compile_wasm: false,
            id: "bin-two".to_string(),
            path: "two.wasm".to_string(),
            compression: "none".to_string(),
        },
        YamlWasmModule {
            compile_wasm: false,
            id: "bin-three".to_string(),
            path: "three.wasm".to_string(),
            compression: "zstd".to_string(),
        },
    ]);
    let config = set_config_from_yaml(pack).unwrap();
    let wasm = config.wasm.unwrap();
    assert_eq!(wasm.len(), 3);
    assert_eq!(wasm[0].id, "bin-one");
    assert!(wasm[0].compile_wasm);
    assert_eq!(wasm[0].compression, CompressionType::Brotli);
    assert_eq!(
        wasm[0].source,
        AssetSource::Local("../one/pkg/one_bg.wasm".to_string())
    );
    // "none" and any unrecognized text both mean no compression.
    assert_eq!(wasm[1].compression, CompressionType::NoCompression);
    assert_eq!(wasm[2].compression, CompressionType::NoCompression);
}

#[test]
fn runtime_config_default_is_enabled() {
    assert!(RuntimeConfig::default().enabled);
}

#[test]
fn the_error_names_the_first_bad_entry_across_categories() {
    // favicon converts before css and scripts, so its malformed entry is
    // the one the error carries.
    let mut pack = empty_pack();
    pack.favicon = Some(YamlAssets {
        local: None,
        remote: Some(vec!["bad favicon url".to_string()]),
    });
    pack.scripts = Some(YamlAssets {
        local: None,
        remote: Some(vec!["also bad".to_string()]),
    });
    match set_config_from_yaml(pack).unwrap_err() {
        PackError::InvalidUrl { url, .. } => assert_eq!(url, "bad favicon url"),
        other => panic!("expected an invalid-url error, got {other:?}"),
    }

    // With the favicon fine, the scripts category's entry is named.
    let mut pack = empty_pack();
    pack.scripts = Some(YamlAssets {
        local: Some(vec!["a.js".to_string()]),
        remote: Some(vec!["https://ok.example/x.js".to_string(), "broken one".to_string()]),
    });
    match set_config_from_yaml(pack).unwrap_err() {
        PackError::InvalidUrl { url, .. } => assert_eq!(url, "broken one"),
        other => panic!("expected an invalid-url error, got {other:?}"),
    }
}
