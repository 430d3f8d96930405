use htmlpacker::config::{AssetSource, CompressionType, WasmModule};
use htmlpacker::errors::PackError;
use htmlpacker::wasmbuilder::{aggregate_build_results, extract_module_dir, modules_to_compile};

fn module(id: &str, path: &str, compile: bool) -> WasmModule {
    WasmModule {
        compile_wasm: compile,
        id: id.to_string(),
        source: AssetSource::Local(path.to_string()),
        compression: CompressionType::NoCompression,
    }
}

#[test]
fn module_dir_derivation_follows_the_pkg_convention() {
    assert_eq!(
        extract_module_dir("../foo/pkg/foo_bg.wasm").unwrap(),
        "../foo"
    );
    let err = extract_module_dir("../foo/out/foo_bg.wasm").unwrap_err();
    match err {
        PackError::InvalidModulePath { path } => {
            assert_eq!(path, "../foo/out/foo_bg.wasm");
        },
        other => panic!("expected an invalid-module-path error, got {other:?}"),
    }
}

#[test]
fn module_dir_edge_shapes() {
    // A binary directly under a top-level pkg directory builds in "".
    assert_eq!(extract_module_dir("pkg/x_bg.wasm").unwrap(), "");
    // No directory at all cannot derive.
    assert!(extract_module_dir("x_bg.wasm").is_err());
    // The parent must be named exactly pkg.
    assert!(extract_module_dir("a/somepkg/x_bg.wasm").is_err());
    assert_eq!(extract_module_dir("a/b/pkg/x_bg.wasm").unwrap(), "a/b");
}

#[test]
fn only_flagged_local_modules_are_planned() {
    let modules = vec![
        module("bin-a", "../a/pkg/a_bg.wasm", true),
        module("bin-b", "../b/pkg/b_bg.wasm", false),
        WasmModule {
            compile_wasm: true,
            id: "bin-c".to_string(),
            source: AssetSource::Remote("https://example.com/c.wasm".to_string()),
            compression: CompressionType::NoCompression,
        },
        module("bin-d", "../d/pkg/d_bg.wasm", true),
    ];
    let plan = modules_to_compile(&modules).unwrap();
    assert_eq!(plan.len(), 2);
    assert_eq!(plan[0], ("bin-a".to_string(), "../a".to_string()));
    assert_eq!(plan[1], ("bin-d".to_string(), "../d".to_string()));
}

#[test]
fn a_bad_path_on_a_flagged_module_aborts_the_plan() {
    let modules = vec![
        module("bin-a", "../a/pkg/a_bg.wasm", true),
        module("bin-b", "../b/nopkg/b_bg.wasm", true),
    ];
    let err = modules_to_compile(&modules).unwrap_err();
    assert!(matches!(err, PackError::InvalidModulePath { .. }));
}

#[test]
fn aggregation_succeeds_only_when_every_build_did() {
    let ids = vec!["bin-a".to_string(), "bin-b".to_string()];
    assert_eq!(aggregate_build_results(&ids, &vec![true, true]), Ok(()));
}

#[test]
fn aggregation_names_the_failing_module() {
    // One failing build out of two: the aggregated error names it, and
    // the other module's result was still consulted.
    let ids = vec!["bin-a".to_string(), "bin-b".to_string()];
    let err = aggregate_build_results(&ids, &vec![true, false]).unwrap_err();
    match err {
        PackError::BuildsFailed { failed } => {
            assert_eq!(failed, vec!["bin-b".to_string()]);
        },
        other => panic!("expected a builds-failed error, got {other:?}"),
    }
}

#[test]
fn aggregation_names_every_failure_in_order() {
    let ids = vec!["bin-a".to_string(), "bin-b".to_string(), "bin-c".to_string()];
    let err = aggregate_build_results(&ids, &vec![false, true, false]).unwrap_err();
    match err {
        PackError::BuildsFailed { failed } => {
            assert_eq!(failed, vec!["bin-a".to_string(), "bin-c".to_string()]);
        },
        other => panic!("expected a builds-failed error, got {other:?}"),
    }
}
