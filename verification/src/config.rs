//! The packer's internal configuration model.
//!
//! A `PackerConfig` is produced once per run from the parsed manifest and
//! describes every asset the packer will bundle.

use vstd::prelude::*;

verus! {

/// Where an asset comes from: a local file path or a remote URL.
///
/// Every consumer must handle both variants; favicon and WASM sources
/// reject `Remote` with an explicit error.
#[derive(Debug, Clone, PartialEq, Eq)]
pub enum AssetSource {
    Local(String),
    Remote(String),
}

impl Default for AssetSource {
    fn default() -> (r: Self)
        ensures
            r is Local && r->Local_0@ == Seq::<char>::empty(),
    {
        AssetSource::Local(String::new())
    }
}

/// How a WASM module's bytes are transformed before Base64 encoding.
#[derive(Debug, Clone, Copy, PartialEq, Eq, Structural)]
pub enum CompressionType {
    Brotli,
    NoCompression,
}

impl Default for CompressionType {
    fn default() -> (r: Self)
        ensures
            r == CompressionType::NoCompression,
    {
        CompressionType::NoCompression
    }
}

/// Whether the packer's built-in default runtime bundle is injected.
#[derive(Debug, Clone, Copy, PartialEq, Eq, Structural)]
pub struct RuntimeConfig {
    pub enabled: bool,
}

impl Default for RuntimeConfig {
    fn default() -> (r: Self)
        ensures
            r.enabled,
    {
        RuntimeConfig { enabled: true }
    }
}

/// Page metadata parsed from the manifest.
///
/// Parsed but never consumed by the HTML renderer; kept so that manifests
/// carrying it round-trip through the configuration model unchanged.
#[derive(Debug, Clone, PartialEq, Eq)]
pub struct MetaConfig {
    pub title: Option<String>,
    pub author: Option<String>,
    pub description: Option<String>,
    pub keywords: Option<String>,
}

impl Default for MetaConfig {
    fn default() -> (r: Self)
        ensures
            r.title is None,
            r.author is None,
            r.description is None,
            r.keywords is None,
    {
        MetaConfig { title: None, author: None, description: None, keywords: None }
    }
}

/// One WASM module to embed: its element id, its source, whether the packer
/// should compile it first, and how to compress it.
#[derive(Debug, Clone, PartialEq, Eq)]
pub struct WasmModule {
    pub compile_wasm: bool,
    pub id: String,
    pub source: AssetSource,
    pub compression: CompressionType,
}

/// The full configuration of one packer run.
#[derive(Debug, Clone, PartialEq, Eq)]
pub struct PackerConfig {
    pub runtime: RuntimeConfig,
    pub meta: Option<MetaConfig>,
    pub favicon: Option<Vec<AssetSource>>,
    pub styles: Option<Vec<AssetSource>>,
    pub scripts: Option<Vec<AssetSource>>,
    pub wasm: Option<Vec<WasmModule>>,
}

impl Default for PackerConfig {
    fn default() -> (r: Self)
        ensures
            r.runtime.enabled,
            r.meta is None,
            r.favicon is None,
            r.styles is None,
            r.scripts is None,
            r.wasm is None,
    {
        PackerConfig {
            runtime: RuntimeConfig { enabled: true },
            meta: None,
            favicon: None,
            styles: None,
            scripts: None,
            wasm: None,
        }
    }
}

} // verus!
