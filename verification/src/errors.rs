//! The packer's error type.
//!
//! Every failure of the verified pipeline is one of these variants; the
//! contracts of the functions that return them state exactly which inputs
//! produce which variant.

use vstd::prelude::*;

verus! {

/// A failure of the packing pipeline.
#[derive(Debug, Clone, PartialEq, Eq)]
pub enum PackError {
    /// A remote asset entry could not be parsed as a URL.
    InvalidUrl { url: String, reason: String },
    /// A favicon source was remote; only local favicons are supported.
    RemoteFaviconUnsupported,
    /// A WASM module source was remote; only local modules are supported.
    RemoteWasmUnsupported,
    /// A WASM module path does not follow the `<root>/pkg/<name>` convention.
    InvalidModulePath { path: String },
    /// One or more WASM module builds failed; carries the failing ids.
    BuildsFailed { failed: Vec<String> },
    /// A local read or remote fetch of an asset's text failed.
    FetchFailed { reason: String },
    /// Brotli compression reported a failure.
    CompressionFailed { reason: String },
    /// A Base64 or Brotli payload could not be decoded.
    DecodeFailed { reason: String },
}

} // verus!
