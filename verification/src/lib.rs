//! htmlpacker: a verified core for an asset-packing tool and its companion
//! browser modules.
//!
//! The library models a packer that reads a declarative manifest describing
//! web assets (favicon, stylesheets, scripts, WebAssembly modules), hashes
//! and encodes each binary asset, optionally Brotli-compresses it, and
//! assembles a single self-contained HTML document.  It also carries the
//! data pipeline of the companion globe-visualization module: elevation tile
//! decoding, instance-grid derivation, and keyboard-driven map selection.

pub mod cli;
pub mod config;
pub mod decoder;
pub mod earth;
pub mod encoder;
pub mod errors;
pub mod fetcher;
pub mod html;
pub mod mapupdate;
pub mod packer;
pub mod wasmbuilder;
