//! The manifest wire schema and its conversion into the configuration
//! model, plus the command surface.
//!
//! The YAML text itself is parsed outside the library; the parsed shapes
//! arrive here as the `Yaml*` structs, mirroring the manifest 1:1.  The
//! conversion orders every asset category local-before-remote, validates
//! each remote entry as a URL, and maps the per-module compression text
//! (`"brotli"` and nothing else) onto `CompressionType::Brotli`.

use vstd::prelude::*;

use crate::config::AssetSource;
use crate::config::CompressionType;
use crate::config::MetaConfig;
use crate::config::PackerConfig;
use crate::config::WasmModule;
use crate::errors::PackError;

verus! {

/// The root of the manifest: everything sits under `pack`.
#[derive(Debug, Clone, PartialEq, Eq)]
pub struct YamlRoot {
    pub pack: YamlPack,
}

/// The manifest body: runtime toggle, metadata, the three asset
/// categories, and the WASM module list (the mapping's keys are discarded
/// at the parsing boundary; only each entry's `id` matters).
#[derive(Debug, Clone, PartialEq, Eq)]
pub struct YamlPack {
    pub runtime: Option<YamlRuntime>,
    pub meta: Option<YamlMeta>,
    pub favicon: Option<YamlAssets>,
    pub css: Option<YamlAssets>,
    pub scripts: Option<YamlAssets>,
    pub wasm: Option<Vec<YamlWasmModule>>,
}

/// The manifest's runtime section.
#[derive(Debug, Clone, Copy, PartialEq, Eq, Structural)]
pub struct YamlRuntime {
    pub enabled: bool,
}

impl Default for YamlRuntime {
    fn default() -> (r: Self)
        ensures
            r.enabled,
    {
        YamlRuntime { enabled: default_true() }
    }
}

/// The manifest's metadata section.
#[derive(Debug, Clone, PartialEq, Eq)]
pub struct YamlMeta {
    pub title: Option<String>,
    pub author: Option<String>,
    pub description: Option<String>,
    pub keywords: Option<String>,
}

/// One asset category in the manifest: local paths and remote URLs.
#[derive(Debug, Clone, PartialEq, Eq)]
pub struct YamlAssets {
    pub local: Option<Vec<String>>,
    pub remote: Option<Vec<String>>,
}

/// One WASM module entry in the manifest.
#[derive(Debug, Clone, PartialEq, Eq)]
pub struct YamlWasmModule {
    pub compile_wasm: bool,
    pub id: String,
    pub path: String,
    pub compression: String,
}

/// The manifest default for `runtime.enabled`.
pub fn default_true() -> (b: bool)
    ensures
        b,
{
    true
}

/// The manifest default for `compile_wasm`.
pub fn default_compile() -> (b: bool)
    ensures
        !b,
{
    false
}

/// The manifest default for `compression`: the literal text `none`.
pub fn default_compression() -> (s: String)
    ensures
        s@ == "none"@,
{
    String::from_str("none")
}

/// The command surface: the manifest path (required) and the output path
/// (defaulting to `./index.html`).
#[derive(Debug, Clone, PartialEq, Eq)]
pub struct Cli {
    pub config: String,
    pub output: String,
}

impl Cli {
    /// Builds the command state, applying the output default when no
    /// output path was given.
    pub fn new(config: String, output: Option<String>) -> (c: Cli)
        ensures
            c.config == config,
            output matches Some(o) ==> c.output == o,
            output is None ==> c.output@ == "./index.html"@,
    {
        let out = match output {
            Some(o) => o,
            None => String::from_str("./index.html"),
        };
        Cli { config, output: out }
    }
}

/// What url's `Url::parse` makes of a string: `Some` of the parsed URL's
/// serialization, or `None` when the string is not a valid URL.
pub uninterp spec fn url_parse_result(s: Seq<char>) -> Option<Seq<char>>;

/// Relies on url's `Url::parse` (and `Url::as_str`): whether a string
/// parses, and the parsed URL's serialization, depend on the string alone.
#[verifier::external_body]
fn parse_url(s: &str) -> (r: Result<String, String>)
    ensures
        r is Ok <==> url_parse_result(s@) is Some,
        r is Ok ==> r->Ok_0@ == url_parse_result(s@)->Some_0,
{
    match url::Url::parse(s) {
        Ok(u) => Ok(u.as_str().to_string()),
        Err(e) => Err(format!("{e}")),
    }
}

/// The strings of an optional list, empty when absent.
pub open spec fn opt_strings(o: Option<Vec<String>>) -> Seq<String> {
    match o {
        Option::None => Seq::empty(),
        Option::Some(v) => v@,
    }
}

/// True when every remote entry of the list parses as a URL.
pub open spec fn remotes_parse(remote: Seq<String>) -> bool {
    forall|i: int| 0 <= i < remote.len() ==> url_parse_result(remote[i]@) is Some
}

/// The first remote entry that does not parse as a URL (meaningful only
/// when one exists).
pub open spec fn first_bad_remote(remote: Seq<String>) -> Seq<char>
    decreases remote.len(),
{
    if remote.len() == 0 {
        Seq::empty()
    } else if url_parse_result(remote.first()@) is None {
        remote.first()@
    } else {
        first_bad_remote(remote.drop_first())
    }
}

/// A non-parsing entry preceded only by parsing ones is the first bad one.
proof fn lemma_first_bad_remote_at(remote: Seq<String>, k: int)
    requires
        0 <= k < remote.len(),
        url_parse_result(remote[k]@) is None,
        forall|j: int| 0 <= j < k ==> url_parse_result(remote[j]@) is Some,
    ensures
        first_bad_remote(remote) == remote[k]@,
    decreases k,
{
    if k == 0 {
    } else {
        assert(remote.drop_first()[k - 1] == remote[k]);
        assert forall|j: int| 0 <= j < k - 1 implies url_parse_result(
            remote.drop_first()[j]@) is Some by {
            assert(remote.drop_first()[j] == remote[j + 1]);
        };
        lemma_first_bad_remote_at(remote.drop_first(), k - 1);
    }
}

/// True when an asset category can be converted: either absent, or with
/// every remote entry a valid URL.
pub open spec fn assets_convertible(o: Option<YamlAssets>) -> bool {
    match o {
        Option::None => true,
        Option::Some(a) => remotes_parse(opt_strings(a.remote)),
    }
}

/// The converted shape of one asset category: all local entries first, in
/// order and verbatim, then all remote entries, in order, each replaced by
/// its parsed URL's serialization.
pub open spec fn assets_converted(input: Option<YamlAssets>, out: Option<Vec<AssetSource>>) -> bool {
    match input {
        Option::None => out is None,
        Option::Some(a) => {
            let locals = opt_strings(a.local);
            let remotes = opt_strings(a.remote);
            &&& out is Some
            &&& out->Some_0@.len() == locals.len() + remotes.len()
            &&& (forall|i: int| 0 <= i < locals.len()
                ==> out->Some_0@[i] == AssetSource::Local(locals[i]))
            &&& (forall|j: int| 0 <= j < remotes.len() ==> {
                &&& (#[trigger] out->Some_0@[locals.len() + j]) is Remote
                &&& out->Some_0@[locals.len() + j]->Remote_0@
                    == url_parse_result(remotes[j]@)->Some_0
            })
        },
    }
}

/// Converts one asset category: local paths become `Local` sources in
/// order, then each remote entry is parsed as a URL and becomes a `Remote`
/// source; the first malformed URL aborts the conversion.
pub fn convert_yaml_assets(assets: &Option<YamlAssets>) -> (r: Result<
    Option<Vec<AssetSource>>,
    PackError,
>)
    ensures
        r is Ok <==> assets_convertible(*assets),
        r is Ok ==> assets_converted(*assets, r->Ok_0),
        r is Err ==> (*assets matches Some(a)
            && (r->Err_0 matches PackError::InvalidUrl { url, .. }
            && !remotes_parse(opt_strings(a.remote))
            && url@ == first_bad_remote(opt_strings(a.remote)))),
{
    match assets {
        None => Ok(None),
        Some(a) => {
            let mut sources: Vec<AssetSource> = Vec::new();
            let ghost locals = opt_strings(a.local);
            let ghost remotes = opt_strings(a.remote);

            if let Some(local) = &a.local {
                let n = local.len();
                for k in 0..n
                    invariant
                        n == local@.len(),
                        locals == local@,
                        sources@.len() == k,
                        forall|j: int| 0 <= j < k
                            ==> sources@[j] == AssetSource::Local(locals[j]),
                {
                    sources.push(AssetSource::Local(local[k].clone()));
                }
            }

            let ghost nl = locals.len();
            if let Some(remote) = &a.remote {
                let n = remote.len();
                for k in 0..n
                    invariant
                        n == remote@.len(),
                        *assets matches Some(aa) && aa == *a,
                        locals == opt_strings(a.local),
                        remotes == opt_strings(a.remote),
                        remotes == remote@,
                        nl == locals.len(),
                        sources@.len() == nl + k,
                        forall|j: int| 0 <= j < nl
                            ==> sources@[j] == AssetSource::Local(locals[j]),
                        forall|j: int| 0 <= j < k ==> {
                            &&& (#[trigger] sources@[nl + j]) is Remote
                            &&& sources@[nl + j]->Remote_0@
                                == url_parse_result(remotes[j]@)->Some_0
                        },
                        forall|j: int| 0 <= j < k ==> url_parse_result(remotes[j]@) is Some,
                {
                    match parse_url(remote[k].as_str()) {
                        Ok(parsed) => {
                            sources.push(AssetSource::Remote(parsed));
                        },
                        Err(reason) => {
                            proof {
                                assert(url_parse_result(opt_strings(a.remote)[k as int]@) is None);
                                assert(forall|kk: int| 0 <= kk < k
                                    ==> url_parse_result(opt_strings(a.remote)[kk]@) is Some);
                                assert(!remotes_parse(opt_strings(a.remote)));
                                lemma_first_bad_remote_at(opt_strings(a.remote), k as int);
                            }
                            return Err(PackError::InvalidUrl { url: remote[k].clone(), reason });
                        },
                    }
                }
            }

            Ok(Some(sources))
        },
    }
}

/// The remote entries of an optional asset category, empty when absent.
pub open spec fn remotes_of(o: Option<YamlAssets>) -> Seq<String> {
    match o {
        Option::None => Seq::empty(),
        Option::Some(a) => opt_strings(a.remote),
    }
}

/// The first malformed remote URL of the whole manifest, category by
/// category in conversion order: favicon, then css, then scripts
/// (meaningful only when some category fails to convert).
pub open spec fn spec_first_invalid_url(pack: YamlPack) -> Seq<char> {
    if !assets_convertible(pack.favicon) {
        first_bad_remote(remotes_of(pack.favicon))
    } else if !assets_convertible(pack.css) {
        first_bad_remote(remotes_of(pack.css))
    } else {
        first_bad_remote(remotes_of(pack.scripts))
    }
}

/// The effective runtime toggle: the manifest's value, or enabled when the
/// section is absent.
pub open spec fn spec_runtime_enabled(runtime: Option<YamlRuntime>) -> bool {
    match runtime {
        Option::None => true,
        Option::Some(rt) => rt.enabled,
    }
}

/// The compression a manifest entry's text selects: only the literal text
/// `brotli` selects Brotli; everything else (including the default text
/// `none`) selects no compression.
pub open spec fn spec_compression_of(s: Seq<char>) -> CompressionType {
    if s == "brotli"@ {
        CompressionType::Brotli
    } else {
        CompressionType::NoCompression
    }
}

/// The converted shape of the WASM module list: one module per manifest
/// entry, in order, its path wrapped as a local source.
pub open spec fn wasm_converted(input: Option<Vec<YamlWasmModule>>, out: Option<Vec<WasmModule>>) -> bool {
    match input {
        Option::None => out is None,
        Option::Some(ms) => {
            &&& out is Some
            &&& out->Some_0@.len() == ms@.len()
            &&& forall|i: int| 0 <= i < ms@.len() ==> {
                &&& (#[trigger] out->Some_0@[i]).compile_wasm == ms@[i].compile_wasm
                &&& out->Some_0@[i].id == ms@[i].id
                &&& out->Some_0@[i].source == AssetSource::Local(ms@[i].path)
                &&& out->Some_0@[i].compression == spec_compression_of(ms@[i].compression@)
            }
        },
    }
}

/// Converts the parsed manifest into the packer's configuration: runtime
/// toggle (default enabled), metadata verbatim, the three asset categories
/// local-before-remote, and the WASM modules in order.  The first
/// malformed remote URL aborts the whole conversion.
pub fn set_config_from_yaml(pack: YamlPack) -> (r: Result<PackerConfig, PackError>)
    ensures
        r is Ok <==> assets_convertible(pack.favicon) && assets_convertible(pack.css)
            && assets_convertible(pack.scripts),
        r is Ok ==> {
            let c = r->Ok_0;
            &&& c.runtime.enabled == spec_runtime_enabled(pack.runtime)
            &&& (c.meta is Some <==> pack.meta is Some)
            &&& (pack.meta matches Some(m) ==> c.meta->Some_0 == (MetaConfig {
                title: m.title,
                author: m.author,
                description: m.description,
                keywords: m.keywords,
            }))
            &&& assets_converted(pack.favicon, c.favicon)
            &&& assets_converted(pack.css, c.styles)
            &&& assets_converted(pack.scripts, c.scripts)
            &&& wasm_converted(pack.wasm, c.wasm)
        },
        r is Err ==> (r->Err_0 matches PackError::InvalidUrl { url, .. }
            && url@ == spec_first_invalid_url(pack)),
{
    let mut config = PackerConfig::default();

    if let Some(runtime) = pack.runtime {
        config.runtime.enabled = runtime.enabled;
    }

    config.meta = match pack.meta {
        Some(m) => Some(MetaConfig {
            title: m.title,
            author: m.author,
            description: m.description,
            keywords: m.keywords,
        }),
        None => None,
    };

    config.favicon = match convert_yaml_assets(&pack.favicon) {
        Ok(v) => v,
        Err(e) => {
            return Err(e);
        },
    };
    config.styles = match convert_yaml_assets(&pack.css) {
        Ok(v) => v,
        Err(e) => {
            return Err(e);
        },
    };
    config.scripts = match convert_yaml_assets(&pack.scripts) {
        Ok(v) => v,
        Err(e) => {
            return Err(e);
        },
    };

    config.wasm = match pack.wasm {
        Some(ms) => {
            let mut modules: Vec<WasmModule> = Vec::new();
            let n = ms.len();
            let brotli_key = String::from_str("brotli");
            for k in 0..n
                invariant
                    n == ms@.len(),
                    brotli_key@ == "brotli"@,
                    modules@.len() == k,
                    forall|i: int| 0 <= i < k ==> {
                        &&& (#[trigger] modules@[i]).compile_wasm == ms@[i].compile_wasm
                        &&& modules@[i].id == ms@[i].id
                        &&& modules@[i].source == AssetSource::Local(ms@[i].path)
                        &&& modules@[i].compression == spec_compression_of(ms@[i].compression@)
                    },
            {
                let compression = if ms[k].compression == brotli_key {
                    CompressionType::Brotli
                } else {
                    CompressionType::NoCompression
                };
                modules.push(WasmModule {
                    compile_wasm: ms[k].compile_wasm,
                    id: ms[k].id.clone(),
                    source: AssetSource::Local(ms[k].path.clone()),
                    compression,
                });
            }
            Some(modules)
        },
        None => None,
    };

    Ok(config)
}

} // verus!
