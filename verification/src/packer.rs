//! The packing pipeline's asset assembly.
//!
//! Reading, fetching and writing happen outside the library; these
//! functions take the resolved bytes and texts and state exactly which
//! assets end up in the document and in what order: the favicon list keeps
//! only the first resolved icon, the default runtime bundle (icon, decoder
//! script, core script, decoder binary) is injected when enabled — its
//! icon always takes the first favicon slot — and the document is rendered
//! from the final lists.

use vstd::prelude::*;

use crate::config::AssetSource;
use crate::config::CompressionType;
use crate::config::WasmModule;
use crate::encoder::Base;
use crate::encoder::BROTLI_LGWIN;
use crate::encoder::BROTLI_QUALITY;
use crate::encoder::base64_of;
use crate::encoder::brotli_accepts;
use crate::encoder::brotli_of;
use crate::encoder::encode_base64;
use crate::encoder::encode_brotli_base64;
use crate::encoder::sha256_of;
use crate::encoder::spec_hex_lower;
use crate::errors::PackError;
use crate::fetcher::all_fetches_ok;
use crate::fetcher::get_css_string;
use crate::fetcher::spec_concat_texts;
use crate::html::base_views;
use crate::html::page;
use crate::html::spec_favicons_html;
use crate::html::spec_page_html;
use crate::html::string_views;

verus! {

/// The packer's built-in default runtime assets, compiled into the tool
/// that embeds this library: an SVG icon, the core bootstrap script, the
/// decoder's JavaScript glue, and the decoder's WASM binary.
pub struct RuntimeBundle {
    pub icon_svg: Vec<u8>,
    pub decoder_js: String,
    pub core_js: String,
    pub decoder_wasm: Vec<u8>,
}

/// The element id under which the default decoder binary is embedded.
pub open spec fn spec_decoder_id() -> Seq<char> {
    "bin-wasm-decoder"@
}

/// The favicon list after runtime injection: at most the first user icon,
/// with the built-in icon's encoding prepended when the runtime is
/// enabled — so an enabled runtime always occupies the first (and only
/// rendered) favicon slot.
pub open spec fn spec_packed_icons(
    user_icons: Seq<Seq<char>>,
    runtime_enabled: bool,
    runtime_icon_b64: Seq<char>,
) -> Seq<Seq<char>> {
    let first = if user_icons.len() > 0 {
        seq![user_icons[0]]
    } else {
        Seq::empty()
    };
    if runtime_enabled {
        seq![runtime_icon_b64] + first
    } else {
        first
    }
}

/// The script list after runtime injection: the configured scripts in
/// order, then the decoder script, then the core script.
pub open spec fn spec_packed_scripts(
    scripts: Seq<Seq<char>>,
    runtime_enabled: bool,
    decoder_js: Seq<char>,
    core_js: Seq<char>,
) -> Seq<Seq<char>> {
    if runtime_enabled {
        scripts + seq![decoder_js, core_js]
    } else {
        scripts
    }
}

/// The binary list after runtime injection: the configured modules in
/// order, then the decoder binary (hashed and Base64-encoded, never
/// compressed) appended last.
pub open spec fn spec_packed_bin(
    bin: Seq<(Seq<char>, Seq<char>, Seq<char>)>,
    runtime_enabled: bool,
    decoder_wasm: Seq<u8>,
) -> Seq<(Seq<char>, Seq<char>, Seq<char>)> {
    if runtime_enabled {
        bin + seq![
            (spec_decoder_id(), spec_hex_lower(sha256_of(decoder_wasm)), base64_of(decoder_wasm)),
        ]
    } else {
        bin
    }
}

/// Injects the default runtime bundle: the built-in icon takes the first
/// favicon slot, the decoder and core scripts are appended to the script
/// list, and the encoded decoder binary is appended to the binary list.
pub fn default_runtime(
    icons: &mut Vec<String>,
    scripts: &mut Vec<String>,
    bin: &mut Vec<Base>,
    bundle: &RuntimeBundle,
) ensures
        final(icons)@.len() == old(icons)@.len() + 1,
        final(icons)@[0]@ == base64_of(bundle.icon_svg@),
        forall|i: int| 0 <= i < old(icons)@.len() ==> final(icons)@[i + 1] == old(icons)@[i],
        final(scripts)@ == old(scripts)@ + seq![bundle.decoder_js, bundle.core_js],
        final(bin)@.len() == old(bin)@.len() + 1,
        forall|i: int| 0 <= i < old(bin)@.len() ==> final(bin)@[i] == old(bin)@[i],
        final(bin)@.last().id@ == spec_decoder_id(),
        final(bin)@.last().hash@ == spec_hex_lower(sha256_of(bundle.decoder_wasm@)),
        final(bin)@.last().text@ == base64_of(bundle.decoder_wasm@),
{
    let encoded_icon = crate::encoder::base64_encode(bundle.icon_svg.as_slice());
    icons.insert(0, encoded_icon);

    scripts.push(bundle.decoder_js.clone());
    scripts.push(bundle.core_js.clone());

    let decoder_module = encode_base64(&bundle.decoder_wasm, "bin-wasm-decoder");
    bin.push(decoder_module);
}

/// Extracts the local path of every favicon source; a remote favicon is
/// rejected, since only local favicons are supported.
pub fn favicon_paths(sources: &Vec<AssetSource>) -> (r: Result<Vec<String>, PackError>)
    ensures
        r is Ok <==> (forall|i: int| 0 <= i < sources@.len() ==> sources@[i] is Local),
        r is Ok ==> {
            &&& r->Ok_0@.len() == sources@.len()
            &&& forall|i: int| 0 <= i < sources@.len()
                ==> r->Ok_0@[i]@ == sources@[i]->Local_0@
        },
        r is Err ==> r->Err_0 is RemoteFaviconUnsupported,
{
    let mut paths: Vec<String> = Vec::new();
    let n = sources.len();
    for k in 0..n
        invariant
            n == sources@.len(),
            paths@.len() == k,
            forall|j: int| 0 <= j < k ==> sources@[j] is Local,
            forall|j: int| 0 <= j < k ==> paths@[j]@ == sources@[j]->Local_0@,
    {
        match &sources[k] {
            AssetSource::Local(path) => {
                paths.push(path.clone());
            },
            AssetSource::Remote(_) => {
                return Err(PackError::RemoteFaviconUnsupported);
            },
        }
    }
    Ok(paths)
}

/// Base64-encodes every resolved favicon's bytes, in order.
pub fn get_icons(files: &Vec<Vec<u8>>) -> (icons: Vec<String>)
    ensures
        icons@.len() == files@.len(),
        forall|i: int| 0 <= i < files@.len() ==> icons@[i]@ == base64_of(files@[i]@),
{
    let mut icons: Vec<String> = Vec::new();
    let n = files.len();
    for k in 0..n
        invariant
            n == files@.len(),
            icons@.len() == k,
            forall|j: int| 0 <= j < k ==> icons@[j]@ == base64_of(files@[j]@),
    {
        let encoded = crate::encoder::base64_encode(files[k].as_slice());
        icons.push(encoded);
    }
    icons
}

/// Concatenates every fetched stylesheet's text in manifest order; the
/// first failed fetch aborts the run.
pub fn get_styles_text(fetched: Vec<Result<String, String>>) -> (r: Result<String, PackError>)
    ensures
        r is Ok <==> all_fetches_ok(fetched@),
        r is Ok ==> r->Ok_0@ == spec_concat_texts(fetched@),
        r is Err ==> r->Err_0 is FetchFailed,
{
    get_css_string(fetched)
}

/// Extracts the local path of every WASM module source; a remote module
/// is rejected, since only local modules are supported.
pub fn wasm_module_paths(modules: &Vec<WasmModule>) -> (r: Result<Vec<String>, PackError>)
    ensures
        r is Ok <==> (forall|i: int| 0 <= i < modules@.len() ==> modules@[i].source is Local),
        r is Ok ==> {
            &&& r->Ok_0@.len() == modules@.len()
            &&& forall|i: int| 0 <= i < modules@.len()
                ==> r->Ok_0@[i]@ == modules@[i].source->Local_0@
        },
        r is Err ==> r->Err_0 is RemoteWasmUnsupported,
{
    let mut paths: Vec<String> = Vec::new();
    let n = modules.len();
    for k in 0..n
        invariant
            n == modules@.len(),
            paths@.len() == k,
            forall|j: int| 0 <= j < k ==> modules@[j].source is Local,
            forall|j: int| 0 <= j < k ==> paths@[j]@ == modules@[j].source->Local_0@,
    {
        match &modules[k].source {
            AssetSource::Local(path) => {
                paths.push(path.clone());
            },
            AssetSource::Remote(_) => {
                return Err(PackError::RemoteWasmUnsupported);
            },
        }
    }
    Ok(paths)
}

/// The text payload a module's bytes produce under its compression choice:
/// Base64 of the Brotli-compressed bytes, or Base64 of the bytes as read.
pub open spec fn spec_module_text(compression: CompressionType, bytes: Seq<u8>) -> Seq<char> {
    match compression {
        CompressionType::Brotli => base64_of(
            brotli_of(bytes, BROTLI_QUALITY as int, BROTLI_LGWIN as int),
        ),
        CompressionType::NoCompression => base64_of(bytes),
    }
}

/// Encodes every WASM module's bytes according to its declared
/// compression; the hash is always taken over the original bytes.  A
/// remote module is rejected, since only local modules are supported;
/// otherwise the encoding succeeds exactly when compression does on every
/// module that asks for it.
pub fn get_wasm(modules: &Vec<WasmModule>, files: &Vec<Vec<u8>>) -> (r: Result<
    Vec<Base>,
    PackError,
>)
    requires
        files@.len() == modules@.len(),
    ensures
        r is Ok <==> {
            &&& (forall|i: int| 0 <= i < modules@.len()
                ==> (#[trigger] modules@[i]).source is Local)
            &&& (forall|i: int| 0 <= i < modules@.len()
                ==> ((#[trigger] modules@[i]).compression is Brotli ==> brotli_accepts(
                    files@[i]@,
                    BROTLI_QUALITY as int,
                    BROTLI_LGWIN as int,
                )))
        },
        r is Ok ==> {
            &&& r->Ok_0@.len() == modules@.len()
            &&& forall|i: int| 0 <= i < modules@.len() ==> {
                &&& (#[trigger] r->Ok_0@[i]).id@ == modules@[i].id@
                &&& r->Ok_0@[i].hash@ == spec_hex_lower(sha256_of(files@[i]@))
                &&& r->Ok_0@[i].text@ == spec_module_text(modules@[i].compression, files@[i]@)
            }
        },
        r is Err ==> r->Err_0 is RemoteWasmUnsupported || r->Err_0 is CompressionFailed,
        r is Err && r->Err_0 is RemoteWasmUnsupported ==> exists|i: int|
            0 <= i < modules@.len() && (#[trigger] modules@[i]).source is Remote,
        r is Err && r->Err_0 is CompressionFailed ==> exists|i: int|
            0 <= i < modules@.len() && (#[trigger] modules@[i]).compression is Brotli
                && !brotli_accepts(files@[i]@, BROTLI_QUALITY as int, BROTLI_LGWIN as int),
{
    let mut bin: Vec<Base> = Vec::new();
    let n = modules.len();
    for k in 0..n
        invariant
            n == modules@.len(),
            files@.len() == modules@.len(),
            bin@.len() == k,
            forall|j: int| 0 <= j < k ==> (#[trigger] modules@[j]).source is Local,
            forall|j: int| 0 <= j < k ==> ((#[trigger] modules@[j]).compression is Brotli
                ==> brotli_accepts(files@[j]@, BROTLI_QUALITY as int, BROTLI_LGWIN as int)),
            forall|j: int| 0 <= j < k ==> {
                &&& (#[trigger] bin@[j]).id@ == modules@[j].id@
                &&& bin@[j].hash@ == spec_hex_lower(sha256_of(files@[j]@))
                &&& bin@[j].text@ == spec_module_text(modules@[j].compression, files@[j]@)
            },
    {
        if let AssetSource::Remote(_) = &modules[k].source {
            return Err(PackError::RemoteWasmUnsupported);
        }
        let encoded = match modules[k].compression {
            CompressionType::Brotli => {
                match encode_brotli_base64(&files[k], modules[k].id.as_str()) {
                    Ok(b) => b,
                    Err(e) => {
                        return Err(e);
                    },
                }
            },
            CompressionType::NoCompression => encode_base64(&files[k], modules[k].id.as_str()),
        };
        bin.push(encoded);
    }
    Ok(bin)
}

/// Assembles the final document from the resolved assets: keeps only the
/// first resolved favicon, injects the default runtime bundle when
/// enabled, and renders head and body from the final lists.
pub fn pack_html(
    runtime_enabled: bool,
    user_icons: &Vec<String>,
    styles_text: &String,
    script_texts: Vec<String>,
    bin: Vec<Base>,
    bundle: &RuntimeBundle,
) -> (html: String)
    ensures
        html@ == spec_page_html(
            styles_text@,
            spec_packed_icons(
                string_views(user_icons@),
                runtime_enabled,
                base64_of(bundle.icon_svg@),
            ),
            spec_packed_scripts(
                string_views(script_texts@),
                runtime_enabled,
                bundle.decoder_js@,
                bundle.core_js@,
            ),
            spec_packed_bin(base_views(bin@), runtime_enabled, bundle.decoder_wasm@),
        ),
{
    let mut icons: Vec<String> = Vec::new();
    if user_icons.len() > 0 {
        icons.push(user_icons[0].clone());
    }
    let mut scripts = script_texts;
    let mut bin = bin;
    let ghost scripts0 = scripts@;
    let ghost bin0 = bin@;
    let ghost icons0 = icons@;
    proof {
        assert(string_views(icons0) =~= (
            if string_views(user_icons@).len() > 0 {
                seq![string_views(user_icons@)[0]]
            } else {
                Seq::<Seq<char>>::empty()
            }
        ));
    }
    if runtime_enabled {
        default_runtime(&mut icons, &mut scripts, &mut bin, bundle);
        proof {
            assert(string_views(icons@) =~= seq![base64_of(bundle.icon_svg@)]
                + string_views(icons0));
            assert(base_views(bin@) =~= base_views(bin0) + seq![
                (
                    base_views(bin@).last().0,
                    base_views(bin@).last().1,
                    base_views(bin@).last().2,
                ),
            ]);
        }
    }
    let html = page(styles_text.as_str(), &icons, &scripts, &bin);
    proof {
        assert(string_views(icons@) =~= spec_packed_icons(
            string_views(user_icons@),
            runtime_enabled,
            base64_of(bundle.icon_svg@),
        ));
        assert(string_views(scripts@) =~= spec_packed_scripts(
            string_views(scripts0),
            runtime_enabled,
            bundle.decoder_js@,
            bundle.core_js@,
        ));
        assert(base_views(bin@) =~= spec_packed_bin(
            base_views(bin0),
            runtime_enabled,
            bundle.decoder_wasm@,
        ));
    }
    html
}

/// Favicon precedence: whenever the default runtime is enabled, the
/// rendered favicon block is built from the built-in icon's encoding —
/// never from a configured user icon, whatever the user configured.
pub proof fn lemma_favicon_precedence(
    user_icons: Seq<Seq<char>>,
    runtime_icon_b64: Seq<char>,
)
    ensures
        spec_packed_icons(user_icons, true, runtime_icon_b64).len() > 0,
        spec_packed_icons(user_icons, true, runtime_icon_b64)[0] == runtime_icon_b64,
        spec_favicons_html(spec_packed_icons(user_icons, true, runtime_icon_b64))
            == spec_favicons_html(seq![runtime_icon_b64]),
{
}

/// Empty-favicon edge case: with the runtime disabled and no favicon
/// configured, the favicon list stays empty and the rendered block holds
/// no link at all — packing cannot fail on a missing icon.
pub proof fn lemma_empty_favicon(runtime_icon_b64: Seq<char>)
    ensures
        spec_packed_icons(Seq::empty(), false, runtime_icon_b64) == Seq::<Seq<char>>::empty(),
        spec_favicons_html(spec_packed_icons(Seq::empty(), false, runtime_icon_b64)) == "\n"@,
{
    assert(spec_packed_icons(Seq::empty(), false, runtime_icon_b64)
        =~= Seq::<Seq<char>>::empty());
}

} // verus!
