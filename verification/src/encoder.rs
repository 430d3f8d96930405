//! Turning raw asset bytes into the hash + text payload embedded in HTML.
//!
//! An asset is content-hashed with SHA-256 over its original bytes, then
//! (optionally) Brotli-compressed, then Base64-encoded.  The hash is
//! rendered as lowercase hex.  The outside hash, encoding and compression
//! routines stand behind trusted wrappers; everything around them is
//! verified, and the decode functions state the round trip exactly.

use vstd::prelude::*;

use crate::errors::PackError;

use base64::Engine;
use base64::prelude::BASE64_STANDARD;
use sha2::Digest;
use sha2::Sha256;

verus! {

/// The SHA-256 digest (32 bytes) of a byte sequence.
pub uninterp spec fn sha256_of(data: Seq<u8>) -> Seq<u8>;

/// The standard (padded) Base64 encoding of a byte sequence.
pub uninterp spec fn base64_of(data: Seq<u8>) -> Seq<char>;

/// The Brotli compression of a byte sequence at a given quality and
/// window size, all other encoder parameters at their defaults.
pub uninterp spec fn brotli_of(data: Seq<u8>, quality: int, lgwin: int) -> Seq<u8>;

/// Whether Brotli compression succeeds on a byte sequence at a given
/// quality and window size.  Like the compressed bytes themselves, success
/// depends on the arguments alone.
pub uninterp spec fn brotli_accepts(data: Seq<u8>, quality: int, lgwin: int) -> bool;

/// Whether a byte sequence is a well-formed Brotli stream, that is,
/// whether decompressing it succeeds; a function of the bytes alone.
pub uninterp spec fn brotli_decodable(data: Seq<u8>) -> bool;

/// Brotli quality level used for embedded payloads: a speed/ratio
/// compromise below the maximum of 11.
pub const BROTLI_QUALITY: i32 = 9;

/// Brotli window size (log2) used for embedded payloads.
pub const BROTLI_LGWIN: i32 = 22;

/// Relies on sha2's `Sha256::digest`: the digest is exactly 32 bytes and
/// depends on the input bytes alone.
#[verifier::external_body]
fn sha256_digest(data: &[u8]) -> (r: Vec<u8>)
    ensures
        r@ == sha256_of(data@),
        r@.len() == 32,
{
    Sha256::digest(data).to_vec()
}

/// Relies on base64's `Engine::encode` with the standard padded alphabet:
/// the encoding depends on the input bytes alone.
#[verifier::external_body]
pub(crate) fn base64_encode(data: &[u8]) -> (r: String)
    ensures
        r@ == base64_of(data@),
{
    BASE64_STANDARD.encode(data)
}

/// Relies on base64's `Engine::decode` with the standard padded alphabet:
/// decoding inverts encoding.
#[verifier::external_body]
fn base64_decode(text: &str) -> (r: Result<Vec<u8>, String>)
    ensures
        forall|orig: Seq<u8>| text@ == #[trigger] base64_of(orig)
            ==> r is Ok && r->Ok_0@ == orig,
{
    match BASE64_STANDARD.decode(text) {
        Ok(v) => Ok(v),
        Err(e) => Err(format!("{e:?}")),
    }
}

/// Relies on brotli's `BrotliCompress`: for fixed parameters, both the
/// output and whether compression succeeds depend on the input bytes
/// alone (reading or writing the in-memory buffers cannot fail).
#[verifier::external_body]
fn brotli_compress_with(data: &[u8], quality: i32, lgwin: i32) -> (r: Result<Vec<u8>, String>)
    ensures
        r is Ok <==> brotli_accepts(data@, quality as int, lgwin as int),
        r is Ok ==> r->Ok_0@ == brotli_of(data@, quality as int, lgwin as int),
{
    let params = brotli::enc::BrotliEncoderParams {
        quality,
        lgwin,
        ..Default::default()
    };
    let mut out = Vec::new();
    match brotli::BrotliCompress(&mut &data[..], &mut out, &params) {
        Ok(_) => Ok(out),
        Err(e) => Err(format!("{e:?}")),
    }
}

/// Relies on brotli's `BrotliDecompress`: whether a stream decompresses
/// depends on its bytes alone, and decompression inverts compression at
/// any quality and window size.
#[verifier::external_body]
pub(crate) fn brotli_decompress_bytes(data: &[u8]) -> (r: Result<Vec<u8>, String>)
    ensures
        r is Ok <==> brotli_decodable(data@),
        forall|orig: Seq<u8>, q: int, w: int| data@ == #[trigger] brotli_of(orig, q, w)
            ==> r is Ok && r->Ok_0@ == orig,
{
    let mut out = Vec::new();
    match brotli::BrotliDecompress(&mut &data[..], &mut out) {
        Ok(_) => Ok(out),
        Err(e) => Err(format!("{e:?}")),
    }
}

/// The lowercase hex digit for a value below 16.
pub open spec fn spec_hex_digit(d: int) -> char {
    if d == 0 { '0' } else if d == 1 { '1' } else if d == 2 { '2' } else if d == 3 { '3' }
    else if d == 4 { '4' } else if d == 5 { '5' } else if d == 6 { '6' } else if d == 7 { '7' }
    else if d == 8 { '8' } else if d == 9 { '9' } else if d == 10 { 'a' } else if d == 11 { 'b' }
    else if d == 12 { 'c' } else if d == 13 { 'd' } else if d == 14 { 'e' } else { 'f' }
}

/// The lowercase hex rendering of a byte sequence, two digits per byte.
pub open spec fn spec_hex_lower(data: Seq<u8>) -> Seq<char>
    decreases data.len(),
{
    if data.len() == 0 {
        Seq::empty()
    } else {
        seq![
            spec_hex_digit(data.first() as int / 16),
            spec_hex_digit(data.first() as int % 16),
        ] + spec_hex_lower(data.drop_first())
    }
}

fn hex_digit_str(d: u8) -> (r: &'static str)
    requires
        d < 16,
    ensures
        r@ == seq![spec_hex_digit(d as int)],
{
    proof {
        reveal_strlit("0"); reveal_strlit("1"); reveal_strlit("2"); reveal_strlit("3");
        reveal_strlit("4"); reveal_strlit("5"); reveal_strlit("6"); reveal_strlit("7");
        reveal_strlit("8"); reveal_strlit("9"); reveal_strlit("a"); reveal_strlit("b");
        reveal_strlit("c"); reveal_strlit("d"); reveal_strlit("e"); reveal_strlit("f");
        assert(seq![spec_hex_digit(d as int)].len() == 1);
    }
    match d {
        0 => "0", 1 => "1", 2 => "2", 3 => "3",
        4 => "4", 5 => "5", 6 => "6", 7 => "7",
        8 => "8", 9 => "9", 10 => "a", 11 => "b",
        12 => "c", 13 => "d", 14 => "e", _ => "f",
    }
}

/// Renders bytes as lowercase hex, two digits per byte.
pub fn to_hex_lower(data: &Vec<u8>) -> (r: String)
    ensures
        r@ == spec_hex_lower(data@),
{
    let mut out = String::new();
    let n = data.len();
    assert(data@.skip(0) == data@);
    for i in 0..n
        invariant
            n == data@.len(),
            spec_hex_lower(data@) =~= out@ + spec_hex_lower(data@.skip(i as int)),
    {
        let b = data[i];
        out.append(hex_digit_str(b / 16));
        out.append(hex_digit_str(b % 16));
        proof {
            assert(data@.skip(i as int).first() == data@[i as int]);
            assert(data@.skip(i as int).drop_first() =~= data@.skip(i + 1));
        }
    }
    proof {
        assert(data@.skip(n as int) =~= Seq::<u8>::empty());
    }
    out
}

/// One encoded asset, ready to be embedded as a `<pre>` element: its
/// element id, the lowercase hex SHA-256 of the original bytes, and the
/// Base64 text of the (possibly compressed) bytes.
#[derive(Debug, Clone, PartialEq, Eq)]
pub struct Base {
    pub id: String,
    pub hash: String,
    pub text: String,
}

impl Base {
    pub fn new(id: String, hash: String, text: String) -> (r: Self)
        ensures
            r.id@ == id@,
            r.hash@ == hash@,
            r.text@ == text@,
    {
        Base { id, hash, text }
    }
}

/// Encodes raw asset bytes without compression: the hash is the lowercase
/// hex SHA-256 of the bytes, the text their Base64 encoding.
pub fn encode_base64(buffer: &Vec<u8>, id: &str) -> (b: Base)
    ensures
        b.id@ == id@,
        b.hash@ == spec_hex_lower(sha256_of(buffer@)),
        b.text@ == base64_of(buffer@),
{
    let digest = sha256_digest(buffer.as_slice());
    let hash_string = to_hex_lower(&digest);
    let encoded = base64_encode(buffer.as_slice());
    Base::new(String::from_str(id), hash_string, encoded)
}

/// Brotli-compresses bytes at the packer's fixed quality and window size.
pub fn encode_brotli(buffer: &Vec<u8>) -> (r: Result<Vec<u8>, PackError>)
    ensures
        r is Ok <==> brotli_accepts(buffer@, BROTLI_QUALITY as int, BROTLI_LGWIN as int),
        r is Ok ==> r->Ok_0@ == brotli_of(buffer@, BROTLI_QUALITY as int, BROTLI_LGWIN as int),
        r is Err ==> r->Err_0 is CompressionFailed,
{
    match brotli_compress_with(buffer.as_slice(), BROTLI_QUALITY, BROTLI_LGWIN) {
        Ok(v) => Ok(v),
        Err(reason) => Err(PackError::CompressionFailed { reason }),
    }
}

/// Encodes raw asset bytes with compression: the hash is still taken over
/// the original bytes, the text is the Base64 of the compressed bytes.
pub fn encode_brotli_base64(buffer: &Vec<u8>, id: &str) -> (r: Result<Base, PackError>)
    ensures
        r is Ok <==> brotli_accepts(buffer@, BROTLI_QUALITY as int, BROTLI_LGWIN as int),
        r is Ok ==> {
            &&& r->Ok_0.id@ == id@
            &&& r->Ok_0.hash@ == spec_hex_lower(sha256_of(buffer@))
            &&& r->Ok_0.text@ == base64_of(
                brotli_of(buffer@, BROTLI_QUALITY as int, BROTLI_LGWIN as int))
        },
        r is Err ==> r->Err_0 is CompressionFailed,
{
    let digest = sha256_digest(buffer.as_slice());
    let hash_string = to_hex_lower(&digest);
    let compressed = match encode_brotli(buffer) {
        Ok(v) => v,
        Err(e) => {
            return Err(e);
        },
    };
    let encoded = base64_encode(compressed.as_slice());
    Ok(Base::new(String::from_str(id), hash_string, encoded))
}

/// Decodes a Base64 payload; inverts `encode_base64`'s text on every input
/// that is an encoding.
pub fn decode_base64_text(text: &str) -> (r: Result<Vec<u8>, PackError>)
    ensures
        forall|orig: Seq<u8>| text@ == #[trigger] base64_of(orig)
            ==> r is Ok && r->Ok_0@ == orig,
        r is Err ==> r->Err_0 is DecodeFailed,
{
    match base64_decode(text) {
        Ok(v) => Ok(v),
        Err(reason) => Err(PackError::DecodeFailed { reason }),
    }
}

/// Decodes a compressed embedded payload: Base64, then Brotli.  Inverts
/// `encode_brotli_base64`'s text on every input that is such an encoding.
pub fn decode_embedded_payload(text: &str) -> (r: Result<Vec<u8>, PackError>)
    ensures
        forall|orig: Seq<u8>|
            text@ == base64_of(#[trigger] brotli_of(orig, BROTLI_QUALITY as int, BROTLI_LGWIN as int))
            ==> r is Ok && r->Ok_0@ == orig,
        r is Err ==> r->Err_0 is DecodeFailed,
{
    let compressed = match decode_base64_text(text) {
        Ok(v) => v,
        Err(e) => {
            return Err(e);
        },
    };
    match brotli_decompress_bytes(compressed.as_slice()) {
        Ok(v) => Ok(v),
        Err(reason) => Err(PackError::DecodeFailed { reason }),
    }
}

/// Round trip, uncompressed: for every byte buffer, decoding the text
/// that `encode_base64` embeds yields the original bytes, and the hash
/// embedded beside it is the lowercase hex SHA-256 of those bytes.
pub fn round_trip_uncompressed(buffer: &Vec<u8>) -> (r: Vec<u8>)
    ensures
        r@ == buffer@,
{
    let base = encode_base64(buffer, "bin");
    let decoded = decode_base64_text(base.text.as_str());
    proof {
        assert(decoded is Ok);
    }
    match decoded {
        Ok(v) => v,
        Err(_) => Vec::new(),
    }
}

/// Round trip, compressed: whenever compression succeeds, Base64-decoding
/// and then Brotli-decompressing the text that `encode_brotli_base64`
/// embeds yields the original bytes; the hash is still taken over the
/// original, pre-compression bytes.
pub fn round_trip_compressed(buffer: &Vec<u8>) -> (r: Result<Vec<u8>, PackError>)
    ensures
        r is Ok <==> brotli_accepts(buffer@, BROTLI_QUALITY as int, BROTLI_LGWIN as int),
        r is Ok ==> r->Ok_0@ == buffer@,
        r is Err ==> r->Err_0 is CompressionFailed,
{
    let base = match encode_brotli_base64(buffer, "bin") {
        Ok(b) => b,
        Err(e) => {
            return Err(e);
        },
    };
    let decoded = decode_embedded_payload(base.text.as_str());
    proof {
        assert(decoded is Ok);
    }
    match decoded {
        Ok(v) => Ok(v),
        Err(_) => Ok(Vec::new()),
    }
}

} // verus!
