//! The browser-side decoder's single entry point.
//!
//! The packer's default runtime embeds Brotli-compressed payloads; this
//! module supplies the decompression they need at load time.  It is the
//! whole logic of a separately compiled WASM component; the host glue that
//! moves bytes in and out of the WASM instance lives outside the library.

use vstd::prelude::*;

use crate::encoder::brotli_decodable;
use crate::encoder::brotli_decompress_bytes;
use crate::encoder::brotli_of;

verus! {

/// Brotli-decompresses an arbitrary byte buffer: succeeds exactly on
/// well-formed Brotli streams, inverts compression on every buffer that
/// is a compression, and on any other input returns a descriptive message
/// rather than crashing the host page.
pub fn decompress(buf: &Vec<u8>) -> (r: Result<Vec<u8>, String>)
    ensures
        r is Ok <==> brotli_decodable(buf@),
        forall|orig: Seq<u8>, q: int, w: int| buf@ == #[trigger] brotli_of(orig, q, w)
            ==> r is Ok && r->Ok_0@ == orig,
        r is Err ==> exists|rest: Seq<char>|
            r->Err_0@ == "Brotli decompress failed: "@ + rest,
{
    match brotli_decompress_bytes(buf.as_slice()) {
        Ok(out) => Ok(out),
        Err(reason) => {
            let mut msg = String::from_str("Brotli decompress failed: ");
            msg.append(reason.as_str());
            proof {
                assert(msg@ == "Brotli decompress failed: "@ + reason@);
            }
            Err(msg)
        },
    }
}

} // verus!
