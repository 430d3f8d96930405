//! The elevation data pipeline and the globe's static instance grid.
//!
//! The globe's surface is a 181x361 grid: latitude rows from -90 to +90
//! degrees and longitude columns from -180 to +180 degrees, one degree
//! apart, 65,341 cells per tile.  109 tiles ship as individually
//! Brotli-compressed binary assets; each decompresses to consecutive
//! little-endian signed 16-bit samples that are widened to 32 bits.  The
//! GPU reads the flattened concatenation of every tile plus a small
//! selection uniform naming the active tile.

use vstd::prelude::*;

use vstd::arithmetic::div_mod::lemma_fundamental_div_mod_converse;

use crate::errors::PackError;

verus! {

/// Latitude rows of one tile: -90 to +90 degrees inclusive, one per degree.
pub const GRID_HEIGHT: u32 = 181;

/// Longitude columns of one tile: -180 to +180 degrees inclusive.
pub const GRID_WIDTH: u32 = 361;

/// Samples per tile: 181 rows of 361 columns.
pub const POINTS_PER_MAP: u32 = 65341;

/// Number of elevation tiles shipped with the application.
pub const TILE_COUNT: u32 = 109;

/// One tile's decoded samples, row-major, latitude rows outermost.
#[derive(Debug, Clone, PartialEq, Eq)]
pub struct ElevationBuffer {
    pub buffer: Vec<i32>,
}

/// Every loaded tile, in load order.
#[derive(Debug, Clone, PartialEq, Eq)]
pub struct AllMapData {
    pub maps: Vec<ElevationBuffer>,
}

/// The signed 16-bit value of a little-endian byte pair, widened.
pub open spec fn spec_le_i16(lo: u8, hi: u8) -> int {
    let v = lo + 256 * (hi as int);
    if v < 32768 {
        v
    } else {
        v - 65536
    }
}

/// The little-endian 16-bit decoding of a byte sequence, one value per
/// byte pair, in input order; a trailing odd byte is dropped.
pub open spec fn spec_le_decode(bytes: Seq<u8>) -> Seq<i32> {
    Seq::new((bytes.len() / 2) as nat, |i: int| spec_le_i16(bytes[2 * i], bytes[2 * i + 1]) as i32)
}

/// Decodes bytes as consecutive little-endian signed 16-bit integers,
/// widened to 32 bits.
pub fn bytes_to_i16_vec(bytes: &Vec<u8>) -> (r: Vec<i32>)
    ensures
        r@ == spec_le_decode(bytes@),
{
    let mut out: Vec<i32> = Vec::new();
    let len = bytes.len();
    let n = len / 2;
    let mut k: usize = 0;
    while k < n
        invariant
            len == bytes@.len(),
            n == bytes@.len() / 2,
            k <= n,
            out@.len() == k,
            forall|i: int| 0 <= i < k
                ==> out@[i] as int == spec_le_i16(bytes@[2 * i], bytes@[2 * i + 1]),
        decreases n - k,
    {
        proof {
            assert(2 * k + 1 < bytes@.len());
        }
        let lo = bytes[2 * k] as u32;
        let hi = bytes[2 * k + 1] as u32;
        let w = lo + 256 * hi;
        let v: i32 = if w < 32768 {
            w as i32
        } else {
            w as i32 - 65536
        };
        out.push(v);
        k = k + 1;
    }
    proof {
        assert(out@ =~= spec_le_decode(bytes@));
    }
    out
}

/// True of bytes that are the Brotli compression of some payload.
pub open spec fn is_compressed(t: Seq<u8>) -> bool {
    exists|orig: Seq<u8>, q: int, w: int| t == crate::encoder::brotli_of(orig, q, w)
}

/// The payload a compressed tile decompresses to.
pub open spec fn payload_of(t: Seq<u8>) -> Seq<u8> {
    (choose|orig: Seq<u8>, q: int, w: int| t == crate::encoder::brotli_of(orig, q, w)).0
}

/// Brotli-decompresses one tile's bytes: succeeds exactly on well-formed
/// Brotli streams, and inverts compression on every input that is a
/// compression.
pub fn decompress_elevation(data: &Vec<u8>) -> (r: Result<Vec<u8>, PackError>)
    ensures
        r is Ok <==> crate::encoder::brotli_decodable(data@),
        is_compressed(data@) ==> r is Ok && r->Ok_0@ == payload_of(data@),
        r is Err ==> r->Err_0 is DecodeFailed,
{
    match crate::encoder::brotli_decompress_bytes(data.as_slice()) {
        Ok(v) => {
            proof {
                if is_compressed(data@) {
                    let (orig, q, w) = choose|orig: Seq<u8>, q: int, w: int|
                        data@ == crate::encoder::brotli_of(orig, q, w);
                    assert(v@ == orig);
                }
            }
            Ok(v)
        },
        Err(reason) => {
            proof {
                // A compressed input would have decompressed: the failure
                // shows the bytes are no compression of anything.
                assert(!is_compressed(data@)) by {
                    if is_compressed(data@) {
                        let (orig, q, w) = choose|orig: Seq<u8>, q: int, w: int|
                            data@ == crate::encoder::brotli_of(orig, q, w);
                    }
                }
            }
            Err(PackError::DecodeFailed { reason })
        },
    }
}

/// The positions of the tiles that are well-formed Brotli streams, in
/// tile order.
pub open spec fn decodable_tile_indices(tiles: Seq<Vec<u8>>) -> Seq<int>
    decreases tiles.len(),
{
    if tiles.len() == 0 {
        Seq::empty()
    } else {
        decodable_tile_indices(tiles.drop_last()) + (
        if crate::encoder::brotli_decodable(tiles.last()@) {
            seq![tiles.len() - 1]
        } else {
            Seq::empty()
        })
    }
}

/// True of one loaded entry: the tile at `idx` is a well-formed stream,
/// and when it is the compression of some payload, the entry holds that
/// payload's decoded samples.
pub open spec fn tile_entry_ok(tiles: Seq<Vec<u8>>, idx: int, m: ElevationBuffer) -> bool {
    &&& 0 <= idx < tiles.len()
    &&& crate::encoder::brotli_decodable(tiles[idx]@)
    &&& (is_compressed(tiles[idx]@) ==> m.buffer@ == spec_le_decode(payload_of(tiles[idx]@)))
}

/// Parses the loaded tiles in order, decompressing and decoding each; a
/// tile that fails to decompress is skipped, and the ones after it keep
/// their relative order (indices are not renumbered).  One buffer comes
/// back per well-formed tile, in tile order; every tile that is a valid
/// compression contributes the decode of its payload.
pub fn load_and_parse_maps_deg1(tiles: &Vec<Vec<u8>>) -> (maps: Vec<ElevationBuffer>)
    ensures
        maps@.len() <= tiles@.len(),
        maps@.len() == decodable_tile_indices(tiles@).len(),
        forall|i: int| 0 <= i < maps@.len() ==> tile_entry_ok(
            tiles@,
            decodable_tile_indices(tiles@)[i],
            #[trigger] maps@[i],
        ),
        (forall|i: int| 0 <= i < tiles@.len() ==> is_compressed(tiles@[i]@)) ==> {
            &&& maps@.len() == tiles@.len()
            &&& forall|i: int| 0 <= i < tiles@.len()
                ==> (#[trigger] maps@[i]).buffer@ == spec_le_decode(payload_of(tiles@[i]@))
        },
{
    let mut maps: Vec<ElevationBuffer> = Vec::new();
    let n = tiles.len();
    let mut k: usize = 0;
    while k < n
        invariant
            n == tiles@.len(),
            k <= n,
            maps@.len() <= k,
            maps@.len() == decodable_tile_indices(tiles@.take(k as int)).len(),
            forall|i: int| 0 <= i < maps@.len() ==> tile_entry_ok(
                tiles@,
                decodable_tile_indices(tiles@.take(k as int))[i],
                #[trigger] maps@[i],
            ),
            (forall|i: int| 0 <= i < k ==> is_compressed(tiles@[i]@)) ==> {
                &&& maps@.len() == k
                &&& forall|i: int| 0 <= i < k
                    ==> (#[trigger] maps@[i]).buffer@ == spec_le_decode(payload_of(tiles@[i]@))
            },
        decreases n - k,
    {
        let ghost pre = decodable_tile_indices(tiles@.take(k as int));
        let ghost post = decodable_tile_indices(tiles@.take(k + 1));
        let ghost maps0 = maps@;
        proof {
            assert(tiles@.take(k + 1).drop_last() =~= tiles@.take(k as int));
            assert(tiles@.take(k + 1).last() == tiles@[k as int]);
            if crate::encoder::brotli_decodable(tiles@[k as int]@) {
                assert(post =~= pre + seq![k as int]);
            } else {
                assert(post =~= pre);
            }
        }
        match decompress_elevation(&tiles[k]) {
            Ok(raw) => {
                let buffer = bytes_to_i16_vec(&raw);
                let ghost rawv = raw@;
                maps.push(ElevationBuffer { buffer });
                proof {
                    assert(maps@ == maps0.push(maps@.last()));
                    assert(maps@.last().buffer@ == spec_le_decode(rawv));
                    if is_compressed(tiles@[k as int]@) {
                        assert(rawv == payload_of(tiles@[k as int]@));
                    }
                    assert(tile_entry_ok(tiles@, k as int, maps@.last()));
                }
            },
            Err(_) => {
                proof {
                    assert(!is_compressed(tiles@[k as int]@));
                }
            },
        }
        proof {
            assert(maps@.len() == post.len());
            assert forall|i: int| 0 <= i < maps@.len() implies tile_entry_ok(
                tiles@,
                decodable_tile_indices(tiles@.take(k + 1))[i],
                #[trigger] maps@[i],
            ) by {
                if i < pre.len() {
                    assert(post[i] == pre[i]);
                    assert(maps@[i] == maps0[i]);
                    assert(tile_entry_ok(
                        tiles@,
                        decodable_tile_indices(tiles@.take(k as int))[i],
                        maps0[i],
                    ));
                } else {
                    assert(post[i] == k as int);
                    assert(maps@[i] == maps@.last());
                }
            };
        }
        k = k + 1;
    }
    proof {
        assert(tiles@.take(n as int) =~= tiles@);
    }
    maps
}

/// The flattened concatenation of every tile's samples, in tile order.
pub open spec fn spec_flatten(maps: Seq<ElevationBuffer>) -> Seq<i32>
    decreases maps.len(),
{
    if maps.len() == 0 {
        Seq::empty()
    } else {
        spec_flatten(maps.drop_last()) + maps.last().buffer@
    }
}

/// Concatenates every loaded tile's samples into the single buffer the
/// GPU's elevation storage binding holds.
pub fn flatten_elevations(all: &AllMapData) -> (flat: Vec<i32>)
    ensures
        flat@ == spec_flatten(all.maps@),
{
    let mut flat: Vec<i32> = Vec::new();
    let n = all.maps.len();
    let mut k: usize = 0;
    while k < n
        invariant
            n == all.maps@.len(),
            k <= n,
            flat@ == spec_flatten(all.maps@.take(k as int)),
        decreases n - k,
    {
        let buf = &all.maps[k].buffer;
        let m = buf.len();
        let mut j: usize = 0;
        while j < m
            invariant
                m == buf@.len(),
                j <= m,
                flat@ == spec_flatten(all.maps@.take(k as int)) + buf@.take(j as int),
            decreases m - j,
        {
            flat.push(buf[j]);
            proof {
                assert(buf@.take(j + 1) =~= buf@.take(j as int).push(buf@[j as int]));
                assert(spec_flatten(all.maps@.take(k as int)) + buf@.take(j + 1)
                    =~= (spec_flatten(all.maps@.take(k as int)) + buf@.take(j as int)).push(
                        buf@[j as int],
                    ));
            }
            j = j + 1;
        }
        proof {
            assert(all.maps@.take(k + 1).drop_last() =~= all.maps@.take(k as int));
            assert(all.maps@.take(k + 1).last() == all.maps@[k as int]);
            assert(buf@.take(m as int) =~= buf@);
        }
        k = k + 1;
    }
    proof {
        assert(all.maps@.take(n as int) =~= all.maps@);
    }
    flat
}

/// Flattening tiles of one uniform length multiplies: the flattened
/// buffer's length is the tile count times the samples per tile.
pub proof fn lemma_flatten_uniform_len(maps: Seq<ElevationBuffer>, l: nat)
    requires
        forall|i: int| 0 <= i < maps.len() ==> (#[trigger] maps[i]).buffer@.len() == l,
    ensures
        spec_flatten(maps).len() == maps.len() * l,
    decreases maps.len(),
{
    if maps.len() == 0 {
    } else {
        lemma_flatten_uniform_len(maps.drop_last(), l);
        assert(maps.last() == maps[maps.len() - 1]);
        assert((maps.len() - 1) * l + l == maps.len() * l) by (nonlinear_arith);
    }
}

/// The full elevation dataset: 109 tiles of 65,341 samples each flatten
/// to exactly 7,122,169 integers.
pub proof fn lemma_total_elevation_points(maps: Seq<ElevationBuffer>)
    requires
        maps.len() == TILE_COUNT,
        forall|i: int| 0 <= i < maps.len()
            ==> (#[trigger] maps[i]).buffer@.len() == POINTS_PER_MAP,
    ensures
        spec_flatten(maps).len() == 7122169,
{
    lemma_flatten_uniform_len(maps, POINTS_PER_MAP as nat);
}

/// The map-selection uniform's four words: the active tile's index first,
/// then the fixed samples-per-tile count, then two padding words.  The
/// second word is 65,341 whatever tile is selected.
pub fn map_selection_words(map_id: u32) -> (words: [u32; 4])
    ensures
        words@.len() == 4,
        words@[0] == map_id,
        words@[1] == POINTS_PER_MAP,
        words@[2] == 0,
        words@[3] == 0,
{
    [map_id, POINTS_PER_MAP, 0, 0]
}

/// The render world's cached copy of the map-selection uniform.
#[derive(Debug, Clone, Copy, PartialEq, Eq, Structural)]
pub struct MapSelectionUniformBuffer {
    pub current_map: u32,
}

/// Mirrors the active tile index into the render world: when the index
/// changed since the render world last saw it, the cached copy is updated
/// and the four words to rewrite the GPU uniform with are produced; when
/// it did not, nothing is written.
pub fn update_map_from_main_world(sel: &mut MapSelectionUniformBuffer, current_index: u32) -> (write:
    Option<[u32; 4]>)
    ensures
        old(sel).current_map == current_index ==> write is None && *final(sel) == *old(sel),
        old(sel).current_map != current_index ==> {
            &&& final(sel).current_map == current_index
            &&& write matches Some(words) && words@[0] == current_index
                && words@[1] == POINTS_PER_MAP && words@[2] == 0 && words@[3] == 0
        },
{
    if sel.current_map != current_index {
        sel.current_map = current_index;
        Some(map_selection_words(current_index))
    } else {
        None
    }
}

/// One cell of the instance grid: its latitude row, longitude column, and
/// the index the shader uses to look its elevation up within the active
/// tile.
#[derive(Debug, Clone, Copy, PartialEq, Eq, Structural)]
pub struct GridCell {
    pub row: u32,
    pub col: u32,
    pub elevation_index: u32,
}

/// Derives the static instance grid: exactly 65,341 cells, row-major, one
/// per (latitude row, longitude column) pair, each cell's elevation index
/// equal to `row * 361 + col` — which makes it equal to the cell's
/// position in the list.
pub fn setup_instance_geometries() -> (cells: Vec<GridCell>)
    ensures
        cells@.len() == POINTS_PER_MAP,
        forall|k: int| 0 <= k < cells@.len() ==> {
            &&& (#[trigger] cells@[k]).row == k / (GRID_WIDTH as int)
            &&& cells@[k].col == k % (GRID_WIDTH as int)
            &&& cells@[k].elevation_index == k
        },
{
    let mut cells: Vec<GridCell> = Vec::new();
    let mut i: u32 = 0;
    while i < GRID_HEIGHT
        invariant
            i <= GRID_HEIGHT,
            cells@.len() == i * GRID_WIDTH,
            forall|k: int| 0 <= k < cells@.len() ==> {
                &&& (#[trigger] cells@[k]).row == k / (GRID_WIDTH as int)
                &&& cells@[k].col == k % (GRID_WIDTH as int)
                &&& cells@[k].elevation_index == k
            },
        decreases GRID_HEIGHT - i,
    {
        let mut j: u32 = 0;
        while j < GRID_WIDTH
            invariant
                i < GRID_HEIGHT,
                j <= GRID_WIDTH,
                cells@.len() == i * GRID_WIDTH + j,
                forall|k: int| 0 <= k < cells@.len() ==> {
                    &&& (#[trigger] cells@[k]).row == k / (GRID_WIDTH as int)
                    &&& cells@[k].col == k % (GRID_WIDTH as int)
                    &&& cells@[k].elevation_index == k
                },
            decreases GRID_WIDTH - j,
        {
            proof {
                assert(i * 361 + j <= 180 * 361 + 360) by (nonlinear_arith)
                    requires
                        i <= 180,
                        j <= 360,
                ;
            }
            let idx = i * GRID_WIDTH + j;
            cells.push(GridCell { row: i, col: j, elevation_index: idx });
            proof {
                lemma_fundamental_div_mod_converse(
                    idx as int,
                    GRID_WIDTH as int,
                    i as int,
                    j as int,
                );
            }
            j = j + 1;
        }
        proof {
            assert(i * GRID_WIDTH + GRID_WIDTH == (i + 1) * GRID_WIDTH) by (nonlinear_arith);
        }
        i = i + 1;
    }
    proof {
        assert(181 * GRID_WIDTH == POINTS_PER_MAP);
    }
    cells
}

} // verus!
