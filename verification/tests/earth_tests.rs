use htmlpacker::earth::{
    bytes_to_i16_vec, decompress_elevation, flatten_elevations, load_and_parse_maps_deg1,
    map_selection_words, setup_instance_geometries, update_map_from_main_world, AllMapData,
    ElevationBuffer, MapSelectionUniformBuffer,
};
use htmlpacker::encoder::encode_brotli;

#[test]
fn little_endian_decoding_is_exact() {
    // 0x0001 -> 1, 0xffff -> -1, 0x8000 -> -32768, 0x7fff -> 32767.
    let bytes = vec![0x01, 0x00, 0xff, 0xff, 0x00, 0x80, 0xff, 0x7f];
    let values = bytes_to_i16_vec(&bytes);
    assert_eq!(values, vec![1, -1, -32768, 32767]);
}

#[test]
fn decoding_yields_one_value_per_byte_pair() {
    let bytes: Vec<u8> = (0u8..=99).collect();
    let values = bytes_to_i16_vec(&bytes);
    assert_eq!(values.len(), 50);
    for (i, v) in values.iter().enumerate() {
        let lo = bytes[2 * i] as u16;
        let hi = bytes[2 * i + 1] as u16;
        assert_eq!(*v, i16::from_le_bytes([lo as u8, hi as u8]) as i32);
    }
}

#[test]
fn odd_trailing_byte_is_dropped() {
    let values = bytes_to_i16_vec(&vec![0x02, 0x00, 0x09]);
    assert_eq!(values, vec![2]);
}

#[test]
fn tile_decompression_inverts_compression() {
    let payload: Vec<u8> = (0..1000u32).flat_map(|i| (i as i16).to_le_bytes()).collect();
    let compressed = encode_brotli(&payload).unwrap();
    let raw = decompress_elevation(&compressed).unwrap();
    assert_eq!(raw, payload);
}

#[test]
fn corrupt_tiles_are_skipped_and_order_kept() {
    let a: Vec<u8> = vec![1, 0, 2, 0];
    let b: Vec<u8> = vec![3, 0, 4, 0];
    let tiles = vec![
        encode_brotli(&a).unwrap(),
        vec![0xde, 0xad, 0xbe, 0xef],
        encode_brotli(&b).unwrap(),
    ];
    let maps = load_and_parse_maps_deg1(&tiles);
    assert_eq!(maps.len(), 2);
    assert_eq!(maps[0].buffer, vec![1, 2]);
    assert_eq!(maps[1].buffer, vec![3, 4]);
}

#[test]
fn all_valid_tiles_load_in_order() {
    let tiles: Vec<Vec<u8>> = (0..5i16)
        .map(|n| {
            let payload: Vec<u8> = n.to_le_bytes().to_vec();
            encode_brotli(&payload).unwrap()
        })
        .collect();
    let maps = load_and_parse_maps_deg1(&tiles);
    assert_eq!(maps.len(), 5);
    for (n, m) in maps.iter().enumerate() {
        assert_eq!(m.buffer, vec![n as i32]);
    }
}

#[test]
fn instance_grid_has_exactly_one_cell_per_degree_pair() {
    let cells = setup_instance_geometries();
    assert_eq!(cells.len(), 65341);
    assert_eq!(cells.len(), 181 * 361);
    // First cell: south pole row, first column.
    assert_eq!((cells[0].row, cells[0].col, cells[0].elevation_index), (0, 0, 0));
    // Pole rows are present and well-formed at both ends.
    assert_eq!(cells[360].row, 0);
    assert_eq!(cells[360].col, 360);
    let last = cells[65340];
    assert_eq!((last.row, last.col, last.elevation_index), (180, 360, 65340));
    // The shader's lookup index is the row-major position.
    assert_eq!(cells[5 * 361 + 7].elevation_index, 5 * 361 + 7);
    assert_eq!(cells[5 * 361 + 7].row, 5);
    assert_eq!(cells[5 * 361 + 7].col, 7);
}

#[test]
fn flattened_buffer_concatenates_all_tiles() {
    let all = AllMapData {
        maps: vec![
            ElevationBuffer { buffer: vec![1, 2, 3] },
            ElevationBuffer { buffer: vec![4] },
            ElevationBuffer { buffer: vec![5, 6] },
        ],
    };
    assert_eq!(flatten_elevations(&all), vec![1, 2, 3, 4, 5, 6]);
}

#[test]
fn full_dataset_flattens_to_the_documented_size() {
    // 109 tiles of 65,341 samples each.
    let all = AllMapData {
        maps: (0..109).map(|_| ElevationBuffer { buffer: vec![0; 65341] }).collect(),
    };
    assert_eq!(flatten_elevations(&all).len(), 7_122_169);
}

#[test]
fn map_selection_words_always_carry_the_tile_size() {
    assert_eq!(map_selection_words(0), [0, 65341, 0, 0]);
    assert_eq!(map_selection_words(108), [108, 65341, 0, 0]);
}

#[test]
fn map_selection_uniform_is_rewritten_only_on_change() {
    let mut sel = MapSelectionUniformBuffer { current_map: 0 };
    assert_eq!(update_map_from_main_world(&mut sel, 0), None);
    assert_eq!(sel.current_map, 0);
    let write = update_map_from_main_world(&mut sel, 4).unwrap();
    assert_eq!(write, [4, 65341, 0, 0]);
    assert_eq!(sel.current_map, 4);
    assert_eq!(update_map_from_main_world(&mut sel, 4), None);
}
