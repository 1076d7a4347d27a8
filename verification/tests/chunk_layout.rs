use imgpipe::chunk::Chunk;

#[test]
fn size_masks_flag_bits() {
    let c = Chunk {
        prev_foot: 0,
        head: 0x28 | 0x3,
    };
    assert_eq!(c.size(), 0x28);
    let free = Chunk {
        prev_foot: 0,
        head: 0x40,
    };
    assert_eq!(free.size(), 0x40);
}

#[test]
fn min_overhead_depends_on_in_use_bits() {
    // the embedding target's word size is handed in by the caller
    let wasm_free = Chunk {
        prev_foot: 0,
        head: 0x28,
    };
    assert_eq!(wasm_free.get_min_overhead(4), 8);
    let in_use = Chunk {
        prev_foot: 0,
        head: 0x28 | 0x2,
    };
    assert_eq!(in_use.get_min_overhead(8), 8);
    let prev_in_use = Chunk {
        prev_foot: 0,
        head: 0x28 | 0x1,
    };
    assert_eq!(prev_in_use.get_min_overhead(8), 8);
    let free = Chunk {
        prev_foot: 0,
        head: 0x28 | 0x4,
    };
    assert_eq!(free.get_min_overhead(8), 16);
}
