//! Boundary-tag accounting for heap chunks, as the embedding target's
//! allocator lays them out: a chunk's head word carries its size with
//! the low bits borrowed for flags.

use vstd::prelude::*;

verus! {

/// The previous chunk is in use.
pub const PINUSE: usize = 1;

/// This chunk is in use.
pub const CINUSE: usize = 2;

/// The allocator's spare flag bit.
pub const FLAG4: usize = 4;

/// Either in-use bit: `PINUSE` or `CINUSE`.
pub const INUSE: usize = 3;

/// All bits of the head word that do not belong to the size:
/// `PINUSE`, `CINUSE` and `FLAG4`.
pub const FLAG_BITS: usize = 7;

/// The boundary-tag header of a heap chunk.
pub struct Chunk {
    pub prev_foot: usize,
    pub head: usize,
}

impl Chunk {
    /// The chunk's size: the head word with the flag bits masked off.
    pub fn size(&self) -> (r: usize)
        ensures
            r == self.head & !FLAG_BITS,
            r % 8 == 0,
            r <= self.head,
    {
        proof {
            let h = self.head;
            assert((h & !7usize) % 8 == 0 && (h & !7usize) <= h) by (bit_vector);
            assert(FLAG_BITS == 7usize);
        }
        self.head & !FLAG_BITS
    }

    /// The least overhead the allocator keeps inside this chunk: two
    /// words when the chunk is free on both in-use accounts, one word
    /// otherwise. The caller supplies the target's word size.
    pub fn get_min_overhead(&self, word_size: usize) -> (r: usize)
        requires
            word_size <= usize::MAX / 2,
        ensures
            r == if self.head & INUSE == 0 {
                2 * (word_size as int)
            } else {
                word_size as int
            },
    {
        if self.head & INUSE == 0 {
            2 * word_size
        } else {
            word_size
        }
    }
}

} // verus!
