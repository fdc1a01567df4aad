//! Derivation of the CRC generator polynomial bitmask from its tap positions.
//!
//! A tap is a bit index contributing a term to the generator polynomial; the
//! polynomial register value is the bitwise OR of `1 << tap` over all taps.

use vstd::prelude::*;

verus! {

/// The polynomial bitmask of a tap list: the OR of `1 << tap` over the list,
/// folded left to right.
pub open spec fn crc_mask_of(taps: Seq<u8>) -> u32
    decreases taps.len(),
{
    if taps.len() == 0 {
        0u32
    } else {
        crc_mask_of(taps.drop_last()) | (1u32 << taps.last())
    }
}

/// Whether every tap is a valid bit index of a 32-bit polynomial register.
pub open spec fn taps_valid(taps: Seq<u8>) -> bool {
    forall|i: int| 0 <= i < taps.len() ==> taps[i] < 32
}

/// Whether bit `i` of a mask is set.
pub open spec fn bit_set(mask: u32, i: u32) -> bool {
    ((mask >> i) & 1) == 1
}

/// The meaning of the bitmask: bit `i` is set exactly when `i` is one of
/// the taps, so the mask represents the tap set and nothing else.
pub proof fn lemma_crc_mask_bits(taps: Seq<u8>, i: u32)
    requires
        taps_valid(taps),
        i < 32,
    ensures
        bit_set(crc_mask_of(taps), i) <==> taps.contains(i as u8),
    decreases taps.len(),
{
    if taps.len() == 0 {
        assert(!bit_set(0u32, i)) by (bit_vector)
            requires
                i < 32,
        ;
    } else {
        let prefix = taps.drop_last();
        let t: u8 = taps.last();
        lemma_crc_mask_bits(prefix, i);
        let m: u32 = crc_mask_of(prefix);
        assert(bit_set(m | (1u32 << t), i) <==> (bit_set(m, i) || i == t)) by (bit_vector)
            requires
                i < 32,
                t < 32,
        ;
        if taps.contains(i as u8) {
            let j: int = choose|j: int| 0 <= j < taps.len() && taps[j] == i as u8;
            if j < taps.len() - 1 {
                assert(prefix[j] == i as u8);
                assert(prefix.contains(i as u8));
            }
        }
        if prefix.contains(i as u8) {
            let j: int = choose|j: int| 0 <= j < prefix.len() && prefix[j] == i as u8;
            assert(taps[j] == i as u8);
            assert(taps.contains(i as u8));
        }
        if i == t {
            assert(taps[taps.len() - 1] == i as u8);
            assert(taps.contains(i as u8));
        }
    }
}

/// Computes the polynomial bitmask for a tap list.
pub fn crc_poly_mask(taps: &Vec<u8>) -> (mask: u32)
    requires
        taps_valid(taps@),
    ensures
        mask == crc_mask_of(taps@),
{
    let mut mask: u32 = 0;
    let mut i: usize = 0;
    while i < taps.len()
        invariant
            i <= taps.len(),
            taps_valid(taps@),
            mask == crc_mask_of(taps@.take(i as int)),
        decreases taps.len() - i,
    {
        proof {
            assert(taps@.take(i + 1).drop_last() =~= taps@.take(i as int));
            assert(taps@.take(i + 1).last() == taps@[i as int]);
        }
        mask = mask | (1u32 << taps[i]);
        i = i + 1;
    }
    proof {
        assert(taps@.take(taps@.len() as int) =~= taps@);
    }
    mask
}

} // verus!
