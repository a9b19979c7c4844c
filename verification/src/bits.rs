//! Bit-level helpers shared by the register decoders.
//!
//! Command words are 16 bits wide; every configuration field is a small
//! contiguous bit range of such a word.  The spec functions here give those
//! extractions a name, and the executable mirrors are proved against them.

use vstd::prelude::*;

verus! {

/// Bit `i` of `v`, as a flag.
pub open spec fn bit(v: u16, i: u16) -> bool {
    (v >> i) & 1 == 1
}

/// The field of `v` that starts at bit `lo` and is covered by `mask`
/// (so `mask` is `2^width - 1` for a field of that width).
pub open spec fn field(v: u16, lo: u16, mask: u16) -> u16 {
    (v >> lo) & mask
}

/// `v` rotated left by `k` bits within 16 bits.
pub open spec fn rotl16(v: u16, k: u16) -> u16
    recommends
        k < 16,
{
    if k == 0 {
        v
    } else {
        (v << k) | (v >> (16 - k) as u16)
    }
}

/// The logical combine a video-RAM write applies between the word already
/// stored and the incoming word, selected by the Entry Mode LG field:
/// replace, OR, AND, or XOR.
pub open spec fn combine(lg: u16, stored: u16, incoming: u16) -> u16 {
    if lg == 0 {
        incoming
    } else if lg == 1 {
        stored | incoming
    } else if lg == 2 {
        stored & incoming
    } else {
        stored ^ incoming
    }
}

/// The write-data mask: bits set in `wm` retain the stored value, bits clear
/// in `wm` take the combined value.
pub open spec fn apply_mask(wm: u16, stored: u16, combined: u16) -> u16 {
    (stored & wm) | (combined & !wm)
}

/// Bit `i` of `v`, executably.
pub fn get_bit(v: u16, i: u16) -> (r: bool)
    requires
        i < 16,
    ensures
        r == bit(v, i),
{
    (v >> i) & 1 == 1
}

/// The field of `v` at bit `lo` covered by `mask`, executably.
pub fn get_field(v: u16, lo: u16, mask: u16) -> (r: u16)
    requires
        lo < 16,
    ensures
        r == field(v, lo, mask),
        r <= mask,
{
    let r = (v >> lo) & mask;
    proof {
        assert((v >> lo) & mask <= mask) by (bit_vector);
    }
    r
}

/// `v` rotated left by `k` bits, executably.
pub fn rotate_left16(v: u16, k: u16) -> (r: u16)
    requires
        k < 16,
    ensures
        r == rotl16(v, k),
{
    if k == 0 {
        v
    } else {
        (v << k) | (v >> (16 - k))
    }
}

/// A write mask of all zeros keeps nothing of the stored word: the combined
/// word is stored unchanged.
pub proof fn lemma_mask_none(stored: u16, combined: u16)
    ensures
        apply_mask(0, stored, combined) == combined,
{
    assert((stored & 0) | (combined & !0u16) == combined) by (bit_vector);
}

/// A write mask of all ones keeps every bit of the stored word: the write
/// has no effect on video RAM, whatever was combined.
pub proof fn lemma_mask_all(stored: u16, combined: u16)
    ensures
        apply_mask(0xffff, stored, combined) == stored,
{
    assert((stored & 0xffff) | (combined & !0xffffu16) == stored) by (bit_vector);
}

} // verus!
