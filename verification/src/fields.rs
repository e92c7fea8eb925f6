//! Packing of divider words into the chip's register bytes.
//!
//! A divider's 12-bit integer field spans a pair of registers: the first
//! holds bits 11..4, the upper nibble of the second bits 3..0. The feedback
//! fraction fills three whole registers; an output fraction starts in the two
//! low bits of one register and ends in the six high bits of the fourth.

use vstd::prelude::*;
use crate::divider::{fraction_field, integer_field};

verus! {

/// The integer field that a (high, low) register pair holds.
pub open spec fn integer_of(high: u8, low: u8) -> int {
    high as int * 16 + low as int / 16
}

/// The feedback fraction that three consecutive registers hold, most
/// significant first.
pub open spec fn feedback_fraction_of(b0: u8, b1: u8, b2: u8) -> int {
    b0 as int * 0x1_0000 + b1 as int * 0x100 + b2 as int
}

/// The output fraction that four consecutive registers hold: bits 1..0 of
/// the first, the second and third whole, bits 7..2 of the fourth.
pub open spec fn output_fraction_of(b0: u8, b1: u8, b2: u8, b3: u8) -> int {
    (b0 as int % 4) * 0x40_0000 + b1 as int * 0x4000 + b2 as int * 0x40 + b3 as int / 4
}

/// The five feedback registers 0x17..0x1B for a feedback word and a
/// sigma-delta modulator order. The order goes to bits 3..2 of the second
/// register; its bits 1..0 stay clear.
pub fn feedback_registers(word: u64, sdm_order: u8) -> (regs: (u8, u8, u8, u8, u8))
    requires
        sdm_order <= 3,
    ensures
        integer_of(regs.0, regs.1) == integer_field(word as int),
        regs.1 % 16 == sdm_order * 4,
        feedback_fraction_of(regs.2, regs.3, regs.4) == fraction_field(word as int),
{
    let integer_high: u8 = (#[verifier::truncate] ((word >> 36u64) as u8));
    let nibble: u8 = (#[verifier::truncate] ((word >> 28u64) as u8)) & 0xF0;
    assert(nibble % 16 == 0 && nibble <= 0xF0) by (bit_vector)
        requires nibble == ((word >> 28u64) as u8) & 0xF0u8;
    assert(sdm_order << 2u8 == sdm_order * 4) by (bit_vector)
        requires sdm_order <= 3;
    let integer_low: u8 = nibble + (sdm_order << 2u8);
    let f0: u8 = (#[verifier::truncate] ((word >> 24u64) as u8));
    let f1: u8 = (#[verifier::truncate] ((word >> 16u64) as u8));
    let f2: u8 = (#[verifier::truncate] ((word >> 8u64) as u8));
    proof {
        lemma_integer_bytes(word);
        lemma_feedback_fraction_bytes(word);
        assert(integer_low as int / 16 == nibble as int / 16);
    }
    (integer_high, integer_low, f0, f1, f2)
}

/// The four fraction registers of an output divider (at offsets 0..3 of the
/// output's block). Bits the field does not use stay clear.
pub fn output_fraction_registers(word: u64) -> (regs: (u8, u8, u8, u8))
    ensures
        output_fraction_of(regs.0, regs.1, regs.2, regs.3) == fraction_field(word as int),
        regs.0 < 4,
        regs.3 % 4 == 0,
{
    let b0: u8 = (#[verifier::truncate] ((word >> 30u64) as u8)) & 0b11;
    let b1: u8 = (#[verifier::truncate] ((word >> 22u64) as u8));
    let b2: u8 = (#[verifier::truncate] ((word >> 14u64) as u8));
    let b3: u8 = (#[verifier::truncate] ((word >> 6u64) as u8)) & 0b1111_1100;
    assert(b0 < 4) by (bit_vector)
        requires b0 == ((word >> 30u64) as u8) & 3u8;
    assert(b3 % 4 == 0) by (bit_vector)
        requires b3 == ((word >> 6u64) as u8) & 0xFCu8;
    proof {
        lemma_output_fraction_bytes(word);
    }
    (b0, b1, b2, b3)
}

/// The two integer registers of an output divider (at offsets 11 and 12 of
/// the output's block). The low nibble of the second stays clear.
pub fn output_integer_registers(word: u64) -> (regs: (u8, u8))
    ensures
        integer_of(regs.0, regs.1) == integer_field(word as int),
        regs.1 % 16 == 0,
{
    let high: u8 = (#[verifier::truncate] ((word >> 36u64) as u8));
    let low: u8 = (#[verifier::truncate] ((word >> 28u64) as u8)) & 0xF0;
    assert(low % 16 == 0) by (bit_vector)
        requires low == ((word >> 28u64) as u8) & 0xF0u8;
    proof {
        lemma_integer_bytes(word);
    }
    (high, low)
}

proof fn lemma_integer_bytes(w: u64)
    ensures
        integer_of((w >> 36u64) as u8, ((w >> 28u64) as u8) & 0xF0u8) == integer_field(w as int),
{
    assert(((w >> 36u64) as u8) as int * 16 + ((((w >> 28u64) as u8) & 0xF0u8) as int) / 16
        == (w / 0x1_0000_0000) % 4096) by (bit_vector);
}

proof fn lemma_feedback_fraction_bytes(w: u64)
    ensures
        feedback_fraction_of((w >> 24u64) as u8, (w >> 16u64) as u8, (w >> 8u64) as u8)
            == fraction_field(w as int),
{
    assert(((w >> 24u64) as u8) as int * 0x10000 + ((w >> 16u64) as u8) as int * 0x100
        + ((w >> 8u64) as u8) as int == (w / 256) % 0x100_0000) by (bit_vector);
}

proof fn lemma_output_fraction_bytes(w: u64)
    ensures
        output_fraction_of(
            ((w >> 30u64) as u8) & 3u8,
            (w >> 22u64) as u8,
            (w >> 14u64) as u8,
            ((w >> 6u64) as u8) & 0xFCu8,
        ) == fraction_field(w as int),
{
    assert(((((w >> 30u64) as u8) & 3u8) as int) * 0x40_0000 + ((w >> 22u64) as u8) as int
        * 0x4000 + ((w >> 14u64) as u8) as int * 0x40 + ((((w >> 6u64) as u8) & 0xFCu8) as int)
        / 4 == (w / 256) % 0x100_0000) by (bit_vector);
    assert((((w >> 30u64) as u8) & 3u8) as int % 4 == (((w >> 30u64) as u8) & 3u8) as int)
        by (bit_vector);
}

} // verus!
