//! The register image that programs the chip in one I2C write.
//!
//! The image is the start register address (0x00) followed by the values of
//! registers 0x00..0x69. Every register holds its default from
//! [`DEFAULT_REGISTERS`] except the divider registers, which hold the
//! feedback divider (0x17..0x1B) and the four output dividers.

use vstd::prelude::*;
use crate::divider::{
    lemma_feedback_fraction_zero_iff, lemma_sdm_order,
    feedback_divider, feedback_word, fraction_field, integer_field, lemma_feedback_programmed_value,
    lemma_output_programmed_value, output_divider, output_word, sdm_order_for,
    sigma_delta_order,
};
use crate::fields::{
    feedback_fraction_of, feedback_registers, integer_of, output_fraction_of,
    output_fraction_registers, output_integer_registers,
};

verus! {

/// The chip's 7-bit I2C address.
pub const I2C_ADDRESS: u8 = 0x6A;

/// The register at which the image starts.
pub const START_REGISTER: u8 = 0x00;

/// How many registers the image programs: 0x00..0x69.
pub const REGISTER_COUNT: usize = 106;

/// Length of the image in bytes: the start address and the registers.
pub const PROG_ARRAY_SIZE: usize = 107;

/// First register of the feedback divider.
pub const FEEDBACK_BASE: usize = 0x17;

/// First register of output 1's block; each next output's block starts
/// 0x10 registers further.
pub const OUTPUT_BASE: usize = 0x22;

/// Offset, in an output's block, of the first integer register.
pub const OUTPUT_INTEGER_OFFSET: usize = 11;

/// Register values that do not depend on the frequencies, 0x00..0x69.
/// The divider registers read 0 here; the image overwrites them.
///
/// 0x10 enables only the CLKIN input (global shutdown, SP and the crystal
/// off), 0x11 keeps VCO band 0x0D with the test-mode band bit clear, 0x13
/// selects CLKIN as primary source, 0x1C sets the calibration start bit
/// (0x80) over the factory bits 0x1F, 0x1D leaves VCO monitoring off, and
/// 0x60..0x69 configure the four clock outputs and enable them all at 3.3 V
/// with the fastest slew rate.
pub const DEFAULT_REGISTERS: [u8; 106] = [
    // 0x00 - 0x0F
    0x61, 0x0F, 0x00, 0x00, 0x00, 0x00, 0x00, 0x00,
    0x00, 0xFF, 0x01, 0xC0, 0x00, 0xB6, 0xB4, 0x92,
    // 0x10 - 0x16
    0x40, 0x0D, 0x81, 0x82, 0x00, 0x03, 0x84,
    // 0x17 - 0x1B: feedback divider
    0x00, 0x00, 0x00, 0x00, 0x00,
    // 0x1C - 0x21
    0x9F, 0xFD, 0xC8, 0x80, 0x00, 0x81,
    // 0x22 - 0x31: output 1
    0x00, 0x00, 0x00, 0x00, 0x00, 0x00, 0x00, 0x00,
    0x04, 0x00, 0x00, 0x00, 0x00, 0x00, 0x00, 0x81,
    // 0x32 - 0x41: output 2
    0x00, 0x00, 0x00, 0x00, 0x00, 0x00, 0x00, 0x00,
    0x04, 0x00, 0x00, 0x00, 0x00, 0x00, 0x00, 0x81,
    // 0x42 - 0x51: output 3
    0x00, 0x00, 0x00, 0x00, 0x00, 0x00, 0x00, 0x00,
    0x04, 0x00, 0x00, 0x00, 0x00, 0x00, 0x00, 0x81,
    // 0x52 - 0x5F: output 4
    0x00, 0x00, 0x00, 0x00, 0x00, 0x00, 0x00, 0x00,
    0x04, 0x00, 0x00, 0x00, 0x00, 0x00,
    // 0x60 - 0x67: clock outputs 1 to 4
    0x3B, 0x01, 0x3B, 0x01, 0x3B, 0x01, 0x3B, 0x01,
    // 0x68 - 0x69: output enables, supply and slew
    0xFF, 0xFC,
];

/// The value that an image gives register `addr`.
pub open spec fn register(image: Seq<u8>, addr: int) -> u8 {
    image[addr + 1]
}

/// First register of output `k`'s block (outputs counted from 0).
pub open spec fn output_base(k: int) -> int {
    OUTPUT_BASE as int + 0x10 * k
}

/// Whether `addr` is one of the five feedback divider registers.
pub open spec fn is_feedback_register(addr: int) -> bool {
    FEEDBACK_BASE as int <= addr < FEEDBACK_BASE as int + 5
}

/// Whether `addr` is one of the six divider registers of output `k`: the
/// four fraction registers and the two integer registers of its block.
pub open spec fn is_output_register(k: int, addr: int) -> bool {
    let b = output_base(k);
    ||| b <= addr < b + 4
    ||| b + OUTPUT_INTEGER_OFFSET as int <= addr < b + OUTPUT_INTEGER_OFFSET as int + 2
}

/// Whether `addr` holds part of a divider.
pub open spec fn is_divider_register(addr: int) -> bool {
    ||| is_feedback_register(addr)
    ||| is_output_register(0, addr)
    ||| is_output_register(1, addr)
    ||| is_output_register(2, addr)
    ||| is_output_register(3, addr)
}

/// The image holds a feedback divider word: its integer and fraction fields,
/// and in bits 3..2 of register 0x18 the sigma-delta order it calls for.
pub open spec fn feedback_programmed(image: Seq<u8>, word: int) -> bool {
    let b = FEEDBACK_BASE as int;
    &&& integer_of(register(image, b), register(image, b + 1)) == integer_field(word)
    &&& register(image, b + 1) % 16 == sdm_order_for(word) * 4
    &&& feedback_fraction_of(register(image, b + 2), register(image, b + 3), register(image, b + 4))
        == fraction_field(word)
}

/// The image holds output divider word `word` in output `k`'s block, with
/// the bits that the fields do not use clear.
pub open spec fn output_programmed(image: Seq<u8>, k: int, word: int) -> bool {
    let b = output_base(k);
    let i = b + OUTPUT_INTEGER_OFFSET as int;
    &&& output_fraction_of(
        register(image, b),
        register(image, b + 1),
        register(image, b + 2),
        register(image, b + 3),
    ) == fraction_field(word)
    &&& register(image, b) < 4
    &&& register(image, b + 3) % 4 == 0
    &&& integer_of(register(image, i), register(image, i + 1)) == integer_field(word)
    &&& register(image, i + 1) % 16 == 0
}

/// The image with every register at its default.
pub fn default_image() -> (image: Vec<u8>)
    ensures
        image@.len() == PROG_ARRAY_SIZE,
        image@[0] == START_REGISTER,
        forall|addr: int|
            0 <= addr < REGISTER_COUNT ==> #[trigger] register(image@, addr)
                == DEFAULT_REGISTERS@[addr],
{
    let mut image: Vec<u8> = Vec::new();
    image.push(START_REGISTER);
    let mut i: usize = 0;
    while i < REGISTER_COUNT
        invariant
            i <= REGISTER_COUNT,
            image@.len() == i + 1,
            image@[0] == START_REGISTER,
            forall|j: int| 0 <= j < i ==> #[trigger] image@[j + 1] == DEFAULT_REGISTERS@[j],
        decreases REGISTER_COUNT - i,
    {
        image.push(DEFAULT_REGISTERS[i]);
        i = i + 1;
    }
    image
}

/// Writes a feedback divider word into an image: its fields and the
/// sigma-delta order it calls for. Only the feedback registers change.
pub fn program_feedback(image: &mut Vec<u8>, word: u64)
    requires
        old(image)@.len() == PROG_ARRAY_SIZE,
    ensures
        final(image)@.len() == PROG_ARRAY_SIZE,
        final(image)@[0] == old(image)@[0],
        forall|addr: int|
            0 <= addr < REGISTER_COUNT && !is_feedback_register(addr) ==> #[trigger] register(
                final(image)@,
                addr,
            ) == register(old(image)@, addr),
        feedback_programmed(final(image)@, word as int),
{
    let order: u8 = sigma_delta_order(word);
    let regs: (u8, u8, u8, u8, u8) = feedback_registers(word, order);
    let b: usize = FEEDBACK_BASE + 1;
    image.set(b, regs.0);
    image.set(b + 1, regs.1);
    image.set(b + 2, regs.2);
    image.set(b + 3, regs.3);
    image.set(b + 4, regs.4);
}

/// Writes output divider word `word` into output `k`'s block (outputs
/// counted from 0). Only that output's divider registers change.
pub fn program_output(image: &mut Vec<u8>, k: usize, word: u64)
    requires
        old(image)@.len() == PROG_ARRAY_SIZE,
        k < 4,
    ensures
        final(image)@.len() == PROG_ARRAY_SIZE,
        final(image)@[0] == old(image)@[0],
        forall|addr: int|
            0 <= addr < REGISTER_COUNT && !is_output_register(k as int, addr)
                ==> #[trigger] register(final(image)@, addr) == register(old(image)@, addr),
        output_programmed(final(image)@, k as int, word as int),
{
    let fraction: (u8, u8, u8, u8) = output_fraction_registers(word);
    let integer: (u8, u8) = output_integer_registers(word);
    let b: usize = OUTPUT_BASE + 0x10 * k + 1;
    let i: usize = b + OUTPUT_INTEGER_OFFSET;
    image.set(b, fraction.0);
    image.set(b + 1, fraction.1);
    image.set(b + 2, fraction.2);
    image.set(b + 3, fraction.3);
    image.set(i, integer.0);
    image.set(i + 1, integer.1);
}

/// The image that programs the chip for a reference clock, a VCO frequency
/// and four output frequencies, all in Hz.
pub fn config_image(
    clock_fq_hz: u32,
    vco_fq_hz: u32,
    output1_fq_hz: u32,
    output2_fq_hz: u32,
    output3_fq_hz: u32,
    output4_fq_hz: u32,
) -> (image: Vec<u8>)
    requires
        clock_fq_hz > 0,
        output1_fq_hz > 0,
        output2_fq_hz > 0,
        output3_fq_hz > 0,
        output4_fq_hz > 0,
    ensures
        image@.len() == PROG_ARRAY_SIZE,
        image@[0] == START_REGISTER,
        forall|addr: int|
            0 <= addr < REGISTER_COUNT && !is_divider_register(addr) ==> #[trigger] register(
                image@,
                addr,
            ) == DEFAULT_REGISTERS@[addr],
        feedback_programmed(image@, feedback_word(clock_fq_hz, vco_fq_hz)),
        output_programmed(image@, 0, output_word(vco_fq_hz, output1_fq_hz)),
        output_programmed(image@, 1, output_word(vco_fq_hz, output2_fq_hz)),
        output_programmed(image@, 2, output_word(vco_fq_hz, output3_fq_hz)),
        output_programmed(image@, 3, output_word(vco_fq_hz, output4_fq_hz)),
{
    let feedback: u64 = feedback_divider(clock_fq_hz, vco_fq_hz);
    let od1: u64 = output_divider(vco_fq_hz, output1_fq_hz);
    let od2: u64 = output_divider(vco_fq_hz, output2_fq_hz);
    let od3: u64 = output_divider(vco_fq_hz, output3_fq_hz);
    let od4: u64 = output_divider(vco_fq_hz, output4_fq_hz);
    let mut image: Vec<u8> = default_image();
    program_feedback(&mut image, feedback);
    program_output(&mut image, 0, od1);
    program_output(&mut image, 1, od2);
    program_output(&mut image, 2, od3);
    program_output(&mut image, 3, od4);
    image
}

/// An image that holds the feedback word for `clock` and `vco` programs the
/// PLL with `vco / clock` rounded down to 24 fractional bits, whenever the
/// ratio fits the 12-bit integer field; its integer registers then hold
/// the integer part of the ratio.
pub proof fn lemma_image_feedback_ratio(image: Seq<u8>, clock_fq_hz: u32, vco_fq_hz: u32)
    requires
        feedback_programmed(image, feedback_word(clock_fq_hz, vco_fq_hz)),
        clock_fq_hz > 0,
        (vco_fq_hz as int) < 4096 * clock_fq_hz,
    ensures
        ({
            let b = FEEDBACK_BASE as int;
            integer_of(register(image, b), register(image, b + 1)) * 0x100_0000
                + feedback_fraction_of(
                register(image, b + 2),
                register(image, b + 3),
                register(image, b + 4),
            ) == (vco_fq_hz as int * 0x100_0000) / (clock_fq_hz as int)
        }),
        integer_of(register(image, FEEDBACK_BASE as int), register(image, FEEDBACK_BASE as int + 1))
            == vco_fq_hz as int / clock_fq_hz as int,
{
    lemma_feedback_programmed_value(clock_fq_hz, vco_fq_hz);
}

/// An image that holds output `k`'s divider word for `vco` and `output`
/// programs that output's divider with `vco / (2 * output)` rounded down to
/// 24 fractional bits, whenever it fits the 12-bit integer field.
pub proof fn lemma_image_output_ratio(image: Seq<u8>, k: int, vco_fq_hz: u32, output_fq_hz: u32)
    requires
        output_programmed(image, k, output_word(vco_fq_hz, output_fq_hz)),
        output_fq_hz > 0,
        (vco_fq_hz as int) < 8192 * output_fq_hz,
    ensures
        ({
            let b = output_base(k);
            let i = b + OUTPUT_INTEGER_OFFSET as int;
            integer_of(register(image, i), register(image, i + 1)) * 0x100_0000
                + output_fraction_of(
                register(image, b),
                register(image, b + 1),
                register(image, b + 2),
                register(image, b + 3),
            ) == (vco_fq_hz as int * 0x80_0000) / (output_fq_hz as int)
        }),
{
    lemma_output_programmed_value(vco_fq_hz, output_fq_hz);
}

/// In an image holding feedback word `word`, bits 3..2 of register 0x18
/// are 0b11 (modulator of order 3) for every word with a nonzero fraction,
/// and 0b00 (modulator bypassed) for every word without one; bits 1..0 are
/// clear either way.
pub proof fn lemma_image_sdm_order(image: Seq<u8>, word: int)
    requires
        feedback_programmed(image, word),
    ensures
        word % 0x1_0000_0000 != 0 ==> register(image, FEEDBACK_BASE as int + 1) % 16 == 12,
        word % 0x1_0000_0000 == 0 ==> register(image, FEEDBACK_BASE as int + 1) % 16 == 0,
{
    lemma_sdm_order(word);
}

/// In an image holding the feedback word for `clock` and `vco`, the
/// modulator is bypassed (bits 3..2 of register 0x18 clear) exactly when
/// `vco` is a whole multiple of `clock`; every fractional ratio gets the
/// order-3 modulator (bits 3..2 set).
pub proof fn lemma_image_sdm_for_ratio(image: Seq<u8>, clock_fq_hz: u32, vco_fq_hz: u32)
    requires
        feedback_programmed(image, feedback_word(clock_fq_hz, vco_fq_hz)),
        clock_fq_hz > 0,
    ensures
        vco_fq_hz as int % clock_fq_hz as int != 0 ==> register(image, FEEDBACK_BASE as int + 1)
            % 16 == 12,
        vco_fq_hz as int % clock_fq_hz as int == 0 ==> register(image, FEEDBACK_BASE as int + 1)
            % 16 == 0,
{
    lemma_feedback_fraction_zero_iff(clock_fq_hz, vco_fq_hz);
    lemma_image_sdm_order(image, feedback_word(clock_fq_hz, vco_fq_hz));
}

} // verus!
