use pll5p49v::divider::{feedback_divider, output_divider, sigma_delta_order};
use pll5p49v::fields::{feedback_registers, output_fraction_registers, output_integer_registers};
use pll5p49v::registers::{
    config_image, default_image, program_feedback, program_output, DEFAULT_REGISTERS,
    I2C_ADDRESS, PROG_ARRAY_SIZE, REGISTER_COUNT,
};

#[test]
fn image_example_board() {
    let image = config_image(10000000, 2700000000, 40000000, 25000000, 24000000, 28800000);
    let expected: [u8; 107] = [
        0x00, 0x61, 0x0F, 0x00, 0x00, 0x00, 0x00, 0x00, 0x00, 0x00, 0xFF, 0x01,
        0xC0, 0x00, 0xB6, 0xB4, 0x92, 0x40, 0x0D, 0x81, 0x82, 0x00, 0x03, 0x84,
        0x10, 0xE0, 0x00, 0x00, 0x00, 0x9F, 0xFD, 0xC8, 0x80, 0x00, 0x81, 0x03,
        0x00, 0x00, 0x00, 0x00, 0x00, 0x00, 0x00, 0x04, 0x00, 0x00, 0x02, 0x10,
        0x00, 0x00, 0x81, 0x00, 0x00, 0x00, 0x00, 0x00, 0x00, 0x00, 0x00, 0x04,
        0x00, 0x00, 0x03, 0x60, 0x00, 0x00, 0x81, 0x01, 0x00, 0x00, 0x00, 0x00,
        0x00, 0x00, 0x00, 0x04, 0x00, 0x00, 0x03, 0x80, 0x00, 0x00, 0x81, 0x03,
        0x80, 0x00, 0x00, 0x00, 0x00, 0x00, 0x00, 0x04, 0x00, 0x00, 0x02, 0xE0,
        0x00, 0x3B, 0x01, 0x3B, 0x01, 0x3B, 0x01, 0x3B, 0x01, 0xFF, 0xFC,
    ];
    assert_eq!(image, expected.to_vec());
}

#[test]
fn image_integer_feedback_other_outputs() {
    let image = config_image(25000000, 2800000000, 100000000, 33333333, 12345678, 156250000);
    let expected: [u8; 107] = [
        0x00, 0x61, 0x0F, 0x00, 0x00, 0x00, 0x00, 0x00, 0x00, 0x00, 0xFF, 0x01,
        0xC0, 0x00, 0xB6, 0xB4, 0x92, 0x40, 0x0D, 0x81, 0x82, 0x00, 0x03, 0x84,
        0x07, 0x00, 0x00, 0x00, 0x00, 0x9F, 0xFD, 0xC8, 0x80, 0x00, 0x81, 0x00,
        0x00, 0x00, 0x00, 0x00, 0x00, 0x00, 0x00, 0x04, 0x00, 0x00, 0x00, 0xE0,
        0x00, 0x00, 0x81, 0x00, 0x00, 0x00, 0x1C, 0x00, 0x00, 0x00, 0x00, 0x04,
        0x00, 0x00, 0x02, 0xA0, 0x00, 0x00, 0x81, 0x01, 0x99, 0x9C, 0x08, 0x00,
        0x00, 0x00, 0x00, 0x04, 0x00, 0x00, 0x07, 0x10, 0x00, 0x00, 0x81, 0x03,
        0xD7, 0x0A, 0x3C, 0x00, 0x00, 0x00, 0x00, 0x04, 0x00, 0x00, 0x00, 0x80,
        0x00, 0x3B, 0x01, 0x3B, 0x01, 0x3B, 0x01, 0x3B, 0x01, 0xFF, 0xFC,
    ];
    assert_eq!(image, expected.to_vec());
}

#[test]
fn image_fractional_feedback() {
    let image = config_image(10000000, 2700123456, 40000000, 25000000, 24000000, 28800000);
    let expected: [u8; 107] = [
        0x00, 0x61, 0x0F, 0x00, 0x00, 0x00, 0x00, 0x00, 0x00, 0x00, 0xFF, 0x01,
        0xC0, 0x00, 0xB6, 0xB4, 0x92, 0x40, 0x0D, 0x81, 0x82, 0x00, 0x03, 0x84,
        0x10, 0xEC, 0x03, 0x29, 0x14, 0x9F, 0xFD, 0xC8, 0x80, 0x00, 0x81, 0x03,
        0x01, 0x94, 0x88, 0x00, 0x00, 0x00, 0x00, 0x04, 0x00, 0x00, 0x02, 0x10,
        0x00, 0x00, 0x81, 0x00, 0x02, 0x87, 0x40, 0x00, 0x00, 0x00, 0x00, 0x04,
        0x00, 0x00, 0x03, 0x60, 0x00, 0x00, 0x81, 0x01, 0x02, 0xA2, 0x38, 0x00,
        0x00, 0x00, 0x00, 0x04, 0x00, 0x00, 0x03, 0x80, 0x00, 0x00, 0x81, 0x03,
        0x82, 0x31, 0xDC, 0x00, 0x00, 0x00, 0x00, 0x04, 0x00, 0x00, 0x02, 0xE0,
        0x00, 0x3B, 0x01, 0x3B, 0x01, 0x3B, 0x01, 0x3B, 0x01, 0xFF, 0xFC,
    ];
    assert_eq!(image, expected.to_vec());
}

#[test]
fn image_oversized_ratios_truncate() {
    let image = config_image(1, 1000000000, 1, 3, 7, 4294967295);
    let expected: [u8; 107] = [
        0x00, 0x61, 0x0F, 0x00, 0x00, 0x00, 0x00, 0x00, 0x00, 0x00, 0xFF, 0x01,
        0xC0, 0x00, 0xB6, 0xB4, 0x92, 0x40, 0x0D, 0x81, 0x82, 0x00, 0x03, 0x84,
        0xA0, 0x00, 0x00, 0x00, 0x00, 0x9F, 0xFD, 0xC8, 0x80, 0x00, 0x81, 0x00,
        0x00, 0x00, 0x00, 0x00, 0x00, 0x00, 0x00, 0x04, 0x00, 0x00, 0x50, 0x00,
        0x00, 0x00, 0x81, 0x02, 0xAA, 0xAA, 0xA8, 0x00, 0x00, 0x00, 0x00, 0x04,
        0x00, 0x00, 0x1A, 0xA0, 0x00, 0x00, 0x81, 0x01, 0xB6, 0xDB, 0x6C, 0x00,
        0x00, 0x00, 0x00, 0x04, 0x00, 0x00, 0x9D, 0xB0, 0x00, 0x00, 0x81, 0x00,
        0x77, 0x35, 0x94, 0x00, 0x00, 0x00, 0x00, 0x04, 0x00, 0x00, 0x00, 0x00,
        0x00, 0x3B, 0x01, 0x3B, 0x01, 0x3B, 0x01, 0x3B, 0x01, 0xFF, 0xFC,
    ];
    assert_eq!(image, expected.to_vec());
}

#[test]
fn image_length_and_address() {
    assert_eq!(PROG_ARRAY_SIZE, 107);
    assert_eq!(REGISTER_COUNT, 106);
    assert_eq!(I2C_ADDRESS, 0x6A);
    let image = config_image(10_000_000, 2_700_000_000, 40_000_000, 25_000_000, 24_000_000, 28_800_000);
    assert_eq!(image.len(), PROG_ARRAY_SIZE);
    assert_eq!(image[0], 0x00);
}

#[test]
fn default_image_is_start_then_defaults() {
    let image = default_image();
    assert_eq!(image.len(), 107);
    assert_eq!(image[0], 0);
    assert_eq!(&image[1..], &DEFAULT_REGISTERS[..]);
    assert_eq!(image[0x10 + 1], 0x40);
    assert_eq!(image[0x1C + 1], 0x9F);
}

#[test]
fn feedback_divider_exact_ratio() {
    // 2.7 GHz from 10 MHz: ratio 270, no fraction
    assert_eq!(feedback_divider(10_000_000, 2_700_000_000), 270u64 << 32);
    assert_eq!(feedback_divider(1, 0), 0);
}

#[test]
fn feedback_divider_rounds_down() {
    // 1 / 3 in units of 2^-32, rounded down
    assert_eq!(feedback_divider(3, 1), 0x5555_5555);
    // the largest ratio still fits a u64
    assert_eq!(feedback_divider(1, u32::MAX), (u32::MAX as u64) << 32);
}

#[test]
fn output_divider_is_half_ratio() {
    // 2.7 GHz to 40 MHz: ratio 67.5, so the word holds 33.75
    assert_eq!(output_divider(2_700_000_000, 40_000_000), 0x21_C000_0000);
    assert_eq!(output_divider(3, 2), 0xC000_0000);
}

#[test]
fn sdm_bypassed_only_for_integer_feedback() {
    assert_eq!(sigma_delta_order(270u64 << 32), 0);
    assert_eq!(sigma_delta_order(0), 0);
    assert_eq!(sigma_delta_order((270u64 << 32) + 1), 3);
    assert_eq!(sigma_delta_order(0x8000_0000), 3);
}

#[test]
fn feedback_register_fields() {
    assert_eq!(feedback_registers(270u64 << 32, 0), (0x10, 0xE0, 0, 0, 0));
    // integer 0xABC, fraction 0x123456, lowest byte dropped, order 3 in bits 3..2
    let word: u64 = (0xABCu64 << 32) | (0x123456u64 << 8) | 0xFF;
    assert_eq!(feedback_registers(word, 3), (0xAB, 0xCC, 0x12, 0x34, 0x56));
}

#[test]
fn output_register_fields() {
    // fraction 0xFFFFFF fills bits 1..0, two bytes and bits 7..2
    let word: u64 = (0x5A5u64 << 32) | (0xFF_FFFFu64 << 8) | 0xFF;
    assert_eq!(output_fraction_registers(word), (0x03, 0xFF, 0xFF, 0xFC));
    assert_eq!(output_integer_registers(word), (0x5A, 0x50));
    let word2: u64 = 0x21_C000_0000;
    assert_eq!(output_fraction_registers(word2), (0x03, 0x00, 0x00, 0x00));
    assert_eq!(output_integer_registers(word2), (0x02, 0x10));
}

#[test]
fn programming_one_output_leaves_the_rest() {
    let before = default_image();
    let mut image = default_image();
    program_output(&mut image, 2, 0xFFF_FFFF_FFFF);
    for addr in 0..REGISTER_COUNT {
        let block = 0x22 + 0x20;
        let touched = (block..block + 4).contains(&addr) || (block + 11..block + 13).contains(&addr);
        if !touched {
            assert_eq!(image[addr + 1], before[addr + 1], "register {:#x}", addr);
        }
    }
    assert_eq!(image[0x42 + 1], 0x03);
    assert_eq!(image[0x4D + 1], 0xFF);
    assert_eq!(image[0x4E + 1], 0xF0);
}

#[test]
fn programming_feedback_leaves_the_rest() {
    let before = default_image();
    let mut image = default_image();
    program_feedback(&mut image, (0x123u64 << 32) | 0x4567_8900);
    for addr in 0..REGISTER_COUNT {
        if !(0x17..0x1C).contains(&addr) {
            assert_eq!(image[addr + 1], before[addr + 1]);
        }
    }
    assert_eq!(&image[0x18..0x1D], &[0x12, 0x3C, 0x45, 0x67, 0x89]);
}

/// Reads the feedback fields back and checks them against vco / clock
/// rounded down to 24 fractional bits.
#[test]
fn feedback_fields_hold_the_ratio() {
    let (clock, vco): (u32, u32) = (10_000_000, 2_700_123_456);
    let image = config_image(clock, vco, 40_000_000, 25_000_000, 24_000_000, 28_800_000);
    let reg = |addr: usize| image[addr + 1] as u64;
    let integer = reg(0x17) * 16 + reg(0x18) / 16;
    let fraction = reg(0x19) * 0x1_0000 + reg(0x1A) * 0x100 + reg(0x1B);
    let programmed = integer * 0x100_0000 + fraction;
    assert_eq!(integer, vco as u64 / clock as u64);
    assert_eq!(programmed, ((vco as u128) << 24) as u64 / clock as u64);
    // sigma-delta order 3 for a fractional divider
    assert_eq!((reg(0x18) / 4) % 4, 3);
}

/// Reads output 2's fields back and checks them against vco / (2 * out)
/// rounded down to 24 fractional bits.
#[test]
fn output_fields_hold_the_ratio() {
    let (vco, out): (u32, u32) = (2_800_000_000, 33_333_333);
    let image = config_image(25_000_000, vco, 100_000_000, out, 12_345_678, 156_250_000);
    let reg = |addr: usize| image[addr + 1] as u64;
    let b = 0x32;
    let integer = reg(b + 11) * 16 + reg(b + 12) / 16;
    let fraction = (reg(b) % 4) * 0x40_0000 + reg(b + 1) * 0x4000 + reg(b + 2) * 0x40 + reg(b + 3) / 4;
    assert_eq!(integer, vco as u64 / (2 * out as u64));
    assert_eq!(integer * 0x100_0000 + fraction, ((vco as u64) << 23) / out as u64);
}
