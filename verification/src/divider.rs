//! Fixed-point divider words of the PLL.
//!
//! The chip takes its feedback divider (VCO frequency over reference
//! frequency) and its output dividers as fixed-point numbers. This module
//! computes them as 64-bit words with 32 fractional bits, truncated toward
//! zero, and states which bits of a word the chip's fields hold.

use vstd::prelude::*;

verus! {

/// 2 to the 32: one unit of a divider word.
pub open spec fn word_one() -> int {
    0x1_0000_0000
}

/// The feedback divider word: `vco / clock`, scaled by 2^32 and rounded down.
pub open spec fn feedback_word(clock_fq_hz: u32, vco_fq_hz: u32) -> int {
    (vco_fq_hz as int * word_one()) / (clock_fq_hz as int)
}

/// The output divider word of one output: `vco / output`, scaled by 2^31 and
/// rounded down. Read with 32 fractional bits it is half the ratio, which is
/// how the chip's output divider counts.
pub open spec fn output_word(vco_fq_hz: u32, output_fq_hz: u32) -> int {
    (vco_fq_hz as int * 0x8000_0000) / (output_fq_hz as int)
}

/// The 12-bit integer field of a divider word.
pub open spec fn integer_field(word: int) -> int {
    (word / word_one()) % 4096
}

/// The 24-bit fraction field of a divider word: bits 8 to 31.
pub open spec fn fraction_field(word: int) -> int {
    (word / 256) % 0x100_0000
}

/// Whether a divider word has no fractional part.
pub open spec fn is_integer_word(word: int) -> bool {
    word % word_one() == 0
}

/// The order of the sigma-delta modulator that a feedback word calls for:
/// bypassed (0) for an integer divider, third order otherwise.
pub open spec fn sdm_order_for(word: int) -> int {
    if is_integer_word(word) { 0 } else { 3 }
}

/// Computes the feedback divider word for a reference clock and a VCO
/// frequency, both in Hz.
pub fn feedback_divider(clock_fq_hz: u32, vco_fq_hz: u32) -> (word: u64)
    requires
        clock_fq_hz > 0,
    ensures
        word == feedback_word(clock_fq_hz, vco_fq_hz),
        word as int * clock_fq_hz <= vco_fq_hz as int * word_one(),
        vco_fq_hz as int * word_one() < (word as int + 1) * clock_fq_hz,
{
    let v: u64 = vco_fq_hz as u64;
    let c: u64 = clock_fq_hz as u64;
    assert(v << 32u64 == v * 0x1_0000_0000) by (bit_vector)
        requires v <= 0xffff_ffff;
    let word: u64 = (v << 32u64) / c;
    proof {
        lemma_floor_div_bounds(v * 0x1_0000_0000, c as int);
    }
    word
}

/// Computes the output divider word for a VCO frequency and the frequency
/// wanted at one output, both in Hz.
pub fn output_divider(vco_fq_hz: u32, output_fq_hz: u32) -> (word: u64)
    requires
        output_fq_hz > 0,
    ensures
        word == output_word(vco_fq_hz, output_fq_hz),
        word as int * output_fq_hz <= vco_fq_hz as int * 0x8000_0000,
        vco_fq_hz as int * 0x8000_0000 < (word as int + 1) * output_fq_hz,
{
    let v: u64 = vco_fq_hz as u64;
    let o: u64 = output_fq_hz as u64;
    assert(v << 31u64 == v * 0x8000_0000) by (bit_vector)
        requires v <= 0xffff_ffff;
    let word: u64 = (v << 31u64) / o;
    proof {
        lemma_floor_div_bounds(v * 0x8000_0000, o as int);
    }
    word
}

/// Chooses the sigma-delta modulator order for a feedback word: 0 (bypass)
/// when the divider is an integer, 3 otherwise.
pub fn sigma_delta_order(feedback: u64) -> (order: u8)
    ensures
        order == sdm_order_for(feedback as int),
        order == 0 <==> is_integer_word(feedback as int),
        feedback % 0x1_0000_0000 == 0 ==> order == 0,
        feedback % 0x1_0000_0000 != 0 ==> order == 3,
{
    assert((feedback & 0xFFFF_FFFF) == feedback % 0x1_0000_0000) by (bit_vector);
    if (feedback & 0xFFFF_FFFF) == 0 {
        0
    } else {
        3
    }
}

/// The modulator order for a feedback word is 0 exactly when the word's 32
/// fraction bits are all zero, and 3 for every other word, whatever its
/// fraction.
pub proof fn lemma_sdm_order(word: int)
    ensures
        word % 0x1_0000_0000 == 0 ==> sdm_order_for(word) == 0,
        word % 0x1_0000_0000 != 0 ==> sdm_order_for(word) == 3,
        sdm_order_for(word) == 0 || sdm_order_for(word) == 3,
{
}

/// The feedback word has no fraction exactly when the VCO frequency is a
/// whole multiple of the reference clock: every fractional ratio leaves a
/// nonzero fraction in the word.
pub proof fn lemma_feedback_fraction_zero_iff(clock_fq_hz: u32, vco_fq_hz: u32)
    requires
        clock_fq_hz > 0,
    ensures
        (feedback_word(clock_fq_hz, vco_fq_hz) % 0x1_0000_0000 == 0) <==> (vco_fq_hz as int
            % clock_fq_hz as int == 0),
{
    let v: int = vco_fq_hz as int;
    let c: int = clock_fq_hz as int;
    let k: int = word_one();
    let q: int = v / c;
    let r: int = v % c;
    vstd::arithmetic::div_mod::lemma_fundamental_div_mod(v, c);
    assert(0 <= r < c);
    assert(q >= 0) by {
        vstd::arithmetic::div_mod::lemma_div_pos_is_pos(v, c);
    }
    assert(v * k == k * r + (k * q) * c) by (nonlinear_arith)
        requires
            v == c * q + r,
    ;
    vstd::arithmetic::div_mod::lemma_hoist_over_denominator(k * r, k * q, c as nat);
    let f: int = (k * r) / c;
    assert(feedback_word(clock_fq_hz, vco_fq_hz) == f + k * q);
    assert(k * r >= 0) by (nonlinear_arith)
        requires
            r >= 0,
            k > 0,
    ;
    vstd::arithmetic::div_mod::lemma_div_pos_is_pos(k * r, c);
    assert(f < k) by {
        assert(k * r < k * c) by (nonlinear_arith)
            requires
                r < c,
                k > 0,
        ;
        vstd::arithmetic::div_mod::lemma_div_by_multiple_is_strongly_ordered(k * r, k * c, k, c);
        vstd::arithmetic::div_mod::lemma_div_by_multiple(k, c);
    }
    vstd::arithmetic::div_mod::lemma_mod_multiples_vanish(q, f, k);
    assert(k * q + f == f + k * q);
    vstd::arithmetic::div_mod::lemma_small_mod(f as nat, k as nat);
    assert(feedback_word(clock_fq_hz, vco_fq_hz) % k == f);
    if r == 0 {
        assert(k * r == 0);
    } else {
        assert(k * r >= k) by (nonlinear_arith)
            requires
                r >= 1,
                k > 0,
        ;
        assert(c < k);
        vstd::arithmetic::div_mod::lemma_fundamental_div_mod(k * r, c);
        vstd::arithmetic::div_mod::lemma_mod_bound(k * r, c);
        if f == 0 {
            assert(k * r == c * f + (k * r) % c);
            assert(c * f == 0) by (nonlinear_arith)
                requires
                    f == 0,
            ;
        }
    }
}

/// The value a divider's two fields program together: the integer field
/// above the 24 fraction bits, i.e. the divider in units of 2^-24.
pub open spec fn programmed_value(word: int) -> int {
    integer_field(word) * 0x100_0000 + fraction_field(word)
}

/// The integer and fraction fields of a word together hold bits 8..43 of
/// the word.
pub proof fn lemma_programmed_value(word: int)
    requires
        word >= 0,
    ensures
        programmed_value(word) == (word / 256) % 0x10_0000_0000,
{
    let q: int = word / 256;
    vstd::arithmetic::div_mod::lemma_div_denominator(word, 256, 0x100_0000);
    assert(word / word_one() == q / 0x100_0000);
    vstd::arithmetic::div_mod::lemma_mod_breakdown(q, 0x100_0000, 4096);
}

/// The feedback fields hold `vco / clock` rounded down to 24 fractional
/// bits, as long as the ratio fits the 12-bit integer field.
pub proof fn lemma_feedback_programmed_value(clock_fq_hz: u32, vco_fq_hz: u32)
    requires
        clock_fq_hz > 0,
        (vco_fq_hz as int) < 4096 * clock_fq_hz,
    ensures
        programmed_value(feedback_word(clock_fq_hz, vco_fq_hz))
            == (vco_fq_hz as int * 0x100_0000) / (clock_fq_hz as int),
        integer_field(feedback_word(clock_fq_hz, vco_fq_hz)) == vco_fq_hz as int / clock_fq_hz as int,
{
    let v: int = vco_fq_hz as int;
    let c: int = clock_fq_hz as int;
    let w: int = feedback_word(clock_fq_hz, vco_fq_hz);
    lemma_scaled_quotient(v, c, 0x100_0000, 256);
    assert(v * 0x100_0000 * 256 == v * word_one());
    lemma_programmed_value(w);
    lemma_scaled_quotient_bound(v, c, 0x100_0000, 4096);
    vstd::arithmetic::div_mod::lemma_small_mod(
        ((v * 0x100_0000) / c) as nat,
        0x10_0000_0000nat,
    );
    lemma_scaled_quotient(v, c, 1, word_one());
    vstd::arithmetic::div_mod::lemma_div_pos_is_pos(v, c);
    assert(v / c < 4096) by {
        vstd::arithmetic::div_mod::lemma_div_by_multiple_is_strongly_ordered(v, 4096 * c, 4096, c);
        vstd::arithmetic::div_mod::lemma_div_by_multiple(4096, c);
    }
    vstd::arithmetic::div_mod::lemma_small_mod((v / c) as nat, 4096nat);
}

/// The fields of an output divider hold `vco / (2 * output)` rounded down
/// to 24 fractional bits, as long as that ratio fits the 12-bit integer
/// field.
pub proof fn lemma_output_programmed_value(vco_fq_hz: u32, output_fq_hz: u32)
    requires
        output_fq_hz > 0,
        (vco_fq_hz as int) < 8192 * output_fq_hz,
    ensures
        programmed_value(output_word(vco_fq_hz, output_fq_hz))
            == (vco_fq_hz as int * 0x80_0000) / (output_fq_hz as int),
        integer_field(output_word(vco_fq_hz, output_fq_hz)) == vco_fq_hz as int / (2 * output_fq_hz as int),
{
    let v: int = vco_fq_hz as int;
    let o: int = output_fq_hz as int;
    let w: int = output_word(vco_fq_hz, output_fq_hz);
    lemma_scaled_quotient(v, o, 0x80_0000, 256);
    assert(v * 0x80_0000 * 256 == v * 0x8000_0000);
    lemma_programmed_value(w);
    lemma_scaled_quotient_bound(v, o, 0x80_0000, 8192);
    assert(8192 * 0x80_0000 == 0x10_0000_0000);
    vstd::arithmetic::div_mod::lemma_small_mod(
        ((v * 0x80_0000) / o) as nat,
        0x10_0000_0000nat,
    );
    // the integer field: (v * 2^31 / o) / 2^32 == v / (2 * o)
    vstd::arithmetic::div_mod::lemma_div_denominator(v * 0x8000_0000, o, word_one());
    assert(o * word_one() == 0x8000_0000 * (2 * o));
    assert(v * 0x8000_0000 == 0x8000_0000 * v);
    vstd::arithmetic::div_mod::lemma_div_multiples_vanish_quotient(0x8000_0000, v, 2 * o);
    vstd::arithmetic::div_mod::lemma_div_pos_is_pos(v, 2 * o);
    assert(v / (2 * o) < 4096) by {
        vstd::arithmetic::div_mod::lemma_div_by_multiple_is_strongly_ordered(
            v,
            4096 * (2 * o),
            4096,
            2 * o,
        );
        vstd::arithmetic::div_mod::lemma_div_by_multiple(4096, 2 * o);
    }
    vstd::arithmetic::div_mod::lemma_small_mod((v / (2 * o)) as nat, 4096nat);
}

/// Scaling the dividend of a floor division by `k` and then dividing the
/// quotient by `k` gives back the unscaled quotient.
proof fn lemma_scaled_quotient(v: int, d: int, s: int, k: int)
    requires
        v >= 0,
        d > 0,
        s > 0,
        k > 0,
    ensures
        (v * s * k) / d / k == (v * s) / d,
{
    vstd::arithmetic::div_mod::lemma_div_denominator(v * s * k, d, k);
    assert(v * s * k == k * (v * s)) by (nonlinear_arith);
    assert(d * k == k * d) by (nonlinear_arith);
    assert(v * s >= 0) by (nonlinear_arith)
        requires
            v >= 0,
            s > 0,
    ;
    vstd::arithmetic::div_mod::lemma_div_multiples_vanish_quotient(k, v * s, d);
}

/// A quotient `v * s / d` stays below `bound * s` when `v < bound * d`.
proof fn lemma_scaled_quotient_bound(v: int, d: int, s: int, bound: int)
    requires
        0 <= v < bound * d,
        bound > 0,
        d > 0,
        s > 0,
    ensures
        0 <= (v * s) / d < bound * s,
{
    assert(v * s < bound * s * d) by (nonlinear_arith)
        requires
            v < bound * d,
            s > 0,
    ;
    assert(v * s >= 0) by (nonlinear_arith)
        requires
            v >= 0,
            s > 0,
    ;
    vstd::arithmetic::div_mod::lemma_div_pos_is_pos(v * s, d);
    vstd::arithmetic::div_mod::lemma_div_by_multiple_is_strongly_ordered(
        v * s,
        bound * s * d,
        bound * s,
        d,
    );
    assert(bound * s >= 0) by (nonlinear_arith)
        requires
            bound > 0,
            s > 0,
    ;
    vstd::arithmetic::div_mod::lemma_div_by_multiple(bound * s, d);
}

/// Floor division: the quotient times the divisor is at most the dividend,
/// and one more quotient overshoots it.
pub proof fn lemma_floor_div_bounds(n: int, d: int)
    requires
        n >= 0,
        d > 0,
    ensures
        (n / d) * d <= n,
        n < (n / d + 1) * d,
{
    vstd::arithmetic::div_mod::lemma_fundamental_div_mod(n, d);
    assert((n / d) * d == d * (n / d)) by (nonlinear_arith);
    assert((n / d + 1) * d == d * (n / d) + d) by (nonlinear_arith);
}

} // verus!
