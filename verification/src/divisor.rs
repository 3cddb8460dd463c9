//! Fixed-point clock divisor for a lane.
//!
//! A slot samples or drives the line `OVERSAMPLE` times per UART bit, so
//! the slot clock must run at `8 * baud` and the divisor against the
//! system clock is `system_freq / (8 * baud)`. The divider is a 16.8
//! fixed-point ratio: an integer part and a fraction in 1/256ths.

use vstd::prelude::*;
use vstd::arithmetic::div_mod::{
    lemma_div_is_ordered, lemma_div_multiples_vanish, lemma_fundamental_div_mod,
    lemma_mod_bound,
};

verus! {

/// Engine cycles per UART bit, fixed by the two microprograms' design.
pub const OVERSAMPLE: u32 = 8;

/// The rate pairs the driver accepts: the divisor must be at least 1
/// (the slot cannot run faster than the system clock) and its integer
/// part must fit the divider's 16-bit field.
pub open spec fn valid_rate_pair(baud: u32, system_freq: u32) -> bool {
    &&& 0 < baud
    &&& 8 * baud <= system_freq
    &&& system_freq < 65536 * (8 * baud)
}

/// The exact divisor in units of 1/256: `floor(256 * system_freq / (8 * baud))`.
pub open spec fn divisor_q8(baud: u32, system_freq: u32) -> int {
    (256 * system_freq) / (8 * baud)
}

/// A 16.8 fixed-point clock divisor: `integer + fraction / 256` system
/// cycles per slot cycle.
#[derive(Clone, Copy, Debug, PartialEq, Eq, Structural)]
pub struct ClockDivisor {
    /// Whole system cycles per slot cycle.
    pub integer: u16,
    /// Additional 1/256ths of a system cycle per slot cycle.
    pub fraction: u8,
}

impl ClockDivisor {
    /// The represented ratio, in units of 1/256.
    pub open spec fn q8(self) -> int {
        256 * self.integer + self.fraction
    }
}

proof fn lemma_div_below(num: int, den: int, c: int)
    requires
        0 < den,
        0 <= num,
        num < c * den,
    ensures
        num / den < c,
{
    lemma_fundamental_div_mod(num, den);
    lemma_mod_bound(num, den);
    assert(den * (num / den) <= num);
    assert(num / den < c) by (nonlinear_arith)
        requires
            0 < den,
            den * (num / den) <= num,
            num < c * den,
    {}
}

/// Compute the lane's clock divisor for a desired baud rate against the
/// system clock frequency, both in hertz.
pub fn compute_divisor(baud: u32, system_freq: u32) -> (d: ClockDivisor)
    requires
        valid_rate_pair(baud, system_freq),
    ensures
        d.q8() == divisor_q8(baud, system_freq),
{
    let num: u64 = (system_freq as u64) * 256;
    let den: u64 = (OVERSAMPLE as u64) * (baud as u64);
    let q8: u64 = num / den;
    proof {
        assert(num < 16777216 * den) by (nonlinear_arith)
            requires
                num == 256 * system_freq,
                den == 8 * baud,
                system_freq < 65536 * (8 * baud),
        {}
        lemma_div_below(num as int, den as int, 16777216);
        lemma_fundamental_div_mod(q8 as int, 256);
        lemma_mod_bound(q8 as int, 256);
        lemma_div_is_ordered(q8 as int, 16777215, 256);
    }
    let integer: u16 = (q8 / 256) as u16;
    let fraction: u8 = (q8 % 256) as u8;
    ClockDivisor { integer, fraction }
}

/// Law: for every accepted rate pair, the computed divisor is exactly
/// `system_freq / (8 * baud)` rounded down to the divider's 1/256
/// granularity, and is strictly positive (at least 1).
pub proof fn lemma_divisor_exact_and_positive(baud: u32, system_freq: u32)
    requires
        valid_rate_pair(baud, system_freq),
    ensures
        256 <= divisor_q8(baud, system_freq),
        8 * baud * divisor_q8(baud, system_freq) <= 256 * system_freq,
        256 * system_freq < 8 * baud * (divisor_q8(baud, system_freq) + 1),
{
    let num = 256 * system_freq as int;
    let den = 8 * baud as int;
    let q = divisor_q8(baud, system_freq);
    lemma_fundamental_div_mod(num, den);
    lemma_mod_bound(num, den);
    assert(den * q <= num < den * (q + 1)) by (nonlinear_arith)
        requires
            num == den * q + num % den,
            0 <= num % den < den,
    {}
    assert(256 * den <= num) by (nonlinear_arith)
        requires
            num == 256 * system_freq as int,
            den == 8 * baud as int,
            8 * baud <= system_freq,
    {}
    lemma_div_is_ordered(256 * den, num, den);
    lemma_div_multiples_vanish(256, den);
    assert(8 * baud * q == den * q);
    assert(8 * baud * (q + 1) == den * (q + 1));
}

} // verus!
