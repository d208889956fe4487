//! The backoff delay calculator: maps a count of failures so far to the delay
//! slept before the next attempt.

use vstd::prelude::*;

verus! {

/// The backoff multiplier after one more failed attempt: a circular left
/// shift by one bit of an unsigned 32-bit value. The bit shifted out of the
/// most-significant position re-enters at the least-significant position, so
/// the multiplier cycles with period 32 instead of collapsing to zero.
pub open spec fn rotated(power: u32) -> u32 {
    (power << 1u32) | (power >> 31u32)
}

/// The backoff multiplier in force before sleep number `i` (0-based): 1 at
/// first, then rotated once per failed attempt.
pub open spec fn power_at(i: nat) -> u32
    decreases i,
{
    if i == 0 {
        1u32
    } else {
        rotated(power_at((i - 1) as nat))
    }
}

/// The delay slept with base unit `unit_nanos` and multiplier `power`, in
/// nanoseconds: the unit times the multiplier, which always fits in 128 bits.
pub open spec fn delay_of(unit_nanos: u64, power: u32) -> u128 {
    (unit_nanos * power) as u128
}

/// The sequence of the first `count` backoff delays for base unit
/// `unit_nanos`: `unit * 1, unit * 2, unit * 4, ...`, wrapping after 32.
pub open spec fn backoff_delays(unit_nanos: u64, count: nat) -> Seq<u128> {
    Seq::new(count, |i: int| delay_of(unit_nanos, power_at(i as nat)))
}

/// Advances the backoff multiplier by one failed attempt.
pub fn rotate_power(power: u32) -> (r: u32)
    ensures
        r == rotated(power),
{
    (power << 1u32) | (power >> 31u32)
}

/// Computes the delay in nanoseconds for one sleep: the base unit times the
/// current multiplier, exactly, with no possibility of overflow.
pub fn delay_nanos(unit_nanos: u64, power: u32) -> (r: u128)
    ensures
        r == delay_of(unit_nanos, power),
{
    proof {
        assert((unit_nanos as int) * (power as int) < 0x1000000000000000000000000int)
            by (nonlinear_arith)
            requires
                unit_nanos <= 0xffffffffffffffffu64,
                power <= 0xffffffffu32,
        ;
    }
    (unit_nanos as u128) * (power as u128)
}

/// For the first 32 failed attempts the multiplier doubles each time: sleep
/// number `i` uses the bit pattern `1 << i`, so the delays are
/// `unit * 1, unit * 2, unit * 4, unit * 8, ...`.
pub proof fn lemma_power_at_doubles(i: nat)
    requires
        i < 32,
    ensures
        power_at(i) == 1u32 << (i as u32),
    decreases i,
{
    if i == 0 {
        assert(1u32 << 0u32 == 1u32) by (bit_vector);
    } else {
        lemma_power_at_doubles((i - 1) as nat);
        let k = (i - 1) as u32;
        assert(((1u32 << k) << 1u32) | ((1u32 << k) >> 31u32) == 1u32 << ((k + 1) as u32))
            by (bit_vector)
            requires
                k < 31u32,
        ;
        assert(power_at(i) == rotated(power_at((i - 1) as nat)));
    }
}

/// The multiplier wraps: after 32 further failed attempts the circular shift
/// returns to the same bit pattern, so the 33rd delay equals the 1st again.
pub proof fn lemma_power_at_wraps(i: nat)
    ensures
        power_at(i + 32) == power_at(i),
    decreases i,
{
    if i == 0 {
        lemma_power_at_doubles(31);
        assert(((1u32 << 31u32) << 1u32) | ((1u32 << 31u32) >> 31u32) == 1u32) by (bit_vector);
        assert(power_at(32) == rotated(power_at(31)));
    } else {
        lemma_power_at_wraps((i - 1) as nat);
        assert(power_at(i + 32) == rotated(power_at(i + 31)));
        assert(power_at(i) == rotated(power_at((i - 1) as nat)));
    }
}

} // verus!
