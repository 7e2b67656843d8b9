//! Single bits and multiplexer fields of the port registers.
//!
//! A port has eight pins, numbered 0 to 7. In the one-bit-per-pin registers
//! pin `n` owns bit `n`. In the multiplexer select register it owns the
//! three bits from bit `4 * n` on.

use vstd::prelude::*;

verus! {

/// Highest number of an alternate function.
pub const MAX_FUNCTION: u8 = 7;

/// Whether the bit of pin `n` is set in `reg`.
pub open spec fn is_set(reg: u8, n: u8) -> bool {
    reg & (1u8 << n) != 0
}

/// `reg` with the bit of pin `n` set.
pub open spec fn with_bit(reg: u8, n: u8) -> u8 {
    reg | (1u8 << n)
}

/// `reg` with the bit of pin `n` cleared.
pub open spec fn without_bit(reg: u8, n: u8) -> u8 {
    reg & !(1u8 << n)
}

/// `reg` after a set-style write of `mask`: the bits of `mask` are set, the
/// others stay.
pub open spec fn after_set(reg: u8, mask: u8) -> u8 {
    reg | mask
}

/// `reg` after a clear-style write of `mask`: the bits of `mask` are
/// cleared, the others stay.
pub open spec fn after_clear(reg: u8, mask: u8) -> u8 {
    reg & !mask
}

/// The position of the lowest bit of the multiplexer field of pin `n`.
pub open spec fn mux_shift(n: u8) -> u32 {
    (4 * n) as u32
}

/// The function number that `reg` selects for pin `n`.
pub open spec fn mux_field(reg: u32, n: u8) -> u8 {
    ((reg >> mux_shift(n)) & 7u32) as u8
}

/// `reg` with the function of pin `n` set to `function`.
pub open spec fn with_mux_field(reg: u32, n: u8, function: u8) -> u32 {
    (reg & !(7u32 << mux_shift(n))) | ((function as u32) << mux_shift(n))
}

/// Setting the bit of pin `n` sets that bit and leaves the bit of every
/// other pin as it was.
pub proof fn lemma_with_bit(reg: u8, n: u8, m: u8)
    requires
        n < 8,
        m < 8,
    ensures
        is_set(with_bit(reg, n), m) == (m == n || is_set(reg, m)),
{
    assert(((reg | (1u8 << n)) & (1u8 << m) != 0) == (m == n || (reg & (1u8 << m) != 0)))
        by (bit_vector)
        requires
            n < 8,
            m < 8,
    ;
}

/// Clearing the bit of pin `n` clears that bit and leaves the bit of every
/// other pin as it was.
pub proof fn lemma_without_bit(reg: u8, n: u8, m: u8)
    requires
        n < 8,
        m < 8,
    ensures
        is_set(without_bit(reg, n), m) == (m != n && is_set(reg, m)),
{
    assert(((reg & !(1u8 << n)) & (1u8 << m) != 0) == (m != n && (reg & (1u8 << m) != 0)))
        by (bit_vector)
        requires
            n < 8,
            m < 8,
    ;
}

/// Writing the function of pin `n` makes that pin's field the function
/// written and leaves the field of every other pin as it was.
pub proof fn lemma_with_mux_field(reg: u32, n: u8, function: u8, m: u8)
    requires
        n < 8,
        m < 8,
        function <= 7,
    ensures
        mux_field(with_mux_field(reg, n, function), m) == if m == n {
            function
        } else {
            mux_field(reg, m)
        },
{
    let shift_n: u32 = mux_shift(n);
    let shift_m: u32 = mux_shift(m);
    let wide: u32 = function as u32;
    assert(((((reg & !(7u32 << shift_n)) | (wide << shift_n)) >> shift_m) & 7u32) == if shift_m
        == shift_n {
        wide
    } else {
        (reg >> shift_m) & 7u32
    }) by (bit_vector)
        requires
            shift_n == 0 || shift_n == 4 || shift_n == 8 || shift_n == 12 || shift_n == 16
                || shift_n == 20 || shift_n == 24 || shift_n == 28,
            shift_m == 0 || shift_m == 4 || shift_m == 8 || shift_m == 12 || shift_m == 16
                || shift_m == 20 || shift_m == 24 || shift_m == 28,
            wide <= 7,
    ;
    assert(((reg >> shift_m) & 7u32) <= 7) by (bit_vector);
}

/// Clearing the bit of a pin undoes whatever was done to that bit before:
/// the register is then as if the bit had been cleared at once.
pub proof fn lemma_clear_overrides(reg: u8, n: u8)
    ensures
        without_bit(without_bit(reg, n), n) == without_bit(reg, n),
        without_bit(with_bit(without_bit(reg, n), n), n) == without_bit(reg, n),
{
    let k: u8 = 1u8 << n;
    assert((reg & !k) & !k == reg & !k && ((reg & !k) | k) & !k == reg & !k) by (bit_vector);
}

/// The two pull enables stay exclusive when a bit is cleared in either.
pub proof fn lemma_exclusive_after_clear(up: u8, down: u8, n: u8)
    requires
        up & down == 0,
    ensures
        without_bit(up, n) & down == 0,
        up & without_bit(down, n) == 0,
        without_bit(up, n) & without_bit(down, n) == 0,
{
    let k: u8 = 1u8 << n;
    assert((up & !k) & down == 0 && up & (down & !k) == 0 && (up & !k) & (down & !k) == 0)
        by (bit_vector)
        requires
            up & down == 0,
    ;
}

/// The two pull enables stay exclusive when the bit of a pin is set in one
/// of them while it is clear in the other.
pub proof fn lemma_exclusive_after_set(up: u8, down: u8, n: u8)
    requires
        up & down == 0,
    ensures
        with_bit(without_bit(up, n), n) & without_bit(down, n) == 0,
        without_bit(up, n) & with_bit(without_bit(down, n), n) == 0,
{
    let k: u8 = 1u8 << n;
    assert((((up & !k) | k) & (down & !k) == 0) && ((up & !k) & ((down & !k) | k) == 0))
        by (bit_vector)
        requires
            up & down == 0,
    ;
}

/// Exclusive pull enables have no pin with both bits set.
pub proof fn lemma_exclusive_per_pin(up: u8, down: u8, n: u8)
    requires
        up & down == 0,
        n < 8,
    ensures
        !(is_set(up, n) && is_set(down, n)),
{
    assert(!((up & (1u8 << n) != 0) && (down & (1u8 << n) != 0))) by (bit_vector)
        requires
            up & down == 0,
            n < 8,
    ;
}

} // verus!
