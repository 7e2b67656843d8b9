//! Direction and output type in the mode register of the device.
//!
//! The device keeps the direction and the output type of a pin together, in
//! the two bits of its mode register from bit `2 * n` on: 1 for a push pull
//! output, 2 for an open-drain output and 3 for a high impedance input. The
//! functions here convert between that register and the direction and
//! output type registers that the pins work on.

use vstd::prelude::*;
use crate::gpio::bits::is_set;

verus! {

/// Mode field of a pin that drives a push pull output.
pub const MODE_PUSH_PULL: u32 = 1;

/// Mode field of a pin that drives an open-drain output.
pub const MODE_OPEN_DRAIN: u32 = 2;

/// Mode field of a pin that is a high impedance input.
pub const MODE_INPUT: u32 = 3;

/// The position of the lowest bit of the mode field of pin `n`.
pub open spec fn mode_shift(n: u8) -> u32 {
    (2 * n) as u32
}

/// The mode field of pin `n` in the mode register `mode`.
pub open spec fn mode_field(mode: u32, n: u8) -> u32 {
    (mode >> mode_shift(n)) & 3u32
}

/// The mode field that states the direction and output type of pin `n`.
pub open spec fn field_for(direction: u8, open_drain: u8, n: u8) -> u32 {
    if !is_set(direction, n) {
        MODE_INPUT
    } else if !is_set(open_drain, n) {
        MODE_PUSH_PULL
    } else {
        MODE_OPEN_DRAIN
    }
}

/// Whether direction and output type are those that the mode register
/// states for pin `n`: the pin drives its output where its field says push
/// pull or open-drain, and its output is open-drain where the field says
/// so. A pin with any other field counts as an input.
pub open spec fn decodes_pin(mode: u32, direction: u8, open_drain: u8, n: u8) -> bool {
    &&& is_set(direction, n) == (mode_field(mode, n) == MODE_PUSH_PULL || mode_field(mode, n)
        == MODE_OPEN_DRAIN)
    &&& is_set(open_drain, n) == (mode_field(mode, n) == MODE_OPEN_DRAIN)
}

/// Whether the mode register `updated` is `mode` with the fields of the pins
/// in `changed` brought to what direction and output type say, as far as
/// pin `n` goes.
pub open spec fn encodes_pin(
    mode: u32,
    updated: u32,
    changed: u8,
    direction: u8,
    open_drain: u8,
    n: u8,
) -> bool {
    mode_field(updated, n) == if is_set(changed, n) {
        field_for(direction, open_drain, n)
    } else {
        mode_field(mode, n)
    }
}

/// Direction and output type as the mode register states them.
pub fn decode_mode(mode: u32) -> (registers: (u8, u8))
    ensures
        forall|n: u8|
            #![trigger mode_field(mode, n)]
            n < 8 ==> decodes_pin(mode, registers.0, registers.1, n),
{
    let mut direction: u8 = 0;
    let mut open_drain: u8 = 0;
    let mut i: u8 = 0;
    assert forall|n: u8| n < 8 implies !#[trigger] is_set(0u8, n) by {
        assert(0u8 & (1u8 << n) == 0) by (bit_vector);
    }
    while i < 8
        invariant
            i <= 8,
            forall|n: u8|
                #![trigger mode_field(mode, n)]
                n < i ==> decodes_pin(mode, direction, open_drain, n),
            forall|n: u8|
                #![trigger is_set(direction, n)]
                #![trigger is_set(open_drain, n)]
                i <= n < 8 ==> !is_set(direction, n) && !is_set(open_drain, n),
        decreases 8 - i,
    {
        let ghost direction0 = direction;
        let ghost open_drain0 = open_drain;
        let shift: u32 = 2 * (i as u32);
        let field: u32 = (mode >> shift) & 3;
        let bit: u8 = 1u8 << i;
        if field == MODE_PUSH_PULL {
            direction = direction | bit;
        } else if field == MODE_OPEN_DRAIN {
            direction = direction | bit;
            open_drain = open_drain | bit;
        }
        proof {
            assert(shift == mode_shift(i));
            assert forall|n: u8| #![trigger mode_field(mode, n)] n < i + 1 implies decodes_pin(
                mode,
                direction,
                open_drain,
                n,
            ) by {
                assert(mode_field(mode, n) <= u32::MAX);
                assert(n >= i ==> !is_set(direction0, n) && !is_set(open_drain0, n));
                crate::gpio::bits::lemma_with_bit(direction0, i, n);
                crate::gpio::bits::lemma_with_bit(open_drain0, i, n);
            }
            assert forall|n: u8|
                #![trigger is_set(direction, n)]
                #![trigger is_set(open_drain, n)]
                i + 1 <= n < 8 implies !is_set(direction, n) && !is_set(open_drain, n) by {
                assert(!is_set(direction0, n) && !is_set(open_drain0, n));
                crate::gpio::bits::lemma_with_bit(direction0, i, n);
                crate::gpio::bits::lemma_with_bit(open_drain0, i, n);
            }
        }
        i += 1;
    }
    (direction, open_drain)
}

/// The mode register with the fields of the pins in `changed` brought to
/// what direction and output type say. The fields of the other pins, and
/// the bits above the fields, stay as they are.
pub fn encode_mode(mode: u32, changed: u8, direction: u8, open_drain: u8) -> (updated: u32)
    ensures
        forall|n: u8|
            #![trigger mode_field(mode, n)]
            n < 8 ==> encodes_pin(mode, updated, changed, direction, open_drain, n),
        updated >> 16u32 == mode >> 16u32,
{
    let mut updated: u32 = mode;
    let mut i: u8 = 0;
    while i < 8
        invariant
            i <= 8,
            forall|n: u8|
                #![trigger mode_field(mode, n)]
                n < i ==> encodes_pin(mode, updated, changed, direction, open_drain, n),
            forall|n: u8|
                #![trigger mode_field(mode, n)]
                i <= n < 8 ==> mode_field(updated, n) == mode_field(mode, n),
            updated >> 16u32 == mode >> 16u32,
        decreases 8 - i,
    {
        let ghost previous = updated;
        let bit: u8 = 1u8 << i;
        let shift: u32 = 2 * (i as u32);
        assert(shift == mode_shift(i));
        if changed & bit != 0 {
            let field: u32 = if direction & bit == 0 {
                MODE_INPUT
            } else if open_drain & bit == 0 {
                MODE_PUSH_PULL
            } else {
                MODE_OPEN_DRAIN
            };
            updated = (updated & !(3u32 << shift)) | (field << shift);
            proof {
                assert(field == field_for(direction, open_drain, i));
                assert forall|n: u8| #![trigger mode_field(mode, n)] n < 8 implies mode_field(
                    updated,
                    n,
                ) == if n == i {
                    field
                } else {
                    mode_field(previous, n)
                } by {
                    lemma_with_mode_field(previous, i, field, n);
                }
                lemma_upper_bits_kept(previous, i, field);
            }
        }
        proof {
            assert forall|n: u8| #![trigger mode_field(mode, n)] n < i + 1 implies encodes_pin(
                mode,
                updated,
                changed,
                direction,
                open_drain,
                n,
            ) by {
                assert(mode_field(mode, n) <= u32::MAX);
                assert(mode_field(updated, n) == if n == i && is_set(changed, i) {
                    field_for(direction, open_drain, i)
                } else {
                    mode_field(previous, n)
                });
            }
            assert forall|n: u8| #![trigger mode_field(mode, n)] i + 1 <= n < 8 implies mode_field(
                updated,
                n,
            ) == mode_field(mode, n) by {
                assert(mode_field(mode, n) <= u32::MAX);
            }
        }
        i += 1;
    }
    updated
}

/// The pins whose mode field has to be written when direction and output
/// type go from one state to another: those whose direction differs, and
/// the outputs whose output type differs.
pub fn changed_pins(
    direction_before: u8,
    open_drain_before: u8,
    direction_after: u8,
    open_drain_after: u8,
) -> (changed: u8)
    ensures
        changed == (direction_before ^ direction_after) | ((open_drain_before ^ open_drain_after)
            & direction_after),
        forall|n: u8|
            n < 8 && !is_set(changed, n) ==> field_for(
                direction_after,
                open_drain_after,
                n,
            ) == field_for(direction_before, open_drain_before, n),
{
    let changed = (direction_before ^ direction_after) | ((open_drain_before ^ open_drain_after)
        & direction_after);
    proof {
        assert forall|n: u8| n < 8 && !is_set(changed, n) implies field_for(
            direction_after,
            open_drain_after,
            n,
        ) == field_for(direction_before, open_drain_before, n) by {
            let k: u8 = 1u8 << n;
            assert((((direction_before ^ direction_after) | ((open_drain_before
                ^ open_drain_after) & direction_after)) & k == 0) ==> ((direction_before & k != 0)
                == (direction_after & k != 0)) && ((direction_after & k != 0) ==> ((
            open_drain_before & k != 0) == (open_drain_after & k != 0)))) by (bit_vector)
                requires
                    k == 1u8 << n,
                    n < 8,
            ;
        }
    }
    changed
}

/// A mode register that is written for every pin states the direction and
/// output type that it was written for.
pub proof fn lemma_encode_then_decode(mode: u32, updated: u32, direction: u8, open_drain: u8, n: u8)
    requires
        n < 8,
        encodes_pin(mode, updated, 0xff, direction, open_drain, n),
    ensures
        decodes_pin(
            updated,
            direction,
            if is_set(direction, n) {
                open_drain
            } else {
                0
            },
            n,
        ),
{
    assert(is_set(0xffu8, n)) by {
        assert(0xffu8 & (1u8 << n) != 0) by (bit_vector)
            requires
                n < 8,
        ;
    }
    assert(!is_set(0u8, n)) by {
        assert(0u8 & (1u8 << n) == 0) by (bit_vector);
    }
}

/// Writing the mode field of pin `n` makes that pin's field the value
/// written and leaves the field of every other pin as it was.
proof fn lemma_with_mode_field(mode: u32, n: u8, field: u32, m: u8)
    requires
        n < 8,
        m < 8,
        field <= 3,
    ensures
        mode_field((mode & !(3u32 << mode_shift(n))) | (field << mode_shift(n)), m) == if m == n {
            field
        } else {
            mode_field(mode, m)
        },
{
    let shift_n: u32 = mode_shift(n);
    let shift_m: u32 = mode_shift(m);
    assert(((((mode & !(3u32 << shift_n)) | (field << shift_n)) >> shift_m) & 3u32) == if shift_m
        == shift_n {
        field
    } else {
        (mode >> shift_m) & 3u32
    }) by (bit_vector)
        requires
            shift_n == 0 || shift_n == 2 || shift_n == 4 || shift_n == 6 || shift_n == 8
                || shift_n == 10 || shift_n == 12 || shift_n == 14,
            shift_m == 0 || shift_m == 2 || shift_m == 4 || shift_m == 6 || shift_m == 8
                || shift_m == 10 || shift_m == 12 || shift_m == 14,
            field <= 3,
    ;
}

/// Writing the mode field of a pin leaves the bits above the fields as they
/// were.
proof fn lemma_upper_bits_kept(mode: u32, n: u8, field: u32)
    requires
        n < 8,
        field <= 3,
    ensures
        ((mode & !(3u32 << mode_shift(n))) | (field << mode_shift(n))) >> 16u32 == mode >> 16u32,
{
    let shift: u32 = mode_shift(n);
    assert(((mode & !(3u32 << shift)) | (field << shift)) >> 16u32 == mode >> 16u32)
        by (bit_vector)
        requires
            shift <= 14,
            field <= 3,
    ;
}

} // verus!
