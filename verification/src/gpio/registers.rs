//! The registers of one port as plain values, with a journal of the writes
//! made to them.
//!
//! A port's registers are shared by its eight pins. Whoever changes a pin
//! borrows the registers exclusively for the length of the change, so no
//! two changes interleave. Every change is a sequence of single register
//! writes. Each write takes effect on the values held here and is appended
//! to the journal, so that the same writes can be replayed, in the same
//! order, on the device.
//!
//! The pull-up and the pull-down of a pin are never enabled together: no
//! write is made that would leave both bits of a pin set, so the registers
//! satisfy [`PortRegisters::wf`] after every single write.

use vstd::prelude::*;
use crate::gpio::bits::{
    after_clear, after_set, is_set, lemma_exclusive_per_pin, lemma_with_bit, lemma_with_mux_field,
    lemma_without_bit, mux_field, with_bit, with_mux_field, without_bit,
};

verus! {

/// The registers of one port. In all but the last, pin `n` owns bit `n`.
#[derive(Clone, Copy, Debug, PartialEq, Eq, Structural)]
pub struct PortFields {
    /// Direction: a set bit makes the pin drive its output.
    pub direction: u8,
    /// Output type: a set bit makes the pin's output open-drain.
    pub open_drain: u8,
    /// Output latch: the level that the pin drives as an output.
    pub out: u8,
    /// Input: the level found on the pin. The hardware alone changes it.
    pub input: u8,
    /// Pull-up enable.
    pub pull_up: u8,
    /// Pull-down enable.
    pub pull_down: u8,
    /// Multiplexer select: the function of pin `n` in the three bits from
    /// bit `4 * n` on. Function 0 is the port's own input and output.
    pub mux_select: u32,
}

/// One write to a register of a port.
#[derive(Clone, Copy, Debug, PartialEq, Eq, Structural)]
pub enum PortWrite {
    /// Set the direction bits of the mask; the others stay.
    DirectionSet(u8),
    /// Clear the direction bits of the mask; the others stay.
    DirectionClear(u8),
    /// Set the output latch bits of the mask; the others stay.
    OutputSet(u8),
    /// Clear the output latch bits of the mask; the others stay.
    OutputClear(u8),
    /// Write the output type register.
    OpenDrain(u8),
    /// Write the pull-up enable register.
    PullUp(u8),
    /// Write the pull-down enable register.
    PullDown(u8),
    /// Write the multiplexer select register.
    MuxSelect(u32),
}

/// Register values in which some pin has its pull-up and its pull-down
/// enabled together. No operation of a pin leaves such values. They can
/// only be found on a device that something else has written to.
#[derive(Clone, Copy, Debug, PartialEq, Eq, Structural)]
pub struct InvalidPullConfig;

/// What the registers say of one pin.
pub struct PinView {
    /// The pin drives its output.
    pub output: bool,
    /// The pin's output is open-drain.
    pub open_drain: bool,
    /// The output latch of the pin is high.
    pub latch: bool,
    /// The level found on the pin is high.
    pub level: bool,
    /// The pull-up of the pin is enabled.
    pub pull_up: bool,
    /// The pull-down of the pin is enabled.
    pub pull_down: bool,
    /// The function that the pin is routed to.
    pub function: u8,
}

/// What the registers say of pin `n`.
pub open spec fn pin_view(fields: PortFields, n: u8) -> PinView {
    PinView {
        output: is_set(fields.direction, n),
        open_drain: is_set(fields.open_drain, n),
        latch: is_set(fields.out, n),
        level: is_set(fields.input, n),
        pull_up: is_set(fields.pull_up, n),
        pull_down: is_set(fields.pull_down, n),
        function: mux_field(fields.mux_select, n),
    }
}

/// No pin has its pull-up and its pull-down enabled together.
pub open spec fn pulls_exclusive(fields: PortFields) -> bool {
    fields.pull_up & fields.pull_down == 0
}

/// The registers after one write. No write changes the input register.
pub open spec fn apply_write(fields: PortFields, write: PortWrite) -> PortFields {
    match write {
        PortWrite::DirectionSet(mask) => PortFields {
            direction: after_set(fields.direction, mask),
            ..fields
        },
        PortWrite::DirectionClear(mask) => PortFields {
            direction: after_clear(fields.direction, mask),
            ..fields
        },
        PortWrite::OutputSet(mask) => PortFields { out: after_set(fields.out, mask), ..fields },
        PortWrite::OutputClear(mask) => PortFields { out: after_clear(fields.out, mask), ..fields },
        PortWrite::OpenDrain(value) => PortFields { open_drain: value, ..fields },
        PortWrite::PullUp(value) => PortFields { pull_up: value, ..fields },
        PortWrite::PullDown(value) => PortFields { pull_down: value, ..fields },
        PortWrite::MuxSelect(value) => PortFields { mux_select: value, ..fields },
    }
}

/// The registers after a sequence of writes, made first to last.
pub open spec fn apply_writes(fields: PortFields, writes: Seq<PortWrite>) -> PortFields
    decreases writes.len(),
{
    if writes.len() == 0 {
        fields
    } else {
        apply_write(apply_writes(fields, writes.drop_last()), writes.last())
    }
}

/// The pulls are exclusive before the writes and after each of them.
pub open spec fn exclusive_throughout(fields: PortFields, writes: Seq<PortWrite>) -> bool {
    forall|k: int|
        0 <= k <= writes.len() ==> pulls_exclusive(#[trigger] apply_writes(fields, writes.take(k)))
}

/// Making one more write after a sequence is applying that write to what
/// the sequence leaves.
pub proof fn lemma_apply_writes_push(fields: PortFields, writes: Seq<PortWrite>, write: PortWrite)
    ensures
        apply_writes(fields, writes.push(write)) == apply_write(
            apply_writes(fields, writes),
            write,
        ),
{
    assert(writes.push(write).drop_last() =~= writes);
}

/// Making the writes of `first` and then those of `second` is making the
/// writes of their concatenation.
pub proof fn lemma_apply_writes_concat(
    fields: PortFields,
    first: Seq<PortWrite>,
    second: Seq<PortWrite>,
)
    ensures
        apply_writes(fields, first + second) == apply_writes(
            apply_writes(fields, first),
            second,
        ),
    decreases second.len(),
{
    if second.len() == 0 {
        assert(first + second =~= first);
    } else {
        lemma_apply_writes_concat(fields, first, second.drop_last());
        assert((first + second).drop_last() =~= first + second.drop_last());
        assert((first + second).last() == second.last());
    }
}

/// Writes that keep the pulls exclusive throughout, followed by more writes
/// that do so from where the first leave off, keep them exclusive
/// throughout.
pub proof fn lemma_exclusive_throughout_concat(
    fields: PortFields,
    first: Seq<PortWrite>,
    second: Seq<PortWrite>,
)
    requires
        exclusive_throughout(fields, first),
        exclusive_throughout(apply_writes(fields, first), second),
    ensures
        exclusive_throughout(fields, first + second),
{
    let all = first + second;
    assert forall|k: int| 0 <= k <= all.len() implies pulls_exclusive(
        #[trigger] apply_writes(fields, all.take(k)),
    ) by {
        if k <= first.len() {
            assert(all.take(k) =~= first.take(k));
        } else {
            let rest = second.take(k - first.len());
            assert(all.take(k) =~= first + rest);
            lemma_apply_writes_concat(fields, first, rest);
        }
    }
}

/// No writes at all keep exclusive pulls exclusive.
pub proof fn lemma_exclusive_throughout_none(fields: PortFields)
    requires
        pulls_exclusive(fields),
    ensures
        exclusive_throughout(fields, Seq::<PortWrite>::empty()),
{
    let empty = Seq::<PortWrite>::empty();
    assert forall|k: int| 0 <= k <= empty.len() implies pulls_exclusive(
        #[trigger] apply_writes(fields, empty.take(k)),
    ) by {
        assert(empty.take(0) =~= empty);
    }
}

/// With exclusive pulls, no pin is pulled both ways: of its pull-up and its
/// pull-down at most one is enabled.
pub proof fn lemma_no_pin_pulled_both_ways(fields: PortFields, n: u8)
    requires
        pulls_exclusive(fields),
        n < 8,
    ensures
        !(pin_view(fields, n).pull_up && pin_view(fields, n).pull_down),
{
    lemma_exclusive_per_pin(fields.pull_up, fields.pull_down, n);
}

/// Whether `reg` is `old` with at most the bit of pin `n` changed: the
/// register as it was, or with that bit set, or with it cleared.
pub open spec fn bit_touched(old: u8, reg: u8, n: u8) -> bool {
    reg == old || reg == with_bit(old, n) || reg == without_bit(old, n) || reg == with_bit(
        without_bit(old, n),
        n,
    )
}

/// Whether `updated` differs from `fields` in nothing but what belongs to
/// pin `n`: its bit in the one-bit-per-pin registers other than the input
/// register, and its multiplexer field.
pub open spec fn touches_only(fields: PortFields, updated: PortFields, n: u8) -> bool {
    &&& bit_touched(fields.direction, updated.direction, n)
    &&& bit_touched(fields.open_drain, updated.open_drain, n)
    &&& bit_touched(fields.out, updated.out, n)
    &&& updated.input == fields.input
    &&& bit_touched(fields.pull_up, updated.pull_up, n)
    &&& bit_touched(fields.pull_down, updated.pull_down, n)
    &&& (updated.mux_select == fields.mux_select || exists|function: u8|
        function <= 7 && updated.mux_select == #[trigger] with_mux_field(
            fields.mux_select,
            n,
            function,
        ))
}

/// Every pin but pin `n` is found in `updated` as it is in `fields`.
pub open spec fn others_kept(fields: PortFields, updated: PortFields, n: u8) -> bool {
    forall|m: u8| m < 8 && m != n ==> #[trigger] pin_view(updated, m) == pin_view(fields, m)
}

/// Changing what belongs to one pin leaves every other pin as it was: the
/// pins of a port own disjoint bits of its registers.
pub proof fn lemma_other_pins_kept(fields: PortFields, updated: PortFields, n: u8)
    requires
        n < 8,
        touches_only(fields, updated, n),
    ensures
        others_kept(fields, updated, n),
{
    assert forall|m: u8| m < 8 && m != n implies #[trigger] pin_view(updated, m) == pin_view(
        fields,
        m,
    ) by {
        lemma_bit_touched(fields.direction, updated.direction, n, m);
        lemma_bit_touched(fields.open_drain, updated.open_drain, n, m);
        lemma_bit_touched(fields.out, updated.out, n, m);
        lemma_bit_touched(fields.pull_up, updated.pull_up, n, m);
        lemma_bit_touched(fields.pull_down, updated.pull_down, n, m);
        if updated.mux_select != fields.mux_select {
            let function = choose|function: u8|
                function <= 7 && updated.mux_select == #[trigger] with_mux_field(
                    fields.mux_select,
                    n,
                    function,
                );
            lemma_with_mux_field(fields.mux_select, n, function, m);
        }
    }
}

/// A register with at most the bit of pin `n` changed has the bit of every
/// other pin as it was.
proof fn lemma_bit_touched(old: u8, reg: u8, n: u8, m: u8)
    requires
        n < 8,
        m < 8,
        m != n,
        bit_touched(old, reg, n),
    ensures
        is_set(reg, m) == is_set(old, m),
{
    lemma_with_bit(old, n, m);
    lemma_without_bit(old, n, m);
    lemma_with_bit(without_bit(old, n), n, m);
}

/// Setting the bit of pin `n` leaves it set, clearing it leaves it clear,
/// and setting it after clearing it leaves it set.
pub proof fn lemma_own_bit(reg: u8, n: u8)
    requires
        n < 8,
    ensures
        is_set(with_bit(reg, n), n),
        !is_set(without_bit(reg, n), n),
        is_set(with_bit(without_bit(reg, n), n), n),
{
    lemma_with_bit(reg, n, n);
    lemma_without_bit(reg, n, n);
    lemma_with_bit(without_bit(reg, n), n, n);
}

/// Register values in which no pin has both pulls enabled.
struct Exclusive {
    fields: PortFields,
}

impl Exclusive {
    #[verifier::type_invariant]
    spec fn exclusive(self) -> bool {
        pulls_exclusive(self.fields)
    }

    fn new(fields: PortFields) -> (values: Self)
        requires
            pulls_exclusive(fields),
        ensures
            values.fields == fields,
    {
        Exclusive { fields }
    }

    fn get(&self) -> (fields: PortFields)
        ensures
            fields == self.fields,
            pulls_exclusive(fields),
    {
        proof {
            use_type_invariant(self);
        }
        self.fields
    }
}

/// The registers of port `P`.
pub struct PortRegisters<const P: u8> {
    values: Exclusive,
    journal: Vec<PortWrite>,
}

impl<const P: u8> PortRegisters<P> {
    /// The registers as they stand.
    pub closed spec fn fields(&self) -> PortFields {
        self.values.fields
    }

    /// The writes made and not yet taken, oldest first.
    pub closed spec fn journal(&self) -> Seq<PortWrite> {
        self.journal@
    }

    /// No pin has its pull-up and its pull-down enabled together. This
    /// holds of every value of the type.
    pub open spec fn wf(&self) -> bool {
        pulls_exclusive(self.fields())
    }

    /// What the registers say of pin `n`.
    pub open spec fn pin(&self, n: u8) -> PinView {
        pin_view(self.fields(), n)
    }

    /// Whether these are the registers `before` after the given writes and
    /// nothing else: the writes have joined the journal in their order, the
    /// registers hold what making the writes one by one leaves, and no pin
    /// had both pulls enabled before any of the writes or after it.
    pub open spec fn performed(&self, before: &Self, writes: Seq<PortWrite>) -> bool {
        &&& self.journal() == before.journal() + writes
        &&& self.fields() == apply_writes(before.fields(), writes)
        &&& exclusive_throughout(before.fields(), writes)
        &&& self.wf()
    }

    /// The registers as a reset leaves them, all zero, with nothing
    /// written: every pin is an input without pulls, routed to function 0.
    pub fn new() -> (port: Self)
        ensures
            port.wf(),
            port.fields() == (PortFields {
                direction: 0,
                open_drain: 0,
                out: 0,
                input: 0,
                pull_up: 0,
                pull_down: 0,
                mux_select: 0,
            }),
            port.journal() == Seq::<PortWrite>::empty(),
    {
        assert(0u8 & 0u8 == 0) by (bit_vector);
        PortRegisters {
            values: Exclusive::new(
                PortFields {
                    direction: 0,
                    open_drain: 0,
                    out: 0,
                    input: 0,
                    pull_up: 0,
                    pull_down: 0,
                    mux_select: 0,
                },
            ),
            journal: Vec::new(),
        }
    }

    /// The registers with the given values, as read from a device, and with
    /// nothing written. Values in which some pin has both pulls enabled are
    /// refused.
    pub fn with_fields(fields: PortFields) -> (port: Result<Self, InvalidPullConfig>)
        ensures
            port is Ok <==> pulls_exclusive(fields),
            port matches Ok(port) ==> {
                &&& port.wf()
                &&& port.fields() == fields
                &&& port.journal() == Seq::<PortWrite>::empty()
            },
    {
        if fields.pull_up & fields.pull_down == 0 {
            Ok(PortRegisters { values: Exclusive::new(fields), journal: Vec::new() })
        } else {
            Err(InvalidPullConfig)
        }
    }

    /// Reads all registers.
    pub fn read(&self) -> (fields: PortFields)
        ensures
            fields == self.fields(),
            pulls_exclusive(fields),
    {
        self.values.get()
    }

    /// Records the levels found on the pins, as the hardware reports them.
    /// This is no write: the journal stays as it is.
    pub fn set_input(&mut self, levels: u8)
        ensures
            final(self).fields() == (PortFields { input: levels, ..old(self).fields() }),
            final(self).journal() == old(self).journal(),
            final(self).wf(),
    {
        let fields = self.values.get();
        self.values = Exclusive::new(PortFields { input: levels, ..fields });
    }

    /// Makes one write: it takes effect on the registers and joins the
    /// journal. A write to a pull enable register that would enable both
    /// pulls of a pin is not admitted.
    pub(crate) fn write(&mut self, write: PortWrite)
        requires
            write is PullUp || write is PullDown ==> pulls_exclusive(
                apply_write(old(self).fields(), write),
            ),
        ensures
            final(self).wf(),
            final(self).fields() == apply_write(old(self).fields(), write),
            final(self).journal() == old(self).journal().push(write),
    {
        let fields = self.values.get();
        let updated = match write {
            PortWrite::DirectionSet(mask) => PortFields {
                direction: fields.direction | mask,
                ..fields
            },
            PortWrite::DirectionClear(mask) => PortFields {
                direction: fields.direction & !mask,
                ..fields
            },
            PortWrite::OutputSet(mask) => PortFields { out: fields.out | mask, ..fields },
            PortWrite::OutputClear(mask) => PortFields { out: fields.out & !mask, ..fields },
            PortWrite::OpenDrain(value) => PortFields { open_drain: value, ..fields },
            PortWrite::PullUp(value) => PortFields { pull_up: value, ..fields },
            PortWrite::PullDown(value) => PortFields { pull_down: value, ..fields },
            PortWrite::MuxSelect(value) => PortFields { mux_select: value, ..fields },
        };
        self.values = Exclusive::new(updated);
        self.journal.push(write);
    }

    /// Makes the next write of a sequence that began at the registers
    /// `before` with the journal `journal`, and of which the writes `done`
    /// have been made.
    pub(crate) fn write_next(
        &mut self,
        write: PortWrite,
        Ghost(before): Ghost<PortFields>,
        Ghost(journal): Ghost<Seq<PortWrite>>,
        Ghost(done): Ghost<Seq<PortWrite>>,
    )
        requires
            old(self).fields() == apply_writes(before, done),
            old(self).journal() == journal + done,
            exclusive_throughout(before, done),
            write is PullUp || write is PullDown ==> pulls_exclusive(
                apply_write(old(self).fields(), write),
            ),
        ensures
            final(self).wf(),
            final(self).fields() == apply_write(old(self).fields(), write),
            final(self).fields() == apply_writes(before, done.push(write)),
            final(self).journal() == journal + done.push(write),
            exclusive_throughout(before, done.push(write)),
    {
        self.write(write);
        proof {
            lemma_apply_writes_push(before, done, write);
            assert((journal + done).push(write) =~= journal + done.push(write));
            let all = done.push(write);
            assert forall|k: int| 0 <= k <= all.len() implies pulls_exclusive(
                #[trigger] apply_writes(before, all.take(k)),
            ) by {
                if k <= done.len() {
                    assert(all.take(k) =~= done.take(k));
                } else {
                    assert(all.take(k) =~= all);
                }
            }
        }
    }

    /// Hands out the journal, oldest write first, and leaves it empty. The
    /// registers stay as they are.
    pub fn take_journal(&mut self) -> (writes: Vec<PortWrite>)
        ensures
            writes@ == old(self).journal(),
            final(self).journal() == Seq::<PortWrite>::empty(),
            final(self).fields() == old(self).fields(),
            final(self).wf(),
    {
        proof {
            use_type_invariant(&self.values);
        }
        let mut writes: Vec<PortWrite> = Vec::new();
        core::mem::swap(&mut self.journal, &mut writes);
        writes
    }
}

} // verus!
