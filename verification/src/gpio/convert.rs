//! Changes of a pin's mode.
//!
//! A change consumes the pin and returns it in its new mode, after the
//! writes that bring the pin's part of the port registers to that mode.
//! The writes touch nothing but what belongs to the pin.
//!
//! - Entering an input mode clears the pin's direction bit and sets its
//!   pull.
//! - Entering an output mode sets the output type and then the direction
//!   bit. Where a first level is given, the output latch is brought to it
//!   before anything else, so that the pin never drives a level left over
//!   in the latch.
//! - Entering an alternate mode sets the output type and routes the pin to
//!   the function.
//!
//! A pin that enters an input or output mode while it is routed to another
//! function than the port's own is routed back first.

use vstd::prelude::*;
use crate::gpio::bits::{mux_field, with_bit, with_mux_field, without_bit};
use crate::gpio::bits::{lemma_with_mux_field, MAX_FUNCTION};
use crate::gpio::marker::IntoAf;
use crate::gpio::registers::{
    apply_writes, exclusive_throughout, lemma_apply_writes_concat,
    lemma_exclusive_throughout_concat, lemma_exclusive_throughout_none, lemma_other_pins_kept,
    lemma_own_bit, others_kept, pulls_exclusive,
};
use crate::gpio::{
    latch_write, latched_fields, pull_writes, pulled_fields, set_pull, Alternate, Input,
    OpenDrain, Output, Pin, PinState, PinView, PortFields, PortRegisters, PortWrite, Pull,
    PushPull,
};

verus! {

/// The write that routes pin `n` back to the port's own function, or none
/// where it is routed there already.
pub open spec fn release_writes(fields: PortFields, n: u8) -> Seq<PortWrite> {
    if mux_field(fields.mux_select, n) == 0 {
        Seq::empty()
    } else {
        seq![PortWrite::MuxSelect(with_mux_field(fields.mux_select, n, 0))]
    }
}

/// The registers once pin `n` is routed to the port's own function.
pub open spec fn released_fields(fields: PortFields, n: u8) -> PortFields {
    if mux_field(fields.mux_select, n) == 0 {
        fields
    } else {
        PortFields { mux_select: with_mux_field(fields.mux_select, n, 0), ..fields }
    }
}

/// `reg` with the bit of pin `n` brought to `value`.
pub open spec fn bit_to(reg: u8, n: u8, value: bool) -> u8 {
    if value {
        with_bit(reg, n)
    } else {
        without_bit(reg, n)
    }
}

/// The writes that make pin `n` an input with the given pull.
pub open spec fn input_writes(fields: PortFields, n: u8, pull: Pull) -> Seq<PortWrite> {
    release_writes(fields, n).push(PortWrite::DirectionClear(1u8 << n)) + pull_writes(
        fields,
        n,
        pull,
    )
}

/// The registers once pin `n` is an input with the given pull.
pub open spec fn input_fields(fields: PortFields, n: u8, pull: Pull) -> PortFields {
    pulled_fields(
        PortFields { direction: without_bit(fields.direction, n), ..released_fields(fields, n) },
        n,
        pull,
    )
}

/// The write that brings the output latch of pin `n` to a first level, or
/// none where no first level is given.
pub open spec fn first_level_writes(n: u8, initial: Option<PinState>) -> Seq<PortWrite> {
    match initial {
        Some(state) => seq![latch_write(n, state)],
        None => Seq::empty(),
    }
}

/// The registers once the output latch of pin `n` is at the first level
/// given, if any.
pub open spec fn first_level_fields(
    fields: PortFields,
    n: u8,
    initial: Option<PinState>,
) -> PortFields {
    match initial {
        Some(state) => latched_fields(fields, n, state),
        None => fields,
    }
}

/// The writes that make pin `n` an output of the given type: the first
/// level, the function, the output type, and last the direction.
pub open spec fn output_writes(
    fields: PortFields,
    n: u8,
    open_drain: bool,
    initial: Option<PinState>,
) -> Seq<PortWrite> {
    (first_level_writes(n, initial) + release_writes(fields, n)).push(
        PortWrite::OpenDrain(bit_to(fields.open_drain, n, open_drain)),
    ).push(PortWrite::DirectionSet(1u8 << n))
}

/// The registers once pin `n` is an output of the given type.
pub open spec fn output_fields(
    fields: PortFields,
    n: u8,
    open_drain: bool,
    initial: Option<PinState>,
) -> PortFields {
    PortFields {
        open_drain: bit_to(fields.open_drain, n, open_drain),
        direction: with_bit(fields.direction, n),
        ..released_fields(first_level_fields(fields, n, initial), n)
    }
}

/// The writes that route pin `n` to an alternate function with the given
/// output type.
pub open spec fn alternate_writes(
    fields: PortFields,
    n: u8,
    function: u8,
    open_drain: bool,
) -> Seq<PortWrite> {
    seq![
        PortWrite::OpenDrain(bit_to(fields.open_drain, n, open_drain)),
        PortWrite::MuxSelect(with_mux_field(fields.mux_select, n, function)),
    ]
}

/// The registers once pin `n` is routed to an alternate function with the
/// given output type.
pub open spec fn alternate_fields(
    fields: PortFields,
    n: u8,
    function: u8,
    open_drain: bool,
) -> PortFields {
    PortFields {
        open_drain: bit_to(fields.open_drain, n, open_drain),
        mux_select: with_mux_field(fields.mux_select, n, function),
        ..fields
    }
}

/// Routes pin `n` back to the port's own function where it is routed
/// elsewhere, as the next writes of a sequence that began at the registers
/// `before` with the journal `journal`, and of which the writes `done` have
/// been made.
fn release<const P: u8>(
    port: &mut PortRegisters<P>,
    n: u8,
    Ghost(before): Ghost<PortFields>,
    Ghost(journal): Ghost<Seq<PortWrite>>,
    Ghost(done): Ghost<Seq<PortWrite>>,
)
    requires
        n < 8,
        old(port).fields() == apply_writes(before, done),
        old(port).journal() == journal + done,
        exclusive_throughout(before, done),
    ensures
        final(port).wf(),
        final(port).fields() == released_fields(old(port).fields(), n),
        final(port).fields() == apply_writes(
            before,
            done + release_writes(old(port).fields(), n),
        ),
        final(port).journal() == journal + (done + release_writes(old(port).fields(), n)),
        exclusive_throughout(before, done + release_writes(old(port).fields(), n)),
{
    let fields = port.read();
    let shift: u32 = 4 * (n as u32);
    let mux: u32 = fields.mux_select;
    assert(((mux >> shift) & 7u32) <= 7) by (bit_vector);
    assert(shift == crate::gpio::bits::mux_shift(n));
    if (mux >> shift) & 7 != 0 {
        let value: u32 = mux & !(7u32 << shift);
        assert(value == (mux & !(7u32 << shift)) | (0u32 << shift)) by (bit_vector)
            requires
                value == mux & !(7u32 << shift),
        ;
        assert(value == with_mux_field(mux, n, 0));
        port.write_next(PortWrite::MuxSelect(value), Ghost(before), Ghost(journal), Ghost(done));
        assert(release_writes(fields, n) =~= seq![PortWrite::MuxSelect(value)]);
        assert(done.push(PortWrite::MuxSelect(value)) =~= done + release_writes(fields, n));
    } else {
        assert(done + release_writes(fields, n) =~= done);
    }
}

/// Makes pin `n` an input with the given pull.
fn enter_input<const P: u8>(port: &mut PortRegisters<P>, n: u8, pull: Pull)
    requires
        n < 8,
    ensures
        final(port).performed(old(port), input_writes(old(port).fields(), n, pull)),
        final(port).fields() == input_fields(old(port).fields(), n, pull),
        final(port).pin(n) == (PinView {
            output: false,
            function: 0,
            pull_up: pull is Up,
            pull_down: pull is Down,
            ..old(port).pin(n)
        }),
        others_kept(old(port).fields(), final(port).fields(), n),
{
    let ghost before = port.fields();
    let ghost journal = port.journal();
    let ghost empty = Seq::<PortWrite>::empty();
    let fields = port.read();
    proof {
        lemma_exclusive_throughout_none(before);
        assert(journal + empty =~= journal);
    }
    release::<P>(port, n, Ghost(before), Ghost(journal), Ghost(empty));
    let ghost released = release_writes(before, n);
    assert(empty + released =~= released);
    port.write_next(
        PortWrite::DirectionClear(1u8 << n),
        Ghost(before),
        Ghost(journal),
        Ghost(released),
    );
    let ghost cleared = released.push(PortWrite::DirectionClear(1u8 << n));
    let ghost middle = port.fields();
    set_pull::<P>(port, n, pull);
    proof {
        let pulls = pull_writes(before, n, pull);
        assert(pull_writes(middle, n, pull) == pulls);
        lemma_apply_writes_concat(before, cleared, pulls);
        lemma_exclusive_throughout_concat(before, cleared, pulls);
        assert((journal + cleared) + pulls =~= journal + (cleared + pulls));
        lemma_released(before, n);
        lemma_own_bit(before.direction, n);
        lemma_own_bit(before.pull_up, n);
        lemma_own_bit(before.pull_down, n);
        lemma_other_pins_kept(before, input_fields(before, n, pull), n);
    }
}

/// Makes pin `n` an output of the given type, with the output latch at the
/// first level given, if any.
fn enter_output<const P: u8>(
    port: &mut PortRegisters<P>,
    n: u8,
    open_drain: bool,
    initial: Option<PinState>,
)
    requires
        n < 8,
    ensures
        final(port).performed(old(port), output_writes(
            old(port).fields(),
            n,
            open_drain,
            initial,
        )),
        final(port).fields() == output_fields(old(port).fields(), n, open_drain, initial),
        final(port).pin(n) == (PinView {
            output: true,
            open_drain,
            function: 0,
            latch: match initial {
                Some(state) => state is High,
                None => old(port).pin(n).latch,
            },
            ..old(port).pin(n)
        }),
        others_kept(old(port).fields(), final(port).fields(), n),
{
    let ghost before = port.fields();
    let ghost journal = port.journal();
    let ghost mut done = Seq::<PortWrite>::empty();
    let fields = port.read();
    let bit: u8 = 1u8 << n;
    proof {
        lemma_exclusive_throughout_none(before);
        assert(journal + done =~= journal);
    }
    match initial {
        Some(PinState::High) => {
            port.write_next(PortWrite::OutputSet(bit), Ghost(before), Ghost(journal), Ghost(done));
            proof {
                done = done.push(PortWrite::OutputSet(bit));
            }
        },
        Some(PinState::Low) => {
            port.write_next(
                PortWrite::OutputClear(bit),
                Ghost(before),
                Ghost(journal),
                Ghost(done),
            );
            proof {
                done = done.push(PortWrite::OutputClear(bit));
            }
        },
        None => {},
    }
    assert(done =~= first_level_writes(n, initial));
    assert(port.fields() == first_level_fields(before, n, initial));
    release::<P>(port, n, Ghost(before), Ghost(journal), Ghost(done));
    proof {
        done = done + release_writes(before, n);
    }
    let drive: u8 = if open_drain {
        fields.open_drain | bit
    } else {
        fields.open_drain & !bit
    };
    port.write_next(PortWrite::OpenDrain(drive), Ghost(before), Ghost(journal), Ghost(done));
    proof {
        done = done.push(PortWrite::OpenDrain(drive));
    }
    port.write_next(PortWrite::DirectionSet(bit), Ghost(before), Ghost(journal), Ghost(done));
    proof {
        done = done.push(PortWrite::DirectionSet(bit));
        assert(done =~= output_writes(before, n, open_drain, initial));
        lemma_released(before, n);
        lemma_released(first_level_fields(before, n, initial), n);
        lemma_own_bit(before.direction, n);
        lemma_own_bit(before.open_drain, n);
        lemma_own_bit(before.out, n);
        lemma_other_pins_kept(before, output_fields(before, n, open_drain, initial), n);
    }
}

/// Routes pin `n` to an alternate function with the given output type.
fn enter_alternate<const P: u8>(
    port: &mut PortRegisters<P>,
    n: u8,
    function: u8,
    open_drain: bool,
)
    requires
        n < 8,
        function <= MAX_FUNCTION,
    ensures
        final(port).performed(old(port), alternate_writes(
            old(port).fields(),
            n,
            function,
            open_drain,
        )),
        final(port).fields() == alternate_fields(old(port).fields(), n, function, open_drain),
        final(port).pin(n) == (PinView { open_drain, function, ..old(port).pin(n) }),
        others_kept(old(port).fields(), final(port).fields(), n),
{
    let ghost before = port.fields();
    let ghost journal = port.journal();
    let ghost mut done = Seq::<PortWrite>::empty();
    let fields = port.read();
    let bit: u8 = 1u8 << n;
    let shift: u32 = 4 * (n as u32);
    proof {
        lemma_exclusive_throughout_none(before);
        assert(journal + done =~= journal);
    }
    let drive: u8 = if open_drain {
        fields.open_drain | bit
    } else {
        fields.open_drain & !bit
    };
    port.write_next(PortWrite::OpenDrain(drive), Ghost(before), Ghost(journal), Ghost(done));
    proof {
        done = done.push(PortWrite::OpenDrain(drive));
    }
    let mux: u32 = (fields.mux_select & !(7u32 << shift)) | ((function as u32) << shift);
    port.write_next(PortWrite::MuxSelect(mux), Ghost(before), Ghost(journal), Ghost(done));
    proof {
        done = done.push(PortWrite::MuxSelect(mux));
        assert(done =~= alternate_writes(before, n, function, open_drain));
        lemma_own_bit(before.open_drain, n);
        lemma_with_mux_field(before.mux_select, n, function, n);
        lemma_other_pins_kept(before, alternate_fields(before, n, function, open_drain), n);
    }
}

/// A pin that is made an output with a first level has its output latch
/// written first and its direction bit last: by the time the pin drives, the
/// latch holds the level asked for.
pub proof fn lemma_latch_before_direction(
    fields: PortFields,
    n: u8,
    open_drain: bool,
    state: PinState,
)
    ensures
        output_writes(fields, n, open_drain, Some(state)).first() == latch_write(n, state),
        output_writes(fields, n, open_drain, Some(state)).last() == PortWrite::DirectionSet(
            1u8 << n,
        ),
        output_writes(fields, n, open_drain, Some(state)).len() >= 3,
{
}

/// Routing a pin back to the port's own function leaves its function at 0
/// and touches nothing else.
proof fn lemma_released(fields: PortFields, n: u8)
    requires
        n < 8,
    ensures
        mux_field(released_fields(fields, n).mux_select, n) == 0,
        released_fields(fields, n) == (PortFields {
            mux_select: released_fields(fields, n).mux_select,
            ..fields
        }),
        released_fields(fields, n).mux_select == fields.mux_select || released_fields(
            fields,
            n,
        ).mux_select == with_mux_field(fields.mux_select, n, 0),
{
    lemma_with_mux_field(fields.mux_select, n, 0, n);
}

impl<const P: u8, const N: u8, MODE> Pin<P, N, MODE> {
    /// Configures the pin to operate as a floating input pin
    pub fn into_floating_input(self, port: &mut PortRegisters<P>) -> (pin: Pin<P, N, Input>)
        ensures
            final(port).performed(old(port), input_writes(
                old(port).fields(),
                N,
                Pull::Floating,
            )),
            final(port).fields() == input_fields(old(port).fields(), N, Pull::Floating),
            final(port).pin(N) == (PinView {
                output: false,
                function: 0,
                pull_up: false,
                pull_down: false,
                ..old(port).pin(N)
            }),
            others_kept(old(port).fields(), final(port).fields(), N),
    {
        proof {
            use_type_invariant(&self);
        }
        enter_input::<P>(port, N, Pull::Floating);
        Pin::new()
    }

    /// Configures the pin to operate as a pulled up input pin
    pub fn into_pull_up_input(self, port: &mut PortRegisters<P>) -> (pin: Pin<P, N, Input>)
        ensures
            final(port).performed(old(port), input_writes(
                old(port).fields(),
                N,
                Pull::Up,
            )),
            final(port).fields() == input_fields(old(port).fields(), N, Pull::Up),
            final(port).pin(N) == (PinView {
                output: false,
                function: 0,
                pull_up: true,
                pull_down: false,
                ..old(port).pin(N)
            }),
            others_kept(old(port).fields(), final(port).fields(), N),
    {
        proof {
            use_type_invariant(&self);
        }
        enter_input::<P>(port, N, Pull::Up);
        Pin::new()
    }

    /// Configures the pin to operate as a pulled down input pin
    pub fn into_pull_down_input(self, port: &mut PortRegisters<P>) -> (pin: Pin<P, N, Input>)
        ensures
            final(port).performed(old(port), input_writes(
                old(port).fields(),
                N,
                Pull::Down,
            )),
            final(port).fields() == input_fields(old(port).fields(), N, Pull::Down),
            final(port).pin(N) == (PinView {
                output: false,
                function: 0,
                pull_up: false,
                pull_down: true,
                ..old(port).pin(N)
            }),
            others_kept(old(port).fields(), final(port).fields(), N),
    {
        proof {
            use_type_invariant(&self);
        }
        enter_input::<P>(port, N, Pull::Down);
        Pin::new()
    }

    /// Configures the pin to operate as a push pull output pin. The output
    /// latch keeps the level it has.
    pub fn into_push_pull_output(self, port: &mut PortRegisters<P>) -> (pin: Pin<
        P,
        N,
        Output<PushPull>,
    >)
        ensures
            final(port).performed(old(port), output_writes(
                old(port).fields(),
                N,
                false,
                None,
            )),
            final(port).fields() == output_fields(old(port).fields(), N, false, None),
            final(port).pin(N) == (PinView {
                output: true,
                open_drain: false,
                function: 0,
                ..old(port).pin(N)
            }),
            others_kept(old(port).fields(), final(port).fields(), N),
    {
        proof {
            use_type_invariant(&self);
        }
        enter_output::<P>(port, N, false, None);
        Pin::new()
    }

    /// Configures the pin to operate as a push pull output pin that drives
    /// `initial_state` from the start: the output latch is brought to that
    /// level before the pin is made an output.
    pub fn into_push_pull_output_in_state(
        self,
        port: &mut PortRegisters<P>,
        initial_state: PinState,
    ) -> (pin: Pin<P, N, Output<PushPull>>)
        ensures
            final(port).performed(old(port), output_writes(
                old(port).fields(),
                N,
                false,
                Some(initial_state),
            )),
            final(port).fields() == output_fields(
                old(port).fields(),
                N,
                false,
                Some(initial_state),
            ),
            final(port).pin(N) == (PinView {
                output: true,
                open_drain: false,
                function: 0,
                latch: initial_state is High,
                ..old(port).pin(N)
            }),
            others_kept(old(port).fields(), final(port).fields(), N),
    {
        proof {
            use_type_invariant(&self);
        }
        enter_output::<P>(port, N, false, Some(initial_state));
        Pin::new()
    }

    /// Configures the pin to operate as an open-drain output pin. The
    /// output latch keeps the level it has.
    pub fn into_open_drain_output(self, port: &mut PortRegisters<P>) -> (pin: Pin<
        P,
        N,
        Output<OpenDrain>,
    >)
        ensures
            final(port).performed(old(port), output_writes(
                old(port).fields(),
                N,
                true,
                None,
            )),
            final(port).fields() == output_fields(old(port).fields(), N, true, None),
            final(port).pin(N) == (PinView {
                output: true,
                open_drain: true,
                function: 0,
                ..old(port).pin(N)
            }),
            others_kept(old(port).fields(), final(port).fields(), N),
    {
        proof {
            use_type_invariant(&self);
        }
        enter_output::<P>(port, N, true, None);
        Pin::new()
    }

    /// Configures the pin to operate as an open-drain output pin that
    /// drives `initial_state` from the start: the output latch is brought
    /// to that level before the pin is made an output.
    pub fn into_open_drain_output_in_state(
        self,
        port: &mut PortRegisters<P>,
        initial_state: PinState,
    ) -> (pin: Pin<P, N, Output<OpenDrain>>)
        ensures
            final(port).performed(old(port), output_writes(
                old(port).fields(),
                N,
                true,
                Some(initial_state),
            )),
            final(port).fields() == output_fields(
                old(port).fields(),
                N,
                true,
                Some(initial_state),
            ),
            final(port).pin(N) == (PinView {
                output: true,
                open_drain: true,
                function: 0,
                latch: initial_state is High,
                ..old(port).pin(N)
            }),
            others_kept(old(port).fields(), final(port).fields(), N),
    {
        proof {
            use_type_invariant(&self);
        }
        enter_output::<P>(port, N, true, Some(initial_state));
        Pin::new()
    }

    /// Configures the pin to operate in alternate function `A`, which the
    /// pin must document, with a push pull output.
    pub fn into_alternate<const A: u8>(self, port: &mut PortRegisters<P>) -> (pin: Pin<
        P,
        N,
        Alternate<A, PushPull>,
    >) where Self: IntoAf<A>
        requires
            A <= MAX_FUNCTION,
        ensures
            final(port).performed(old(port), alternate_writes(
                old(port).fields(),
                N,
                A,
                false,
            )),
            final(port).fields() == alternate_fields(old(port).fields(), N, A, false),
            final(port).pin(N) == (PinView { open_drain: false, function: A, ..old(port).pin(N) }),
            others_kept(old(port).fields(), final(port).fields(), N),
    {
        proof {
            use_type_invariant(&self);
        }
        enter_alternate::<P>(port, N, A, false);
        Pin::new()
    }

    /// Configures the pin to operate in alternate function `A`, which the
    /// pin must document, with an open-drain output.
    pub fn into_alternate_open_drain<const A: u8>(self, port: &mut PortRegisters<P>) -> (pin: Pin<
        P,
        N,
        Alternate<A, OpenDrain>,
    >) where Self: IntoAf<A>
        requires
            A <= MAX_FUNCTION,
        ensures
            final(port).performed(old(port), alternate_writes(
                old(port).fields(),
                N,
                A,
                true,
            )),
            final(port).fields() == alternate_fields(old(port).fields(), N, A, true),
            final(port).pin(N) == (PinView { open_drain: true, function: A, ..old(port).pin(N) }),
            others_kept(old(port).fields(), final(port).fields(), N),
    {
        proof {
            use_type_invariant(&self);
        }
        enter_alternate::<P>(port, N, A, true);
        Pin::new()
    }
}

} // verus!
