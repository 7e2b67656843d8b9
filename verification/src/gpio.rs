//! General purpose input and output.
//!
//! A pin is a value of type [`Pin`]. Its type names the port, the pin's
//! number and the mode that the pin is in, and the mode decides which
//! operations the pin offers: an operation that a mode does not support is
//! not there to be called. Changing the mode consumes the pin and returns
//! it with its new type, so a pin has one mode at a time and one owner.
//!
//! The pins of a port share the port's registers. Every operation that
//! reads or writes them borrows the [`PortRegisters`] of the pin's own port.

pub mod bits;
pub mod convert;
pub mod functions;
pub mod marker;
pub mod mode_register;
pub mod registers;

pub use registers::{InvalidPullConfig, PinView, PortFields, PortRegisters, PortWrite};

use core::marker::PhantomData;
use vstd::prelude::*;
use crate::gpio::bits::{
    lemma_clear_overrides, lemma_exclusive_after_clear, lemma_exclusive_after_set, with_bit,
    without_bit,
};
use crate::gpio::marker::{Active, Readable};
use crate::gpio::registers::{
    exclusive_throughout, lemma_exclusive_throughout_none, lemma_other_pins_kept, lemma_own_bit,
    others_kept, pin_view, pulls_exclusive,
};

verus! {

/// The mode of a pin after its port has been split.
pub type DefaultMode = Input;

/// A filler pin type
#[derive(Debug, Default)]
pub struct NoPin<Otype = PushPull>(PhantomData<Otype>);

impl<Otype> NoPin<Otype> {
    /// A filler pin.
    pub fn new() -> Self {
        Self(PhantomData)
    }
}

/// Extension trait to split a GPIO peripheral in independent pins and registers
pub trait GpioExt {
    /// The Parts to split the GPIO peripheral into
    type Parts;

    /// Splits the GPIO block into independent pins and registers
    fn split(self) -> Self::Parts;
}

/// Id, port and mode for any pin
pub trait PinExt {
    /// Current pin mode
    type Mode;

    /// Pin number
    fn pin_id(&self) -> u8;

    /// Port number starting from 0
    fn port_id(&self) -> u8;
}

/// Some alternate mode (type state)
#[derive(Debug, Default)]
pub struct Alternate<const A: u8, Otype = PushPull>(PhantomData<Otype>);

/// Input mode (type state)
#[derive(Debug, Default)]
pub struct Input;

/// Pull setting for an input
#[derive(Clone, Copy, Debug, Eq, PartialEq, Structural)]
pub enum Pull {
    /// Floating
    Floating,
    /// Pulled up
    Up,
    /// Pulled down
    Down,
}

/// Open drain input or output (type state)
#[derive(Debug, Default)]
pub struct OpenDrain;

/// Output mode (type state)
#[derive(Debug, Default)]
pub struct Output<MODE = PushPull> {
    _mode: PhantomData<MODE>,
}

/// Push pull output (type state)
#[derive(Debug, Default)]
pub struct PushPull;

/// JTAG/SWD mode (type state)
pub type Debugger = Alternate<3, PushPull>;

/// Alternate function 0 (type state)
pub type AF0<Otype = PushPull> = Alternate<0, Otype>;

/// Alternate function 1 (type state)
pub type AF1<Otype = PushPull> = Alternate<1, Otype>;

/// Alternate function 2 (type state)
pub type AF2<Otype = PushPull> = Alternate<2, Otype>;

/// Alternate function 3 (type state)
pub type AF3<Otype = PushPull> = Alternate<3, Otype>;

/// Alternate function 4 (type state)
pub type AF4<Otype = PushPull> = Alternate<4, Otype>;

/// Alternate function 5 (type state)
pub type AF5<Otype = PushPull> = Alternate<5, Otype>;

/// Alternate function 6 (type state)
pub type AF6<Otype = PushPull> = Alternate<6, Otype>;

/// Alternate function 7 (type state)
pub type AF7<Otype = PushPull> = Alternate<7, Otype>;

/// Level of a digital output.
#[derive(Clone, Copy, Debug, PartialEq, Eq, Structural)]
pub enum PinState {
    /// Low level.
    Low,
    /// High level.
    High,
}

/// GPIO Pin drive strength
#[allow(non_camel_case_types)]
#[derive(Debug, PartialEq, Eq, Clone, Copy, Structural)]
pub enum DriveStrength {
    /// 6 mA.
    _6mA,
    /// 8 mA.
    _8mA,
    /// 11 mA.
    _11mA,
    /// 14 mA.
    _14mA,
    /// 17 mA.
    _17mA,
    /// 20 mA.
    _20mA,
    /// 22 mA.
    _22mA,
    /// 25 mA.
    _25mA,
}

impl DriveStrength {
    /// The value of the drive strength field for this strength.
    pub open spec fn spec_bits(self) -> u8 {
        match self {
            DriveStrength::_6mA => 0,
            DriveStrength::_8mA => 1,
            DriveStrength::_11mA => 2,
            DriveStrength::_14mA => 3,
            DriveStrength::_17mA => 4,
            DriveStrength::_20mA => 5,
            DriveStrength::_22mA => 6,
            DriveStrength::_25mA => 7,
        }
    }

    /// The value of the drive strength field for this strength.
    #[verifier::when_used_as_spec(spec_bits)]
    pub fn bits(self) -> (bits: u8)
        ensures
            bits == self.spec_bits(),
            bits <= 7,
    {
        match self {
            DriveStrength::_6mA => 0,
            DriveStrength::_8mA => 1,
            DriveStrength::_11mA => 2,
            DriveStrength::_14mA => 3,
            DriveStrength::_17mA => 4,
            DriveStrength::_20mA => 5,
            DriveStrength::_22mA => 6,
            DriveStrength::_25mA => 7,
        }
    }
}

/// The writes that set the pull of pin `n`: both enables of the pin are
/// cleared first, pull-up before pull-down, and then the one asked for is
/// set, if any.
pub open spec fn pull_writes(fields: PortFields, n: u8, pull: Pull) -> Seq<PortWrite> {
    let up = without_bit(fields.pull_up, n);
    let down = without_bit(fields.pull_down, n);
    let clear = seq![PortWrite::PullUp(up), PortWrite::PullDown(down)];
    match pull {
        Pull::Floating => clear,
        Pull::Up => clear.push(PortWrite::PullUp(with_bit(up, n))),
        Pull::Down => clear.push(PortWrite::PullDown(with_bit(down, n))),
    }
}

/// The registers once the pull of pin `n` has been set: of the pin's two
/// enable bits the one asked for is set, if any, and the other is clear.
pub open spec fn pulled_fields(fields: PortFields, n: u8, pull: Pull) -> PortFields {
    let up = without_bit(fields.pull_up, n);
    let down = without_bit(fields.pull_down, n);
    PortFields {
        pull_up: if pull is Up {
            with_bit(up, n)
        } else {
            up
        },
        pull_down: if pull is Down {
            with_bit(down, n)
        } else {
            down
        },
        ..fields
    }
}

/// What setting the pull of pin `n` does: of the pin's two enables the
/// one asked for is on afterwards, if any, and the other is off. Every
/// other pin is as it was, and the pulls are exclusive afterwards if they
/// were before.
pub proof fn lemma_pull_set(fields: PortFields, n: u8, pull: Pull)
    requires
        n < 8,
    ensures
        pin_view(pulled_fields(fields, n, pull), n) == (PinView {
            pull_up: pull is Up,
            pull_down: pull is Down,
            ..pin_view(fields, n)
        }),
        others_kept(fields, pulled_fields(fields, n, pull), n),
        pulls_exclusive(fields) ==> pulls_exclusive(pulled_fields(fields, n, pull)),
{
    lemma_own_bit(fields.pull_up, n);
    lemma_own_bit(fields.pull_down, n);
    lemma_other_pins_kept(fields, pulled_fields(fields, n, pull), n);
    if pulls_exclusive(fields) {
        lemma_exclusive_after_clear(fields.pull_up, fields.pull_down, n);
        lemma_exclusive_after_set(fields.pull_up, fields.pull_down, n);
    }
}

/// The last pull set is the one that counts: setting a pull after another
/// leaves the registers as setting it alone does.
pub proof fn lemma_last_pull_counts(fields: PortFields, n: u8, first: Pull, second: Pull)
    requires
        n < 8,
    ensures
        pulled_fields(pulled_fields(fields, n, first), n, second) == pulled_fields(
            fields,
            n,
            second,
        ),
{
    lemma_clear_overrides(fields.pull_up, n);
    lemma_clear_overrides(fields.pull_down, n);
}

/// Pulling a pin up and then down leaves its pull-up off and its pull-down
/// on.
pub proof fn lemma_pull_up_then_down(fields: PortFields, n: u8)
    requires
        n < 8,
    ensures
        !pin_view(
            pulled_fields(pulled_fields(fields, n, Pull::Up), n, Pull::Down),
            n,
        ).pull_up,
        pin_view(
            pulled_fields(pulled_fields(fields, n, Pull::Up), n, Pull::Down),
            n,
        ).pull_down,
{
    lemma_last_pull_counts(fields, n, Pull::Up, Pull::Down);
    lemma_pull_set(fields, n, Pull::Down);
}

/// Letting a pin float after any pull leaves both its pull-up and its
/// pull-down off.
pub proof fn lemma_floating_clears_both(fields: PortFields, n: u8, first: Pull)
    requires
        n < 8,
    ensures
        !pin_view(
            pulled_fields(pulled_fields(fields, n, first), n, Pull::Floating),
            n,
        ).pull_up,
        !pin_view(
            pulled_fields(pulled_fields(fields, n, first), n, Pull::Floating),
            n,
        ).pull_down,
{
    lemma_last_pull_counts(fields, n, first, Pull::Floating);
    lemma_pull_set(fields, n, Pull::Floating);
}

/// The write that brings the output latch of pin `n` to the given level.
pub open spec fn latch_write(n: u8, state: PinState) -> PortWrite {
    match state {
        PinState::High => PortWrite::OutputSet(1u8 << n),
        PinState::Low => PortWrite::OutputClear(1u8 << n),
    }
}

/// The registers once the output latch of pin `n` has been brought to the
/// given level.
pub open spec fn latched_fields(fields: PortFields, n: u8, state: PinState) -> PortFields {
    PortFields {
        out: match state {
            PinState::High => with_bit(fields.out, n),
            PinState::Low => without_bit(fields.out, n),
        },
        ..fields
    }
}

/// Generic pin type
///
/// - `MODE` is one of the pin modes.
/// - `P` is the port number: 0 for port A, 1 for port B, etc.
/// - `N` is pin number: from `0` to `7`.
pub struct Pin<const P: u8, const N: u8, MODE = DefaultMode> {
    _mode: PhantomData<MODE>,
}

impl<const P: u8, const N: u8, MODE> Pin<P, N, MODE> {
    #[verifier::type_invariant]
    spec fn numbered(self) -> bool {
        N < 8
    }

    pub(crate) fn new() -> (pin: Self)
        requires
            N < 8,
    {
        Self { _mode: PhantomData }
    }

    /// Set the output of the pin regardless of its mode.
    /// Primarily used to set the output value of the pin
    /// before changing its mode to an output to avoid
    /// a short spike of an incorrect value
    pub(crate) fn _set_state(&mut self, port: &mut PortRegisters<P>, state: PinState)
        ensures
            N < 8,
            final(port).wf(),
            final(port).journal() == old(port).journal().push(latch_write(N, state)),
            final(port).fields() == latched_fields(old(port).fields(), N, state),
            final(port).pin(N) == (PinView { latch: state is High, ..old(port).pin(N) }),
            others_kept(old(port).fields(), final(port).fields(), N),
    {
        match state {
            PinState::High => self._set_high(port),
            PinState::Low => self._set_low(port),
        }
    }

    pub(crate) fn _set_high(&mut self, port: &mut PortRegisters<P>)
        ensures
            N < 8,
            final(port).wf(),
            final(port).journal() == old(port).journal().push(PortWrite::OutputSet(1u8 << N)),
            final(port).fields() == latched_fields(old(port).fields(), N, PinState::High),
            final(port).pin(N) == (PinView { latch: true, ..old(port).pin(N) }),
            others_kept(old(port).fields(), final(port).fields(), N),
    {
        proof {
            use_type_invariant(&*self);
            lemma_own_bit(port.fields().out, N);
            lemma_other_pins_kept(
                port.fields(),
                latched_fields(port.fields(), N, PinState::High),
                N,
            );
        }
        port.write(PortWrite::OutputSet(1u8 << N));
    }

    pub(crate) fn _set_low(&mut self, port: &mut PortRegisters<P>)
        ensures
            N < 8,
            final(port).wf(),
            final(port).journal() == old(port).journal().push(PortWrite::OutputClear(1u8 << N)),
            final(port).fields() == latched_fields(old(port).fields(), N, PinState::Low),
            final(port).pin(N) == (PinView { latch: false, ..old(port).pin(N) }),
            others_kept(old(port).fields(), final(port).fields(), N),
    {
        proof {
            use_type_invariant(&*self);
            lemma_own_bit(port.fields().out, N);
            lemma_other_pins_kept(
                port.fields(),
                latched_fields(port.fields(), N, PinState::Low),
                N,
            );
        }
        port.write(PortWrite::OutputClear(1u8 << N));
    }

    pub(crate) fn _is_set_low(&self, port: &PortRegisters<P>) -> (low: bool)
        ensures
            low == !port.pin(N).latch,
    {
        proof {
            use_type_invariant(self);
        }
        port.read().out & (1u8 << N) == 0
    }

    pub(crate) fn _is_low(&self, port: &PortRegisters<P>) -> (low: bool)
        ensures
            low == !port.pin(N).level,
    {
        proof {
            use_type_invariant(self);
        }
        port.read().input & (1u8 << N) == 0
    }
}

impl<const P: u8, const N: u8, MODE> PinExt for Pin<P, N, MODE> {
    type Mode = MODE;

    fn pin_id(&self) -> (id: u8)
        ensures
            id == N,
            id < 8,
    {
        proof {
            use_type_invariant(self);
        }
        N
    }

    fn port_id(&self) -> (id: u8)
        ensures
            id == P,
    {
        P
    }
}

/// Pins whose pull resistors can be set.
pub trait PinPull: Sized {
    /// The registers of the pin's port.
    type Port;

    /// Set the internal pull-up and pull-down resistor
    ///
    /// Sets the pull as [`PinPull::set_internal_resistor`] does and hands
    /// the pin back.
    fn internal_resistor(self, port: &mut Self::Port, resistor: Pull) -> (pin: Self)
        ensures
            self.pull_set(&pin, old(port), final(port), resistor),
    {
        let mut pin = self;
        pin.set_internal_resistor(port, resistor);
        pin
    }

    /// Set the internal pull-up and pull-down resistor
    fn set_internal_resistor(&mut self, port: &mut Self::Port, resistor: Pull)
        ensures
            old(self).pull_set(final(self), old(port), final(port), resistor),
    ;

    /// What setting the pull of this pin to `resistor` comes to: the pin is
    /// `after` afterwards, and the registers of its port, `before` at the
    /// start, are `port` at the end.
    spec fn pull_set(
        &self,
        after: &Self,
        before: &Self::Port,
        port: &Self::Port,
        resistor: Pull,
    ) -> bool;
}

impl<const P: u8, const N: u8, MODE> PinPull for Pin<P, N, MODE> where MODE: Active {
    type Port = PortRegisters<P>;

    /// The pin is as it was. Both enables of the pin have been cleared and
    /// then the one asked for set, with no pin pulled both ways at any
    /// point, and nothing else in the registers has changed.
    open spec fn pull_set(
        &self,
        after: &Self,
        before: &PortRegisters<P>,
        port: &PortRegisters<P>,
        resistor: Pull,
    ) -> bool {
        &&& *after == *self
        &&& port.performed(before, pull_writes(before.fields(), N, resistor))
        &&& port.fields() == pulled_fields(before.fields(), N, resistor)
        &&& port.pin(N) == (PinView {
            pull_up: resistor is Up,
            pull_down: resistor is Down,
            ..before.pin(N)
        })
        &&& others_kept(before.fields(), port.fields(), N)
    }

    fn set_internal_resistor(&mut self, port: &mut PortRegisters<P>, resistor: Pull) {
        self.set_internal_resistor(port, resistor)
    }
}

impl<const P: u8, const N: u8, MODE> Pin<P, N, MODE> where MODE: Active {
    /// Set the internal pull-up and pull-down resistor
    ///
    /// Both enables of the pin are cleared first, then the one asked for is
    /// set: at no point between two writes are both enabled.
    pub fn set_internal_resistor(&mut self, port: &mut PortRegisters<P>, resistor: Pull)
        ensures
            final(port).performed(old(port), pull_writes(
                old(port).fields(),
                N,
                resistor,
            )),
            final(port).fields() == pulled_fields(old(port).fields(), N, resistor),
            final(port).pin(N) == (PinView {
                pull_up: resistor is Up,
                pull_down: resistor is Down,
                ..old(port).pin(N)
            }),
            others_kept(old(port).fields(), final(port).fields(), N),
    {
        proof {
            use_type_invariant(&*self);
        }
        set_pull::<P>(port, N, resistor);
    }

    /// Set the internal pull-up and pull-down resistor
    pub fn internal_resistor(self, port: &mut PortRegisters<P>, resistor: Pull) -> (pin: Self)
        ensures
            final(port).performed(old(port), pull_writes(
                old(port).fields(),
                N,
                resistor,
            )),
            final(port).fields() == pulled_fields(old(port).fields(), N, resistor),
            final(port).pin(N) == (PinView {
                pull_up: resistor is Up,
                pull_down: resistor is Down,
                ..old(port).pin(N)
            }),
            others_kept(old(port).fields(), final(port).fields(), N),
    {
        let mut pin = self;
        pin.set_internal_resistor(port, resistor);
        pin
    }

    /// Enables / disables the internal pull up
    pub fn internal_pull_up(self, port: &mut PortRegisters<P>, on: bool) -> (pin: Self)
        ensures
            final(port).performed(old(port), pull_writes(
                old(port).fields(),
                N,
                if on {
                    Pull::Up
                } else {
                    Pull::Floating
                },
            )),
            final(port).fields() == pulled_fields(
                old(port).fields(),
                N,
                if on {
                    Pull::Up
                } else {
                    Pull::Floating
                },
            ),
            final(port).pin(N) == (PinView { pull_up: on, pull_down: false, ..old(port).pin(N) }),
            others_kept(old(port).fields(), final(port).fields(), N),
    {
        if on {
            self.internal_resistor(port, Pull::Up)
        } else {
            self.internal_resistor(port, Pull::Floating)
        }
    }

    /// Enables / disables the internal pull down
    pub fn internal_pull_down(self, port: &mut PortRegisters<P>, on: bool) -> (pin: Self)
        ensures
            final(port).performed(old(port), pull_writes(
                old(port).fields(),
                N,
                if on {
                    Pull::Down
                } else {
                    Pull::Floating
                },
            )),
            final(port).fields() == pulled_fields(
                old(port).fields(),
                N,
                if on {
                    Pull::Down
                } else {
                    Pull::Floating
                },
            ),
            final(port).pin(N) == (PinView { pull_up: false, pull_down: on, ..old(port).pin(N) }),
            others_kept(old(port).fields(), final(port).fields(), N),
    {
        if on {
            self.internal_resistor(port, Pull::Down)
        } else {
            self.internal_resistor(port, Pull::Floating)
        }
    }
}

/// Sets the pull of pin `n`.
pub(crate) fn set_pull<const P: u8>(port: &mut PortRegisters<P>, n: u8, resistor: Pull)
    requires
        n < 8,
    ensures
        final(port).performed(old(port), pull_writes(old(port).fields(), n, resistor)),
        final(port).fields() == pulled_fields(old(port).fields(), n, resistor),
        final(port).pin(n) == (PinView {
            pull_up: resistor is Up,
            pull_down: resistor is Down,
            ..old(port).pin(n)
        }),
        others_kept(old(port).fields(), final(port).fields(), n),
{
    let fields = port.read();
    let ghost before = port.fields();
    let ghost journal = port.journal();
    let ghost mut done = Seq::<PortWrite>::empty();
    let bit: u8 = 1u8 << n;
    let up: u8 = fields.pull_up & !bit;
    let down: u8 = fields.pull_down & !bit;
    proof {
        lemma_exclusive_throughout_none(before);
        assert(journal + done =~= journal);
        lemma_exclusive_after_clear(fields.pull_up, fields.pull_down, n);
        lemma_exclusive_after_set(fields.pull_up, fields.pull_down, n);
        lemma_own_bit(fields.pull_up, n);
        lemma_own_bit(fields.pull_down, n);
        lemma_other_pins_kept(before, pulled_fields(before, n, resistor), n);
    }
    port.write_next(PortWrite::PullUp(up), Ghost(before), Ghost(journal), Ghost(done));
    proof {
        done = done.push(PortWrite::PullUp(up));
    }
    port.write_next(PortWrite::PullDown(down), Ghost(before), Ghost(journal), Ghost(done));
    proof {
        done = done.push(PortWrite::PullDown(down));
    }
    match resistor {
        Pull::Up => {
            port.write_next(PortWrite::PullUp(up | bit), Ghost(before), Ghost(journal), Ghost(done));
            proof {
                done = done.push(PortWrite::PullUp(up | bit));
            }
        },
        Pull::Down => {
            port.write_next(
                PortWrite::PullDown(down | bit),
                Ghost(before),
                Ghost(journal),
                Ghost(done),
            );
            proof {
                done = done.push(PortWrite::PullDown(down | bit));
            }
        },
        Pull::Floating => {},
    }
    assert(done =~= pull_writes(before, n, resistor));
}

impl<const P: u8, const N: u8, MODE> Pin<P, N, Output<MODE>> {
    /// Drives the pin high
    pub fn set_high(&mut self, port: &mut PortRegisters<P>)
        ensures
            final(port).wf(),
            final(port).journal() == old(port).journal().push(PortWrite::OutputSet(1u8 << N)),
            final(port).fields() == latched_fields(old(port).fields(), N, PinState::High),
            final(port).pin(N) == (PinView { latch: true, ..old(port).pin(N) }),
            others_kept(old(port).fields(), final(port).fields(), N),
    {
        self._set_high(port)
    }

    /// Drives the pin low
    pub fn set_low(&mut self, port: &mut PortRegisters<P>)
        ensures
            final(port).wf(),
            final(port).journal() == old(port).journal().push(PortWrite::OutputClear(1u8 << N)),
            final(port).fields() == latched_fields(old(port).fields(), N, PinState::Low),
            final(port).pin(N) == (PinView { latch: false, ..old(port).pin(N) }),
            others_kept(old(port).fields(), final(port).fields(), N),
    {
        self._set_low(port)
    }

    /// Is the pin in drive high or low mode?
    pub fn get_state(&self, port: &PortRegisters<P>) -> (state: PinState)
        ensures
            state is High <==> port.pin(N).latch,
    {
        if self.is_set_low(port) {
            PinState::Low
        } else {
            PinState::High
        }
    }

    /// Drives the pin high or low depending on the provided value
    pub fn set_state(&mut self, port: &mut PortRegisters<P>, state: PinState)
        ensures
            final(port).wf(),
            final(port).journal() == old(port).journal().push(latch_write(N, state)),
            final(port).fields() == latched_fields(old(port).fields(), N, state),
            final(port).pin(N) == (PinView { latch: state is High, ..old(port).pin(N) }),
            others_kept(old(port).fields(), final(port).fields(), N),
    {
        self._set_state(port, state)
    }

    /// Is the pin in drive high mode?
    pub fn is_set_high(&self, port: &PortRegisters<P>) -> (high: bool)
        ensures
            high == port.pin(N).latch,
    {
        !self.is_set_low(port)
    }

    /// Is the pin in drive low mode?
    pub fn is_set_low(&self, port: &PortRegisters<P>) -> (low: bool)
        ensures
            low == !port.pin(N).latch,
    {
        self._is_set_low(port)
    }

    /// Toggle pin output
    pub fn toggle(&mut self, port: &mut PortRegisters<P>)
        ensures
            final(port).wf(),
            final(port).journal() == old(port).journal().push(
                if old(port).pin(N).latch {
                    PortWrite::OutputClear(1u8 << N)
                } else {
                    PortWrite::OutputSet(1u8 << N)
                },
            ),
            final(port).fields() == latched_fields(
                old(port).fields(),
                N,
                if old(port).pin(N).latch {
                    PinState::Low
                } else {
                    PinState::High
                },
            ),
            final(port).pin(N) == (PinView {
                latch: !old(port).pin(N).latch,
                ..old(port).pin(N)
            }),
            others_kept(old(port).fields(), final(port).fields(), N),
    {
        if self.is_set_low(port) {
            self.set_high(port)
        } else {
            self.set_low(port)
        }
    }
}

/// Pins whose level can be read.
pub trait ReadPin {
    /// The registers of the pin's port.
    type Port;

    /// Whether the registers show the pin at low level.
    spec fn low(&self, port: &Self::Port) -> bool;

    /// Is the input pin high?
    fn is_high(&self, port: &Self::Port) -> (high: bool)
        ensures
            high == !self.low(port),
    {
        !self.is_low(port)
    }

    /// Is the input pin low?
    fn is_low(&self, port: &Self::Port) -> (low: bool)
        ensures
            low == self.low(port),
    ;
}

impl<const P: u8, const N: u8, MODE> ReadPin for Pin<P, N, MODE> where MODE: Readable {
    type Port = PortRegisters<P>;

    open spec fn low(&self, port: &PortRegisters<P>) -> bool {
        !port.pin(N).level
    }

    fn is_low(&self, port: &PortRegisters<P>) -> (low: bool) {
        self._is_low(port)
    }
}

impl<const P: u8, const N: u8, MODE> Pin<P, N, MODE> where MODE: Readable {
    /// Is the input pin high?
    pub fn is_high(&self, port: &PortRegisters<P>) -> (high: bool)
        ensures
            high == port.pin(N).level,
    {
        !self.is_low(port)
    }

    /// Is the input pin low?
    pub fn is_low(&self, port: &PortRegisters<P>) -> (low: bool)
        ensures
            low == !port.pin(N).level,
    {
        self._is_low(port)
    }
}

/// GPIO parts
pub struct Parts<const P: u8> {
    /// The registers of the port, which the pins' operations borrow.
    pub regs: PortRegisters<P>,
    /// Pin 0
    pub p0: Pin<P, 0>,
    /// Pin 1
    pub p1: Pin<P, 1>,
    /// Pin 2
    pub p2: Pin<P, 2>,
    /// Pin 3
    pub p3: Pin<P, 3>,
    /// Pin 4
    pub p4: Pin<P, 4>,
    /// Pin 5
    pub p5: Pin<P, 5>,
    /// Pin 6
    pub p6: Pin<P, 6>,
    /// Pin 7
    pub p7: Pin<P, 7>,
}

impl<const P: u8> GpioExt for PortRegisters<P> {
    type Parts = Parts<P>;

    /// Turns the port into its eight pins, each in input mode, and the
    /// registers that they share. Nothing is written.
    fn split(self) -> (parts: Parts<P>)
        ensures
            parts.regs == self,
    {
        Parts {
            regs: self,
            p0: Pin::new(),
            p1: Pin::new(),
            p2: Pin::new(),
            p3: Pin::new(),
            p4: Pin::new(),
            p5: Pin::new(),
            p6: Pin::new(),
            p7: Pin::new(),
        }
    }
}

} // verus!
