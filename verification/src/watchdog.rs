//! Watchdog peripheral

use vstd::prelude::*;
use crate::time::MilliSeconds;

verus! {

/// Key that opens the registers for writing.
pub const KEY_READ_WRITE: u32 = 0x55AA_6699;

/// Key that closes the registers for writing.
pub const KEY_READ_ONLY: u32 = 0x55AA_6698;

/// Maximum prescaler
pub const MAX_CLKDIV: u8 = 0b1111;

/// Maximum count-down value
pub const MAX_CDV: u16 = 0xFFFF;

/// Frequency of the ring oscillator in kilohertz.
pub const ROSC_KHZ: u32 = 16_000;

/// The value written to refresh the watchdog. Any value does.
pub const CLEAR_VALUE: u16 = 0b0101;

/// Timeouts of this many milliseconds and more are not supported.
pub const TIMEOUT_LIMIT_MS: u32 = 32_768;

/// Clock that the watchdog counts.
#[derive(Clone, Copy, Debug, PartialEq, Eq, Structural)]
pub enum ClockSelect {
    /// FR Clock
    Frclk,
    /// ROSC Clock
    Roscclk,
}

/// The fields of the control register.
#[derive(Clone, Copy, Debug, PartialEq, Eq, Structural)]
pub struct Control {
    /// Whether the watchdog runs.
    pub enabled: bool,
    /// Whether the watchdog interrupts.
    pub interrupt_enabled: bool,
    /// Whether the watchdog resets the device.
    pub reset_enabled: bool,
    /// Clock selection.
    pub clock: ClockSelect,
    /// Input clock divider: the clock is divided by two to this power.
    pub clkdiv: u8,
}

/// One write to a register of the watchdog.
#[derive(Clone, Copy, Debug, PartialEq, Eq, Structural)]
pub enum WwdtWrite {
    /// Write the lock key.
    Lock(u32),
    /// Write the whole control register.
    Control(Control),
    /// Set the input clock divider and leave the rest of the control
    /// register as it is.
    ClockDivider(u8),
    /// Write the whole count-down control register: count-down value and
    /// window.
    Countdown {
        /// Count down value
        cdv: u16,
        /// Window value
        window: u16,
    },
    /// Set the count-down value and leave the window as it is.
    CountdownValue(u16),
    /// Write the clear register, which restarts the count-down.
    Clear(u16),
}

/// The fields of the watchdog's registers.
#[derive(Clone, Copy, Debug, PartialEq, Eq, Structural)]
pub struct WwdtFields {
    /// Lock key.
    pub lock: u32,
    /// Control register.
    pub control: Control,
    /// Count down value
    pub cdv: u16,
    /// Window value
    pub window: u16,
}

/// The control register as a reset leaves it.
pub open spec fn reset_control() -> Control {
    Control {
        enabled: false,
        interrupt_enabled: false,
        reset_enabled: false,
        clock: ClockSelect::Frclk,
        clkdiv: 0,
    }
}

/// The fields after one write.
pub open spec fn apply_write(fields: WwdtFields, write: WwdtWrite) -> WwdtFields {
    match write {
        WwdtWrite::Lock(key) => WwdtFields { lock: key, ..fields },
        WwdtWrite::Control(control) => WwdtFields { control, ..fields },
        WwdtWrite::ClockDivider(clkdiv) => WwdtFields {
            control: Control { clkdiv, ..fields.control },
            ..fields
        },
        WwdtWrite::Countdown { cdv, window } => WwdtFields { cdv, window, ..fields },
        WwdtWrite::CountdownValue(cdv) => WwdtFields { cdv, ..fields },
        WwdtWrite::Clear(_) => fields,
    }
}

/// Whether a write leaves the input clock divider within its four bits.
pub open spec fn admissible(write: WwdtWrite) -> bool {
    match write {
        WwdtWrite::Control(control) => control.clkdiv <= MAX_CLKDIV,
        WwdtWrite::ClockDivider(clkdiv) => clkdiv <= MAX_CLKDIV,
        _ => true,
    }
}

/// Register values with the input clock divider within its four bits.
struct Bounded {
    fields: WwdtFields,
}

impl Bounded {
    #[verifier::type_invariant]
    spec fn bounded(self) -> bool {
        self.fields.control.clkdiv <= MAX_CLKDIV
    }

    fn new(fields: WwdtFields) -> (values: Self)
        requires
            fields.control.clkdiv <= MAX_CLKDIV,
        ensures
            values.fields == fields,
    {
        Bounded { fields }
    }

    fn get(&self) -> (fields: WwdtFields)
        ensures
            fields == self.fields,
            fields.control.clkdiv <= MAX_CLKDIV,
    {
        proof {
            use_type_invariant(self);
        }
        self.fields
    }
}

/// The registers of the watchdog as plain values, with a journal of the
/// writes made to them. The input clock divider is at most 15 in every value
/// of the type.
pub struct WwdtRegisters {
    values: Bounded,
    journal: Vec<WwdtWrite>,
}

impl WwdtRegisters {
    /// The fields as they stand.
    pub closed spec fn fields(&self) -> WwdtFields {
        self.values.fields
    }

    /// The writes made and not yet taken, oldest first.
    pub closed spec fn journal(&self) -> Seq<WwdtWrite> {
        self.journal@
    }

    /// The registers as a reset leaves them, with nothing written.
    pub fn new() -> (regs: Self)
        ensures
            regs.fields() == (WwdtFields { lock: 0, control: reset_control(), cdv: 0, window: 0 }),
            regs.journal() == Seq::<WwdtWrite>::empty(),
    {
        WwdtRegisters {
            values: Bounded::new(
                WwdtFields {
                    lock: 0,
                    control: Control {
                        enabled: false,
                        interrupt_enabled: false,
                        reset_enabled: false,
                        clock: ClockSelect::Frclk,
                        clkdiv: 0,
                    },
                    cdv: 0,
                    window: 0,
                },
            ),
            journal: Vec::new(),
        }
    }

    /// The registers with the given fields, as read from a device, and with
    /// nothing written. Fields with an input clock divider above 15 are
    /// refused.
    pub fn with_fields(fields: WwdtFields) -> (regs: Option<Self>)
        ensures
            regs is Some <==> fields.control.clkdiv <= MAX_CLKDIV,
            regs matches Some(regs) ==> regs.fields() == fields && regs.journal() == Seq::<
                WwdtWrite,
            >::empty(),
    {
        if fields.control.clkdiv <= MAX_CLKDIV {
            Some(WwdtRegisters { values: Bounded::new(fields), journal: Vec::new() })
        } else {
            None
        }
    }

    /// Reads all fields.
    pub fn read(&self) -> (fields: WwdtFields)
        ensures
            fields == self.fields(),
            fields.control.clkdiv <= MAX_CLKDIV,
    {
        self.values.get()
    }

    /// Makes one write: it takes effect on the fields and joins the journal.
    pub(crate) fn write(&mut self, write: WwdtWrite)
        requires
            admissible(write),
        ensures
            final(self).fields() == apply_write(old(self).fields(), write),
            final(self).journal() == old(self).journal().push(write),
    {
        let fields = self.values.get();
        let updated = match write {
            WwdtWrite::Lock(key) => WwdtFields { lock: key, ..fields },
            WwdtWrite::Control(control) => WwdtFields { control, ..fields },
            WwdtWrite::ClockDivider(clkdiv) => WwdtFields {
                control: Control { clkdiv, ..fields.control },
                ..fields
            },
            WwdtWrite::Countdown { cdv, window } => WwdtFields { cdv, window, ..fields },
            WwdtWrite::CountdownValue(cdv) => WwdtFields { cdv, ..fields },
            WwdtWrite::Clear(_) => fields,
        };
        self.values = Bounded::new(updated);
        self.journal.push(write);
    }

    /// Hands out the journal, oldest write first, and leaves it empty. The
    /// fields stay as they are.
    pub fn take_journal(&mut self) -> (writes: Vec<WwdtWrite>)
        ensures
            writes@ == old(self).journal(),
            final(self).journal() == Seq::<WwdtWrite>::empty(),
            final(self).fields() == old(self).fields(),
    {
        let mut writes: Vec<WwdtWrite> = Vec::new();
        core::mem::swap(&mut self.journal, &mut writes);
        writes
    }
}

/// What the input clock divider `clkdiv` divides the clock by: two to that
/// power.
pub open spec fn clock_divisor(clkdiv: u8) -> nat {
    match clkdiv {
        0 => 1,
        1 => 2,
        2 => 4,
        3 => 8,
        4 => 16,
        5 => 32,
        6 => 64,
        7 => 128,
        8 => 256,
        9 => 512,
        10 => 1024,
        11 => 2048,
        12 => 4096,
        13 => 8192,
        14 => 16384,
        _ => 32768,
    }
}

/// The timeout in whole milliseconds with the input clock divider `clkdiv`
/// and the count-down value `cdv`: `cdv + 1` ticks of the 16 MHz ring
/// oscillator divided by two to the power `clkdiv`.
pub open spec fn spec_timeout_period(clkdiv: u8, cdv: u16) -> nat {
    ((cdv + 1) * clock_divisor(clkdiv)) as nat / (ROSC_KHZ as nat)
}

/// The longest timeout, in whole milliseconds, for which the input clock
/// divider `clkdiv` is chosen.
pub open spec fn divider_limit(clkdiv: u8) -> nat {
    (16 * clock_divisor(clkdiv)) as nat / (ROSC_KHZ as nat)
}

/// The input clock divider chosen for a timeout from `from` on: the first
/// below 14 whose limit the timeout does not exceed, and 15 where there is
/// none.
pub open spec fn divider_from(timeout_ms: nat, from: u8) -> u8
    decreases 14 - from,
{
    if from >= 14 {
        MAX_CLKDIV
    } else if timeout_ms <= divider_limit(from) {
        from
    } else {
        divider_from(timeout_ms, (from + 1) as u8)
    }
}

/// The input clock divider chosen for a timeout.
pub open spec fn chosen_divider(timeout_ms: nat) -> u8 {
    divider_from(timeout_ms, 0)
}

/// The count-down value chosen for a timeout: the timeout's share of the
/// longest period that the chosen divider allows, in 65535ths, and at most
/// 65535.
pub open spec fn chosen_countdown(timeout_ms: nat) -> u16 {
    let longest = spec_timeout_period(chosen_divider(timeout_ms), MAX_CDV);
    let share = timeout_ms * 65535 / longest;
    if share > 65535 {
        MAX_CDV
    } else {
        share as u16
    }
}

/// The writes that set the watchdog up for a timeout, in order.
pub open spec fn setup_writes(timeout_ms: nat) -> Seq<WwdtWrite> {
    seq![
        WwdtWrite::Lock(KEY_READ_WRITE),
        WwdtWrite::Control(Control { clock: ClockSelect::Roscclk, ..reset_control() }),
        WwdtWrite::Countdown { cdv: 0, window: 0 },
        WwdtWrite::Control(Control { reset_enabled: true, ..reset_control() }),
        WwdtWrite::ClockDivider(chosen_divider(timeout_ms)),
        WwdtWrite::CountdownValue(chosen_countdown(timeout_ms)),
    ]
}

/// The writes that set the watchdog up for a timeout and start it, in
/// order.
pub open spec fn start_writes(timeout_ms: nat) -> Seq<WwdtWrite> {
    setup_writes(timeout_ms).push(
        WwdtWrite::Control(Control { enabled: true, ..reset_control() }),
    ).push(WwdtWrite::Lock(KEY_READ_ONLY))
}

/// The divider chosen from `from` on is the least divider from there to 13
/// whose limit holds the timeout, and 15 where none of them does.
pub proof fn lemma_divider_from_least(timeout_ms: nat, from: u8)
    requires
        from <= 14,
    ensures
        from <= divider_from(timeout_ms, from) <= MAX_CLKDIV,
        divider_from(timeout_ms, from) < 14 ==> timeout_ms <= divider_limit(
            divider_from(timeout_ms, from),
        ),
        divider_from(timeout_ms, from) >= 14 ==> divider_from(timeout_ms, from) == MAX_CLKDIV,
        forall|earlier: u8|
            from <= earlier < 14 && earlier < divider_from(timeout_ms, from) ==> timeout_ms
                > #[trigger] divider_limit(earlier),
    decreases 14 - from,
{
    if from < 14 && timeout_ms > divider_limit(from) {
        lemma_divider_from_least(timeout_ms, (from + 1) as u8);
    }
}

/// Window watchdog.
pub struct WindowWatchdog {
    /// The registers.
    pub wwdt: WwdtRegisters,
}

impl WindowWatchdog {
    /// Creates a new `WindowWatchdog` without starting it. Call `start` to start the watchdog.
    /// See `WatchdogEnable` and `Watchdog` for more info.
    pub fn new(wwdt: WwdtRegisters) -> (watchdog: Self)
        ensures
            watchdog.wwdt == wwdt,
    {
        WindowWatchdog { wwdt }
    }

    /// Sets the watchdog timer timeout period. Max: 32768 ms
    pub fn setup(&mut self, timeout_ms: MilliSeconds)
        requires
            timeout_ms@ < TIMEOUT_LIMIT_MS,
        ensures
            final(self).wwdt.journal() == old(self).wwdt.journal() + setup_writes(timeout_ms@),
            final(self).wwdt.fields() == (WwdtFields {
                lock: KEY_READ_WRITE,
                control: Control {
                    reset_enabled: true,
                    clkdiv: chosen_divider(timeout_ms@),
                    ..reset_control()
                },
                cdv: chosen_countdown(timeout_ms@),
                window: 0,
            }),
    {
        let ghost journal = self.wwdt.journal();
        self.write_unprotect();
        // select fixed 16MHz clock
        self.wwdt.write(
            WwdtWrite::Control(
                Control {
                    enabled: false,
                    interrupt_enabled: false,
                    reset_enabled: false,
                    clock: ClockSelect::Roscclk,
                    clkdiv: 0,
                },
            ),
        );
        self.wwdt.write(WwdtWrite::Countdown { cdv: 0, window: 0 });
        self.wwdt.write(
            WwdtWrite::Control(
                Control {
                    enabled: false,
                    interrupt_enabled: false,
                    reset_enabled: true,
                    clock: ClockSelect::Frclk,
                    clkdiv: 0,
                },
            ),
        );
        let clkdiv = Self::choose_divider(timeout_ms.ticks());
        let max_period: u32 = Self::timeout_period(clkdiv, MAX_CDV);
        let max_cdv: u32 = MAX_CDV as u32;
        let ticks: u32 = timeout_ms.ticks();
        assert(max_period >= 4);
        assert(ticks * max_cdv <= 32767 * 65535) by (nonlinear_arith)
            requires
                ticks <= 32767,
                max_cdv == 65535,
        ;
        let share: u32 = ticks * max_cdv / max_period;
        let cdv: u16 = if share > max_cdv {
            MAX_CDV
        } else {
            share as u16
        };
        self.wwdt.write(WwdtWrite::ClockDivider(clkdiv));
        self.wwdt.write(WwdtWrite::CountdownValue(cdv));
        assert(self.wwdt.journal() =~= journal + setup_writes(timeout_ms@));
    }

    /// The input clock divider for a timeout in milliseconds.
    pub fn choose_divider(timeout_ms: u32) -> (clkdiv: u8)
        ensures
            clkdiv == chosen_divider(timeout_ms as nat),
            clkdiv <= MAX_CLKDIV,
    {
        let mut clkdiv: u8 = MAX_CLKDIV;
        let mut i: u8 = 0;
        while i < 14
            invariant_except_break
                i <= 14,
                clkdiv == MAX_CLKDIV,
                chosen_divider(timeout_ms as nat) == divider_from(timeout_ms as nat, i),
            ensures
                clkdiv == chosen_divider(timeout_ms as nat),
            decreases 14 - i,
        {
            assert((16u32 << i) == 16 * clock_divisor(i)) by (bit_vector)
                requires
                    i < 14,
            ;
            if timeout_ms <= (16u32 << i) / ROSC_KHZ {
                clkdiv = i;
                break ;
            }
            i += 1;
        }
        proof {
            lemma_divider_from_least(timeout_ms as nat, 0);
        }
        clkdiv
    }

    /// Returns the interval in ms
    pub fn interval(&self) -> (interval: MilliSeconds)
        ensures
            interval@ == spec_timeout_period(
                self.wwdt.fields().control.clkdiv,
                self.wwdt.fields().cdv,
            ),
    {
        let fields = self.wwdt.read();
        let ms = Self::timeout_period(fields.control.clkdiv, fields.cdv);
        MilliSeconds::from_ticks(ms)
    }

    /// Returns timeout period in milliseconds
    ///
    /// * `clkdiv` - Clock divider value
    /// * `cdv` - Count down value
    pub fn timeout_period(clkdiv: u8, cdv: u16) -> (ms: u32)
        requires
            clkdiv <= MAX_CLKDIV,
        ensures
            ms == spec_timeout_period(clkdiv, cdv),
    {
        let divider: u32 = 1u32 << clkdiv;
        assert(divider == clock_divisor(clkdiv)) by (bit_vector)
            requires
                clkdiv <= 15,
                divider == 1u32 << clkdiv,
        ;
        assert((cdv + 1) * divider <= 65536 * 32768) by (nonlinear_arith)
            requires
                cdv <= 65535,
                divider <= 32768,
        ;
        (cdv as u32 + 1) * divider / ROSC_KHZ
    }

    fn write_unprotect(&mut self)
        ensures
            final(self).wwdt.journal() == old(self).wwdt.journal().push(
                WwdtWrite::Lock(KEY_READ_WRITE),
            ),
            final(self).wwdt.fields() == (WwdtFields {
                lock: KEY_READ_WRITE,
                ..old(self).wwdt.fields()
            }),
    {
        self.wwdt.write(WwdtWrite::Lock(KEY_READ_WRITE));
    }

    fn write_protect(&mut self)
        ensures
            final(self).wwdt.journal() == old(self).wwdt.journal().push(
                WwdtWrite::Lock(KEY_READ_ONLY),
            ),
            final(self).wwdt.fields() == (WwdtFields {
                lock: KEY_READ_ONLY,
                ..old(self).wwdt.fields()
            }),
    {
        self.wwdt.write(WwdtWrite::Lock(KEY_READ_ONLY));
    }

    /// Sets the watchdog up for the period, starts it and closes its
    /// registers for writing. The write that starts it is a write of the
    /// whole control register: it leaves the watchdog enabled and every
    /// other field of that register at its reset value.
    pub fn start(&mut self, period: MilliSeconds)
        requires
            period@ < TIMEOUT_LIMIT_MS,
        ensures
            final(self).wwdt.journal() == old(self).wwdt.journal() + start_writes(period@),
            final(self).wwdt.fields() == (WwdtFields {
                lock: KEY_READ_ONLY,
                control: Control { enabled: true, ..reset_control() },
                cdv: chosen_countdown(period@),
                window: 0,
            }),
    {
        let ghost journal = self.wwdt.journal();
        self.setup(period);
        self.wwdt.write(
            WwdtWrite::Control(
                Control {
                    enabled: true,
                    interrupt_enabled: false,
                    reset_enabled: false,
                    clock: ClockSelect::Frclk,
                    clkdiv: 0,
                },
            ),
        );
        self.write_protect();
        assert(self.wwdt.journal() =~= journal + start_writes(period@));
    }

    /// Restarts the count-down.
    pub fn feed(&mut self)
        ensures
            final(self).wwdt.journal() == old(self).wwdt.journal().push(
                WwdtWrite::Clear(CLEAR_VALUE),
            ),
            final(self).wwdt.fields() == old(self).wwdt.fields(),
    {
        // value doesn't matter
        self.wwdt.write(WwdtWrite::Clear(CLEAR_VALUE));
    }
}

} // verus!
