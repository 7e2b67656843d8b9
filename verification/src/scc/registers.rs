//! The system and clock control registers as plain values, with a journal
//! of the writes made to them.
//!
//! Drivers change the registers only through [`SccRegisters::write`], one
//! register write at a time. Each write takes effect on the values held here
//! and is appended to the journal, so that the same writes can be replayed,
//! in the same order, on the device.

use vstd::prelude::*;
use crate::scc::config::{FrclkMux, PllConfig, PllOutPrescaler, SystemClock};
use crate::scc::prescaler::{AClockPrescaler, HClockPrescaler, PClockPrescaler};

verus! {

/// Mode of a USART block.
#[derive(Clone, Copy, Debug, PartialEq, Eq, Structural)]
pub enum UsartMode {
    /// Synchronous serial port.
    Ssp,
    /// Asynchronous receiver and transmitter.
    Uart,
}

/// One write to a system and clock control register.
#[derive(Clone, Copy, Debug, PartialEq, Eq, Structural)]
pub enum SccWrite {
    /// Switch the ring oscillator on.
    RoscEnable,
    /// Select the source of the free-running clock.
    FrclkMux(FrclkMux),
    /// Select the input of the system clock.
    SclkMux(SystemClock),
    /// Program the PLL: output, input and feedback dividers, bypass and
    /// enable, all in one write of the PLL control register.
    PllControl(PllConfig),
    /// Set the HCLK divider.
    HclkDiv(HClockPrescaler),
    /// Set the ACLK divider.
    AclkDiv(AClockPrescaler),
    /// Set the PCLK divider.
    PclkDiv(PClockPrescaler),
    /// Set the mode of USART A.
    UsartAMode(UsartMode),
}

/// The fields of the clock control and PLL control registers.
#[derive(Clone, Copy, Debug, PartialEq, Eq, Structural)]
pub struct SccFields {
    /// Source of the free-running clock.
    pub frclk_mux: FrclkMux,
    /// Whether the ring oscillator is on.
    pub rosc_enabled: bool,
    /// Input of the system clock.
    pub sclk_mux: SystemClock,
    /// HCLK divider.
    pub hclk_div: HClockPrescaler,
    /// ACLK divider.
    pub aclk_div: AClockPrescaler,
    /// PCLK divider.
    pub pclk_div: PClockPrescaler,
    /// Mode of USART A.
    pub usart_a_mode: UsartMode,
    /// PLL dividers, bypass and enable.
    pub pll: PllConfig,
    /// PLL lock status, set by the hardware alone.
    pub pll_locked: bool,
}

/// The fields after one write. The lock status is the hardware's to change
/// and no write touches it.
pub open spec fn apply_write(fields: SccFields, write: SccWrite) -> SccFields {
    match write {
        SccWrite::RoscEnable => SccFields { rosc_enabled: true, ..fields },
        SccWrite::FrclkMux(mux) => SccFields { frclk_mux: mux, ..fields },
        SccWrite::SclkMux(mux) => SccFields { sclk_mux: mux, ..fields },
        SccWrite::PllControl(pll) => SccFields { pll, ..fields },
        SccWrite::HclkDiv(div) => SccFields { hclk_div: div, ..fields },
        SccWrite::AclkDiv(div) => SccFields { aclk_div: div, ..fields },
        SccWrite::PclkDiv(div) => SccFields { pclk_div: div, ..fields },
        SccWrite::UsartAMode(mode) => SccFields { usart_a_mode: mode, ..fields },
    }
}

/// The fields after a sequence of writes, made first to last.
pub open spec fn apply_writes(fields: SccFields, writes: Seq<SccWrite>) -> SccFields
    decreases writes.len(),
{
    if writes.len() == 0 {
        fields
    } else {
        apply_write(apply_writes(fields, writes.drop_last()), writes.last())
    }
}

/// Making the writes of `first` and then those of `second` is making the
/// writes of their concatenation.
pub proof fn lemma_apply_writes_concat(
    fields: SccFields,
    first: Seq<SccWrite>,
    second: Seq<SccWrite>,
)
    ensures
        apply_writes(fields, first + second) == apply_writes(
            apply_writes(fields, first),
            second,
        ),
    decreases second.len(),
{
    if second.len() == 0 {
        assert(first + second =~= first);
    } else {
        lemma_apply_writes_concat(fields, first, second.drop_last());
        assert((first + second).drop_last() =~= first + second.drop_last());
        assert((first + second).last() == second.last());
    }
}

/// Making one more write after a sequence is applying that write to what
/// the sequence leaves.
pub proof fn lemma_apply_writes_push(fields: SccFields, writes: Seq<SccWrite>, write: SccWrite)
    ensures
        apply_writes(fields, writes.push(write)) == apply_write(
            apply_writes(fields, writes),
            write,
        ),
{
    assert(writes.push(write).drop_last() =~= writes);
}

/// The fields as they stand after a reset of the device.
pub open spec fn reset_fields() -> SccFields {
    SccFields {
        frclk_mux: FrclkMux::Rosc,
        rosc_enabled: false,
        sclk_mux: SystemClock::FRCLK,
        hclk_div: HClockPrescaler::SclkDiv1,
        aclk_div: AClockPrescaler::SclkDiv1,
        pclk_div: PClockPrescaler::HclkDiv1,
        usart_a_mode: UsartMode::Ssp,
        pll: PllConfig {
            fbdiv: 0,
            indiv: 0,
            outdiv: PllOutPrescaler::Div1,
            bypass: false,
            enabled: false,
        },
        pll_locked: false,
    }
}

/// The system and clock control registers.
pub struct SccRegisters {
    fields: SccFields,
    journal: Vec<SccWrite>,
}

impl SccRegisters {
    /// The fields as they stand.
    pub closed spec fn fields(&self) -> SccFields {
        self.fields
    }

    /// The writes made and not yet taken, oldest first.
    pub closed spec fn journal(&self) -> Seq<SccWrite> {
        self.journal@
    }

    /// The registers as a reset leaves them, with nothing written.
    pub fn new() -> (regs: Self)
        ensures
            regs.fields() == reset_fields(),
            regs.journal() == Seq::<SccWrite>::empty(),
    {
        SccRegisters {
            fields: SccFields {
                frclk_mux: FrclkMux::Rosc,
                rosc_enabled: false,
                sclk_mux: SystemClock::FRCLK,
                hclk_div: HClockPrescaler::SclkDiv1,
                aclk_div: AClockPrescaler::SclkDiv1,
                pclk_div: PClockPrescaler::HclkDiv1,
                usart_a_mode: UsartMode::Ssp,
                pll: PllConfig::default(),
                pll_locked: false,
            },
            journal: Vec::new(),
        }
    }

    /// The registers with the given fields, as read from a device, and with
    /// nothing written.
    pub fn with_fields(fields: SccFields) -> (regs: Self)
        ensures
            regs.fields() == fields,
            regs.journal() == Seq::<SccWrite>::empty(),
    {
        SccRegisters { fields, journal: Vec::new() }
    }

    /// Reads all fields.
    pub fn read(&self) -> (fields: SccFields)
        ensures
            fields == self.fields(),
    {
        self.fields
    }

    /// Reads the PLL lock status.
    pub fn pll_locked(&self) -> (locked: bool)
        ensures
            locked == self.fields().pll_locked,
    {
        self.fields.pll_locked
    }

    /// Records the PLL lock status as the hardware reports it. This is no
    /// write: the journal stays as it is.
    pub fn set_pll_locked(&mut self, locked: bool)
        ensures
            final(self).fields() == (SccFields { pll_locked: locked, ..old(self).fields() }),
            final(self).journal() == old(self).journal(),
    {
        self.fields.pll_locked = locked;
    }

    /// Makes one write: it takes effect on the fields and joins the journal.
    pub fn write(&mut self, write: SccWrite)
        ensures
            final(self).fields() == apply_write(old(self).fields(), write),
            final(self).journal() == old(self).journal().push(write),
    {
        match write {
            SccWrite::RoscEnable => {
                self.fields.rosc_enabled = true;
            },
            SccWrite::FrclkMux(mux) => {
                self.fields.frclk_mux = mux;
            },
            SccWrite::SclkMux(mux) => {
                self.fields.sclk_mux = mux;
            },
            SccWrite::PllControl(pll) => {
                self.fields.pll = pll;
            },
            SccWrite::HclkDiv(div) => {
                self.fields.hclk_div = div;
            },
            SccWrite::AclkDiv(div) => {
                self.fields.aclk_div = div;
            },
            SccWrite::PclkDiv(div) => {
                self.fields.pclk_div = div;
            },
            SccWrite::UsartAMode(mode) => {
                self.fields.usart_a_mode = mode;
            },
        }
        self.journal.push(write);
    }

    /// Makes the given writes, first to last.
    pub fn write_all(&mut self, writes: &Vec<SccWrite>)
        ensures
            final(self).fields() == apply_writes(old(self).fields(), writes@),
            final(self).journal() == old(self).journal() + writes@,
    {
        let ghost fields0 = self.fields();
        let ghost journal0 = self.journal();
        let mut i: usize = 0;
        assert(writes@.take(0) =~= Seq::<SccWrite>::empty());
        assert(journal0 + Seq::<SccWrite>::empty() =~= journal0);
        while i < writes.len()
            invariant
                i <= writes.len(),
                self.fields() == apply_writes(fields0, writes@.take(i as int)),
                self.journal() == journal0 + writes@.take(i as int),
            decreases writes.len() - i,
        {
            self.write(writes[i]);
            proof {
                let done = writes@.take(i as int);
                assert(writes@.take(i + 1) =~= done.push(writes@[i as int]));
                lemma_apply_writes_push(fields0, done, writes@[i as int]);
                assert((journal0 + done).push(writes@[i as int]) =~= journal0 + done.push(
                    writes@[i as int],
                ));
            }
            i += 1;
        }
        assert(writes@.take(writes.len() as int) =~= writes@);
    }

    /// Hands out the journal, oldest write first, and leaves it empty. The
    /// fields stay as they are.
    pub fn take_journal(&mut self) -> (writes: Vec<SccWrite>)
        ensures
            writes@ == old(self).journal(),
            final(self).journal() == Seq::<SccWrite>::empty(),
            final(self).fields() == old(self).fields(),
    {
        let mut writes: Vec<SccWrite> = Vec::new();
        core::mem::swap(&mut self.journal, &mut writes);
        writes
    }
}

} // verus!
