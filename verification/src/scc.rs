//! System and clock control: applies a clock tree configuration to the
//! registers and derives the frequencies of the four clock domains.
//!
//! The free-running clock (FRCLK) feeds the system clock (SCLK) either
//! directly or through the PLL. HCLK and ACLK are divided down from SCLK, and
//! PCLK from HCLK. The registers are programmed in that order, each stage
//! after the one it is derived from.

pub mod config;
pub mod prescaler;
pub mod registers;

pub use config::{
    ClockSource, Config, ConfigError, ConfigField, FrclkMux, PllConfig, PllOutPrescaler,
    SystemClock,
};
pub use prescaler::{AClockPrescaler, HClockPrescaler, PClockPrescaler};
pub use registers::{SccFields, SccRegisters, SccWrite, UsartMode};

use vstd::prelude::*;
use crate::scc::config::{pll_out_hz, pll_vco_hz};
use crate::scc::registers::{apply_writes, lemma_apply_writes_concat, lemma_apply_writes_push};
use crate::time::Hertz;

verus! {

/// The four clock frequencies in hertz, as mathematical integers.
pub struct ClocksHz {
    /// System clock frequency.
    pub sclk: nat,
    /// AHB clock frequency.
    pub hclk: nat,
    /// Auxiliary clock frequency.
    pub aclk: nat,
    /// Peripheral clock frequency.
    pub pclk: nat,
}

/// Clock frequencies.
///
/// Every value of this type has HCLK and ACLK at most SCLK, and PCLK at most
/// HCLK: each is its parent divided by a whole number.
#[derive(Clone, Copy, Debug)]
pub struct Clocks {
    sclk: Hertz,
    hclk: Hertz,
    aclk: Hertz,
    pclk: Hertz,
}

impl Clocks {
    /// The four frequencies in hertz.
    pub closed spec fn view(&self) -> ClocksHz {
        ClocksHz { sclk: self.sclk@, hclk: self.hclk@, aclk: self.aclk@, pclk: self.pclk@ }
    }

    /// No derived clock is faster than the clock it is derived from.
    pub open spec fn ordered(hz: ClocksHz) -> bool {
        &&& hz.hclk <= hz.sclk
        &&& hz.aclk <= hz.sclk
        &&& hz.pclk <= hz.hclk
    }

    #[verifier::type_invariant]
    spec fn inv(self) -> bool {
        Self::ordered(self@)
    }

    /// System clock frequency.
    pub fn sclk(&self) -> (freq: Hertz)
        ensures
            freq@ == self@.sclk,
    {
        self.sclk
    }

    /// AHB clock frequency.
    pub fn hclk(&self) -> (freq: Hertz)
        ensures
            freq@ == self@.hclk,
            freq@ <= self@.sclk,
    {
        proof {
            use_type_invariant(self);
        }
        self.hclk
    }

    /// Auxiliary clock frequency.
    pub fn aclk(&self) -> (freq: Hertz)
        ensures
            freq@ == self@.aclk,
            freq@ <= self@.sclk,
    {
        proof {
            use_type_invariant(self);
        }
        self.aclk
    }

    /// Peripheral clock frequency.
    pub fn pclk(&self) -> (freq: Hertz)
        ensures
            freq@ == self@.pclk,
            freq@ <= self@.hclk,
    {
        proof {
            use_type_invariant(self);
        }
        self.pclk
    }
}

impl Default for Clocks {
    fn default() -> (clocks: Self)
        ensures
            clocks@ == (ClocksHz { sclk: 0, hclk: 0, aclk: 0, pclk: 0 }),
    {
        Self { sclk: Hertz::Hz(0), hclk: Hertz::Hz(0), aclk: Hertz::Hz(0), pclk: Hertz::Hz(0) }
    }
}

/// The system clock frequency in hertz that a configuration yields: the
/// free-running clock itself, or the PLL output for it.
pub open spec fn sclk_hz(config: Config) -> nat {
    match config.sclk_mux {
        SystemClock::FRCLK => config.frclk_mux.spec_frequency(),
        SystemClock::PLLCLK => pll_out_hz(
            config.frclk_mux.spec_frequency(),
            config.pll.fbdiv as nat,
            config.pll.indiv as nat,
            config.pll.outdiv,
        ),
    }
}

/// The frequencies that a configuration yields: HCLK and ACLK are divided
/// down from SCLK, and PCLK from HCLK, each to whole hertz.
pub open spec fn derived_clocks(config: Config) -> ClocksHz {
    let sclk = sclk_hz(config);
    let hclk = config.hclk.spec_divide(sclk);
    ClocksHz {
        sclk,
        hclk,
        aclk: config.aclk.spec_divide(sclk),
        pclk: config.pclk.spec_divide(hclk),
    }
}

/// The writes that select the source of the free-running clock. The ring
/// oscillator is switched on before it is selected.
pub open spec fn source_writes(config: Config) -> Seq<SccWrite> {
    match config.frclk_mux {
        ClockSource::RingOsc => seq![SccWrite::RoscEnable, SccWrite::FrclkMux(FrclkMux::Rosc)],
        ClockSource::RefClock => seq![SccWrite::FrclkMux(FrclkMux::Clkref)],
        ClockSource::External(_) => seq![SccWrite::FrclkMux(FrclkMux::Extclk)],
    }
}

/// The writes made before the PLL is waited for: the source selection and,
/// where the PLL feeds the system clock, the one write that programs it.
pub open spec fn writes_before_lock(config: Config) -> Seq<SccWrite> {
    match config.sclk_mux {
        SystemClock::FRCLK => source_writes(config),
        SystemClock::PLLCLK => source_writes(config).push(SccWrite::PllControl(config.pll)),
    }
}

/// The writes of the divider stages: HCLK always, then ACLK and PCLK, each
/// where its domain is enabled.
pub open spec fn divider_writes(config: Config) -> Seq<SccWrite> {
    let hclk = seq![SccWrite::HclkDiv(config.hclk)];
    let aclk = if config.aclk_enable {
        hclk.push(SccWrite::AclkDiv(config.aclk))
    } else {
        hclk
    };
    if config.pclk_enable {
        aclk.push(SccWrite::PclkDiv(config.pclk))
    } else {
        aclk
    }
}

/// The writes made once the system clock's input is ready: the system clock
/// selection, then the divider stages.
pub open spec fn writes_after_lock(config: Config) -> Seq<SccWrite> {
    seq![SccWrite::SclkMux(config.sclk_mux)] + divider_writes(config)
}

/// All writes that apply a configuration, in the order in which they are
/// made: FRCLK, then SCLK, then HCLK, then ACLK and PCLK.
pub open spec fn programming_sequence(config: Config) -> Seq<SccWrite> {
    writes_before_lock(config) + writes_after_lock(config)
}

/// The fields once the PLL has been programmed: the source is selected, the
/// ring oscillator is on where it is the source, and the PLL control holds
/// the configuration's PLL settings where the PLL feeds the system clock.
/// Everything else is as it was.
pub open spec fn fields_before_lock(fields: SccFields, config: Config) -> SccFields {
    SccFields {
        frclk_mux: config.frclk_mux.spec_mux(),
        rosc_enabled: fields.rosc_enabled || config.frclk_mux is RingOsc,
        pll: if config.sclk_mux is PLLCLK {
            config.pll
        } else {
            fields.pll
        },
        ..fields
    }
}

/// The fields once the divider stages have been programmed: the system clock
/// selection and the HCLK divider are the configuration's, and so are the
/// ACLK and PCLK dividers where their domains are enabled. Everything else is
/// as it was.
pub open spec fn fields_after_lock(fields: SccFields, config: Config) -> SccFields {
    SccFields {
        sclk_mux: config.sclk_mux,
        hclk_div: config.hclk,
        aclk_div: if config.aclk_enable {
            config.aclk
        } else {
            fields.aclk_div
        },
        pclk_div: if config.pclk_enable {
            config.pclk
        } else {
            fields.pclk_div
        },
        ..fields
    }
}

/// The fields once a configuration has been applied in full.
pub open spec fn programmed_fields(fields: SccFields, config: Config) -> SccFields {
    fields_after_lock(fields_before_lock(fields, config), config)
}

/// Why a configuration was not applied.
#[derive(Clone, Copy, Debug, PartialEq, Eq, Structural)]
pub enum FreezeError {
    /// The configuration is invalid. Nothing was written.
    Config(ConfigError),
    /// The PLL was programmed and did not report lock within the samples
    /// allowed. The system clock selection and the dividers were not
    /// written.
    HardwareTimeout,
}

/// What applying a configuration to registers with the given fields comes
/// to: the fields and frequencies afterwards, or the reason for which it
/// fails. It fails on an invalid configuration, and on a PLL that is to feed
/// the system clock and is not locked.
pub open spec fn freeze_result(fields: SccFields, config: Config) -> Result<
    (SccFields, ClocksHz),
    FreezeError,
> {
    match config.spec_validate() {
        Err(error) => Err(FreezeError::Config(error)),
        Ok(_) => if config.sclk_mux is PLLCLK && !fields.pll_locked {
            Err(FreezeError::HardwareTimeout)
        } else {
            Ok((programmed_fields(fields, config), derived_clocks(config)))
        },
    }
}

/// Derives the four frequencies from a configuration.
fn derive_clocks(config: &Config) -> (clocks: Clocks)
    ensures
        clocks@ == derived_clocks(*config),
{
    let frclk = config.frclk_mux.frequency();
    let sclk = match config.sclk_mux {
        SystemClock::FRCLK => frclk,
        SystemClock::PLLCLK => config.pll.out_freq(frclk),
    };
    let hdiv: u32 = config.hclk.code() as u32 + 1;
    let hclk = Hertz::Hz(sclk.to_Hz() / hdiv);
    let adiv: u32 = config.aclk.code() as u32 + 1;
    let aclk = Hertz::Hz(sclk.to_Hz() / adiv);
    let pdiv: u32 = config.pclk.code() as u32 + 1;
    let pclk = Hertz::Hz(hclk.to_Hz() / pdiv);
    proof {
        config.hclk.lemma_divides_by_code_plus_one(sclk@);
        config.aclk.lemma_divides_by_code_plus_one(sclk@);
        config.pclk.lemma_divides_by_code_plus_one(hclk@);
    }
    Clocks { sclk, hclk, aclk, pclk }
}

/// The writes made before the PLL is waited for, in order.
pub fn plan_before_lock(config: &Config) -> (writes: Vec<SccWrite>)
    ensures
        writes@ == writes_before_lock(*config),
{
    let mut writes: Vec<SccWrite> = Vec::new();
    match config.frclk_mux {
        ClockSource::RingOsc => {
            writes.push(SccWrite::RoscEnable);
            writes.push(SccWrite::FrclkMux(FrclkMux::Rosc));
        },
        ClockSource::RefClock => {
            writes.push(SccWrite::FrclkMux(FrclkMux::Clkref));
        },
        ClockSource::External(_) => {
            writes.push(SccWrite::FrclkMux(FrclkMux::Extclk));
        },
    }
    assert(writes@ =~= source_writes(*config));
    match config.sclk_mux {
        SystemClock::FRCLK => {},
        SystemClock::PLLCLK => {
            writes.push(SccWrite::PllControl(config.pll));
        },
    }
    writes
}

/// The writes made once the system clock's input is ready, in order.
pub fn plan_after_lock(config: &Config) -> (writes: Vec<SccWrite>)
    ensures
        writes@ == writes_after_lock(*config),
{
    let mut writes: Vec<SccWrite> = Vec::new();
    writes.push(SccWrite::SclkMux(config.sclk_mux));
    writes.push(SccWrite::HclkDiv(config.hclk));
    if config.aclk_enable {
        writes.push(SccWrite::AclkDiv(config.aclk));
    }
    if config.pclk_enable {
        writes.push(SccWrite::PclkDiv(config.pclk));
    }
    assert(writes@ =~= writes_after_lock(*config));
    writes
}

/// System and clock control.
pub struct Scc {
    /// The frequencies derived when a configuration was last applied, or
    /// all zero before.
    pub clocks: Clocks,
    /// The registers.
    pub reg: SccRegisters,
}

/// The clock tree engine held at the point where the PLL has been programmed
/// and has yet to report lock.
pub struct PllWait {
    scc: Scc,
    config: Config,
    polls_left: u32,
}

/// Where applying a configuration stands after its first part.
pub enum FreezeStep {
    /// The configuration is applied in full.
    Done(Scc),
    /// The PLL is programmed. The rest follows once it reports lock.
    AwaitingLock(PllWait),
}

/// What a sample of the PLL lock status leads to.
pub enum LockPoll {
    /// The PLL is locked and the configuration is applied in full.
    Done(Scc),
    /// The PLL is not locked yet. Sample again.
    Pending(PllWait),
    /// The PLL is not locked and no sample is left.
    TimedOut(Scc),
}

impl Scc {
    /// Return ownership of the registers.
    pub fn release(self) -> (regs: SccRegisters)
        ensures
            regs == self.reg,
    {
        self.reg
    }

    /// Makes the writes that follow the lock of the PLL, or the choice of
    /// the free-running clock, and derives the frequencies.
    fn complete(self, config: &Config) -> (scc: Scc)
        ensures
            scc.clocks@ == derived_clocks(*config),
            scc.reg.journal() == self.reg.journal() + writes_after_lock(*config),
            scc.reg.fields() == fields_after_lock(self.reg.fields(), *config),
    {
        let mut scc = self;
        let writes = plan_after_lock(config);
        scc.reg.write_all(&writes);
        scc.clocks = derive_clocks(config);
        proof {
            lemma_writes_after_lock_effect(self.reg.fields(), *config);
        }
        scc
    }

    /// Starts applying a clock configuration, up to the point where the PLL
    /// has to lock.
    ///
    /// An invalid configuration is refused before anything is written. With
    /// the free-running clock as system clock the configuration is applied
    /// in full. With the PLL, the source is selected and the PLL programmed;
    /// the caller then samples the lock status and hands each sample to
    /// [`PllWait::poll`], which gives up at the `max_polls`-th sample that
    /// shows no lock (at the first, where `max_polls` is zero).
    pub fn begin_freeze(self, config: Config, max_polls: u32) -> (r: Result<
        FreezeStep,
        (Scc, ConfigError),
    >)
        ensures
            r is Err <==> config.spec_validate() is Err,
            r matches Err((scc, error)) ==> {
                &&& config.spec_validate() == Err::<(), ConfigError>(error)
                &&& scc.clocks == self.clocks
                &&& scc.reg.fields() == self.reg.fields()
                &&& scc.reg.journal() == self.reg.journal()
            },
            r matches Ok(step) ==> (step is Done <==> config.sclk_mux is FRCLK),
            r matches Ok(FreezeStep::Done(scc)) ==> {
                &&& scc.clocks@ == derived_clocks(config)
                &&& scc.reg.journal() == self.reg.journal() + programming_sequence(config)
                &&& scc.reg.fields() == programmed_fields(self.reg.fields(), config)
            },
            r matches Ok(FreezeStep::AwaitingLock(wait)) ==> {
                &&& wait.config() == config
                &&& wait.polls_left() == max_polls
                &&& wait.scc().clocks == self.clocks
                &&& wait.scc().reg.journal() == self.reg.journal() + writes_before_lock(config)
                &&& wait.scc().reg.fields() == fields_before_lock(self.reg.fields(), config)
            },
    {
        match config.validate() {
            Err(error) => Err((self, error)),
            Ok(()) => {
                let mut scc = self;
                let writes = plan_before_lock(&config);
                scc.reg.write_all(&writes);
                proof {
                    lemma_writes_before_lock_effect(self.reg.fields(), config);
                }
                match config.sclk_mux {
                    SystemClock::FRCLK => {
                        let done = scc.complete(&config);
                        assert((self.reg.journal() + writes_before_lock(config))
                            + writes_after_lock(config) =~= self.reg.journal()
                            + programming_sequence(config));
                        Ok(FreezeStep::Done(done))
                    },
                    SystemClock::PLLCLK => Ok(
                        FreezeStep::AwaitingLock(PllWait { scc, config, polls_left: max_polls }),
                    ),
                }
            },
        }
    }

    /// Apply clock configuration.
    ///
    /// The registers are taken as they stand: where the PLL feeds the system
    /// clock, its lock status is sampled once, after it has been programmed,
    /// and a PLL that is not locked then is a timeout. A driver that waits
    /// for the hardware uses [`Scc::begin_freeze`] and [`PllWait::poll`]
    /// instead.
    ///
    /// On success the frequencies are derived from the configuration alone,
    /// and the writes are journalled in the order FRCLK, SCLK, HCLK, ACLK,
    /// PCLK. An invalid configuration is refused before anything is written.
    /// After a timeout the source selection and the PLL stay programmed, and
    /// the system clock selection and the dividers are as they were.
    pub fn freeze(self, config: Config) -> (r: Result<Scc, (Scc, FreezeError)>)
        ensures
            r is Ok <==> freeze_result(self.reg.fields(), config) is Ok,
            r matches Ok(scc) ==> {
                &&& freeze_result(self.reg.fields(), config) == Ok::<
                    (SccFields, ClocksHz),
                    FreezeError,
                >((scc.reg.fields(), scc.clocks@))
                &&& scc.clocks@ == derived_clocks(config)
                &&& scc.reg.fields() == programmed_fields(self.reg.fields(), config)
                &&& scc.reg.journal() == self.reg.journal() + programming_sequence(config)
                &&& Clocks::ordered(scc.clocks@)
            },
            r matches Err((scc, error)) ==> {
                &&& freeze_result(self.reg.fields(), config) == Err::<
                    (SccFields, ClocksHz),
                    FreezeError,
                >(error)
                &&& scc.clocks == self.clocks
            },
            r matches Err((scc, FreezeError::Config(_))) ==> {
                &&& scc.reg.fields() == self.reg.fields()
                &&& scc.reg.journal() == self.reg.journal()
            },
            r matches Err((scc, FreezeError::HardwareTimeout)) ==> {
                &&& scc.reg.fields() == fields_before_lock(self.reg.fields(), config)
                &&& scc.reg.journal() == self.reg.journal() + writes_before_lock(config)
            },
    {
        let locked = self.reg.pll_locked();
        proof {
            lemma_derived_clocks_ordered(config);
        }
        match self.begin_freeze(config, 1) {
            Err((scc, error)) => Err((scc, FreezeError::Config(error))),
            Ok(FreezeStep::Done(scc)) => Ok(scc),
            Ok(FreezeStep::AwaitingLock(wait)) => {
                let ghost before = wait.scc().reg.fields();
                assert(before == (SccFields { pll_locked: locked, ..before }));
                match wait.poll(locked) {
                    LockPoll::Done(scc) => {
                        assert((self.reg.journal() + writes_before_lock(config))
                            + writes_after_lock(config) =~= self.reg.journal()
                            + programming_sequence(config));
                        Ok(scc)
                    },
                    LockPoll::Pending(wait) => Err((wait.cancel(), FreezeError::HardwareTimeout)),
                    LockPoll::TimedOut(scc) => Err((scc, FreezeError::HardwareTimeout)),
                }
            },
        }
    }
}

impl PllWait {
    /// The engine's state while it waits.
    pub closed spec fn scc(&self) -> Scc {
        self.scc
    }

    /// The configuration that is being applied.
    pub closed spec fn config(&self) -> Config {
        self.config
    }

    /// How many more samples without lock end the wait.
    pub closed spec fn polls_left(&self) -> u32 {
        self.polls_left
    }

    /// Hands out the writes made so far, oldest first, for replay on the
    /// device, and leaves the journal empty.
    pub fn take_journal(&mut self) -> (writes: Vec<SccWrite>)
        ensures
            writes@ == old(self).scc().reg.journal(),
            final(self).scc().reg.journal() == Seq::<SccWrite>::empty(),
            final(self).scc().reg.fields() == old(self).scc().reg.fields(),
            final(self).scc().clocks == old(self).scc().clocks,
            final(self).config() == old(self).config(),
            final(self).polls_left() == old(self).polls_left(),
    {
        self.scc.reg.take_journal()
    }

    /// Gives the wait up and returns the engine as it stands, with the PLL
    /// programmed and the system clock selection and dividers untouched.
    pub fn cancel(self) -> (scc: Scc)
        ensures
            scc == self.scc(),
    {
        self.scc
    }

    /// Takes one sample of the PLL lock status.
    ///
    /// The sample is recorded in the registers. With lock, the system clock
    /// is switched to the PLL, the dividers are programmed and the
    /// frequencies derived. Without lock the wait goes on while more than
    /// one sample is left, and ends in a timeout otherwise, with nothing
    /// more written.
    pub fn poll(self, locked: bool) -> (r: LockPoll)
        ensures
            r is Done <==> locked,
            r is Pending <==> !locked && self.polls_left() > 1,
            r is TimedOut <==> !locked && self.polls_left() <= 1,
            r matches LockPoll::Done(scc) ==> {
                &&& scc.clocks@ == derived_clocks(self.config())
                &&& scc.reg.journal() == self.scc().reg.journal() + writes_after_lock(
                    self.config(),
                )
                &&& scc.reg.fields() == fields_after_lock(
                    SccFields { pll_locked: true, ..self.scc().reg.fields() },
                    self.config(),
                )
            },
            r matches LockPoll::Pending(wait) ==> {
                &&& wait.config() == self.config()
                &&& wait.polls_left() == self.polls_left() - 1
                &&& wait.scc().clocks == self.scc().clocks
                &&& wait.scc().reg.journal() == self.scc().reg.journal()
                &&& wait.scc().reg.fields() == (SccFields {
                    pll_locked: false,
                    ..self.scc().reg.fields()
                })
            },
            r matches LockPoll::TimedOut(scc) ==> {
                &&& scc.clocks == self.scc().clocks
                &&& scc.reg.journal() == self.scc().reg.journal()
                &&& scc.reg.fields() == (SccFields { pll_locked: false, ..self.scc().reg.fields() })
            },
    {
        let PllWait { scc, config, polls_left } = self;
        let mut scc = scc;
        scc.reg.set_pll_locked(locked);
        if locked {
            LockPoll::Done(scc.complete(&config))
        } else if polls_left > 1 {
            LockPoll::Pending(PllWait { scc, config, polls_left: polls_left - 1 })
        } else {
            LockPoll::TimedOut(scc)
        }
    }
}

/// Extension trait that turns the raw registers into the clock control.
pub trait SccExt {
    /// Constains the `SCC` peripheral.
    fn constain(self) -> Scc;

    /// Constains the `SCC` peripheral and applies a clock configuration.
    fn freeze(self, config: Config) -> Result<Scc, (Scc, FreezeError)>;
}

impl SccExt for SccRegisters {
    fn constain(self) -> (scc: Scc)
        ensures
            scc.clocks@ == (ClocksHz { sclk: 0, hclk: 0, aclk: 0, pclk: 0 }),
            scc.reg == self,
    {
        Scc { clocks: Clocks::default(), reg: self }
    }

    fn freeze(self, config: Config) -> (r: Result<Scc, (Scc, FreezeError)>)
        ensures
            r is Ok <==> freeze_result(self.fields(), config) is Ok,
            r matches Ok(scc) ==> {
                &&& scc.clocks@ == derived_clocks(config)
                &&& scc.reg.fields() == programmed_fields(self.fields(), config)
                &&& scc.reg.journal() == self.journal() + programming_sequence(config)
            },
            r matches Err((scc, error)) ==> {
                &&& freeze_result(self.fields(), config) == Err::<
                    (SccFields, ClocksHz),
                    FreezeError,
                >(error)
                &&& scc.clocks@ == (ClocksHz { sclk: 0, hclk: 0, aclk: 0, pclk: 0 })
            },
            r matches Err((scc, FreezeError::Config(_))) ==> {
                &&& scc.reg.fields() == self.fields()
                &&& scc.reg.journal() == self.journal()
            },
            r matches Err((scc, FreezeError::HardwareTimeout)) ==> {
                &&& scc.reg.fields() == fields_before_lock(self.fields(), config)
                &&& scc.reg.journal() == self.journal() + writes_before_lock(config)
            },
    {
        self.constain().freeze(config)
    }
}

/// What the writes made before the wait for the PLL leave in the fields.
pub proof fn lemma_writes_before_lock_effect(fields: SccFields, config: Config)
    ensures
        apply_writes(fields, writes_before_lock(config)) == fields_before_lock(fields, config),
{
    let source = source_writes(config);
    let selected = SccFields {
        frclk_mux: config.frclk_mux.spec_mux(),
        rosc_enabled: fields.rosc_enabled || config.frclk_mux is RingOsc,
        ..fields
    };
    assert(apply_writes(fields, source) == selected) by {
        let empty = Seq::<SccWrite>::empty();
        match config.frclk_mux {
            ClockSource::RingOsc => {
                assert(source =~= empty.push(SccWrite::RoscEnable).push(
                    SccWrite::FrclkMux(FrclkMux::Rosc),
                ));
                lemma_apply_writes_push(fields, empty, SccWrite::RoscEnable);
                lemma_apply_writes_push(
                    fields,
                    empty.push(SccWrite::RoscEnable),
                    SccWrite::FrclkMux(FrclkMux::Rosc),
                );
            },
            ClockSource::RefClock => {
                assert(source =~= empty.push(SccWrite::FrclkMux(FrclkMux::Clkref)));
                lemma_apply_writes_push(fields, empty, SccWrite::FrclkMux(FrclkMux::Clkref));
            },
            ClockSource::External(_) => {
                assert(source =~= empty.push(SccWrite::FrclkMux(FrclkMux::Extclk)));
                lemma_apply_writes_push(fields, empty, SccWrite::FrclkMux(FrclkMux::Extclk));
            },
        }
    }
    if config.sclk_mux is PLLCLK {
        lemma_apply_writes_push(fields, source, SccWrite::PllControl(config.pll));
    }
}

/// What the system clock selection and the divider stages leave in the
/// fields.
pub proof fn lemma_writes_after_lock_effect(fields: SccFields, config: Config)
    ensures
        apply_writes(fields, writes_after_lock(config)) == fields_after_lock(fields, config),
{
    let empty = Seq::<SccWrite>::empty();
    let select = empty.push(SccWrite::SclkMux(config.sclk_mux));
    let hclk = select.push(SccWrite::HclkDiv(config.hclk));
    let aclk = if config.aclk_enable {
        hclk.push(SccWrite::AclkDiv(config.aclk))
    } else {
        hclk
    };
    let pclk = if config.pclk_enable {
        aclk.push(SccWrite::PclkDiv(config.pclk))
    } else {
        aclk
    };
    assert(writes_after_lock(config) =~= pclk);
    lemma_apply_writes_push(fields, empty, SccWrite::SclkMux(config.sclk_mux));
    lemma_apply_writes_push(fields, select, SccWrite::HclkDiv(config.hclk));
    if config.aclk_enable {
        lemma_apply_writes_push(fields, hclk, SccWrite::AclkDiv(config.aclk));
    }
    if config.pclk_enable {
        lemma_apply_writes_push(fields, aclk, SccWrite::PclkDiv(config.pclk));
    }
}

/// Making the writes of the programming sequence, in order, leaves the
/// fields that applying the configuration is said to leave.
pub proof fn lemma_programming_sequence_effect(fields: SccFields, config: Config)
    ensures
        apply_writes(fields, programming_sequence(config)) == programmed_fields(fields, config),
{
    lemma_apply_writes_concat(fields, writes_before_lock(config), writes_after_lock(config));
    lemma_writes_before_lock_effect(fields, config);
    lemma_writes_after_lock_effect(fields_before_lock(fields, config), config);
}

/// The stages are programmed in the order of the clock tree: along the
/// programming sequence the stage of the writes never falls. So every write
/// to the source selection or the PLL comes before the system clock
/// selection, and that before the HCLK divider, which comes before ACLK's
/// and PCLK's.
pub proof fn lemma_programming_order(config: Config, i: int, j: int)
    requires
        0 <= i <= j < programming_sequence(config).len(),
    ensures
        stage(programming_sequence(config)[i]) <= stage(programming_sequence(config)[j]),
{
    let before = writes_before_lock(config);
    let after = writes_after_lock(config);
    assert(forall|k: int| 0 <= k < before.len() ==> stage(#[trigger] before[k]) == 0);
    assert(after[0] == SccWrite::SclkMux(config.sclk_mux));
    assert(after[1] == SccWrite::HclkDiv(config.hclk));
    if after.len() > 2 {
        assert(stage(after[2]) == 3 || stage(after[2]) == 4);
    }
    if after.len() > 3 {
        assert(after[2] == SccWrite::AclkDiv(config.aclk));
        assert(after[3] == SccWrite::PclkDiv(config.pclk));
    }
}

/// The place of a write in the clock tree: the free-running clock and the
/// PLL that it feeds first, then the system clock, HCLK, ACLK and PCLK. A
/// write that sets no clock has no place and counts as last.
pub open spec fn stage(write: SccWrite) -> nat {
    match write {
        SccWrite::RoscEnable => 0,
        SccWrite::FrclkMux(_) => 0,
        SccWrite::PllControl(_) => 0,
        SccWrite::SclkMux(_) => 1,
        SccWrite::HclkDiv(_) => 2,
        SccWrite::AclkDiv(_) => 3,
        SccWrite::PclkDiv(_) => 4,
        SccWrite::UsartAMode(_) => 5,
    }
}

/// Applying a configuration twice is applying it once: where the first
/// application succeeds, a second one on the fields it left succeeds too,
/// leaves every field as it found it and yields the same frequencies.
pub proof fn lemma_freeze_idempotent(fields: SccFields, config: Config)
    requires
        freeze_result(fields, config) is Ok,
    ensures
        freeze_result(freeze_result(fields, config)->Ok_0.0, config) == freeze_result(
            fields,
            config,
        ),
{
}

/// The frequencies that applying a configuration yields do not depend on
/// the registers that it is applied to.
pub proof fn lemma_frequencies_depend_on_config_alone(
    first: SccFields,
    second: SccFields,
    config: Config,
)
    requires
        freeze_result(first, config) is Ok,
        freeze_result(second, config) is Ok,
    ensures
        freeze_result(first, config)->Ok_0.1 == freeze_result(second, config)->Ok_0.1,
{
}

/// With both PLL dividers in range and a VCO frequency that fits in 32
/// bits, the VCO runs at the input frequency times the feedback divider
/// over the input divider, and the PLL output at the VCO frequency over the
/// output divider's setting number plus one, each cut down to whole hertz.
pub proof fn lemma_pll_frequencies(pll: PllConfig, input: Hertz)
    requires
        pll.spec_validate() is Ok,
        (input@ * pll.fbdiv) / (pll.indiv as int) <= u32::MAX,
    ensures
        pll.spec_vco_freq(input) == (input@ * pll.fbdiv) / (pll.indiv as int),
        pll.spec_out_freq(input) == ((input@ * pll.fbdiv) / (pll.indiv as int)) / (
        pll.outdiv.spec_code() + 1),
        pll.spec_out_freq(input) <= pll.spec_vco_freq(input),
{
    pll.outdiv.lemma_divides_by_code_plus_one(pll.spec_vco_freq(input));
}

/// With the PLL as input of the system clock, both PLL dividers in range
/// and a VCO frequency that fits in 32 bits, the system clock runs at the
/// VCO frequency over the output divider's setting number plus one, cut
/// down to whole hertz. Cutting the VCO frequency down to whole hertz first
/// loses nothing: the system clock is the frequency of the free-running
/// clock times the feedback divider, over the product of the input divider
/// and the output divider's setting number plus one, cut down once.
pub proof fn lemma_pll_system_clock(config: Config)
    requires
        config.sclk_mux is PLLCLK,
        config.spec_validate() is Ok,
        (config.frclk_mux.spec_frequency() * config.pll.fbdiv) / (config.pll.indiv as int)
            <= u32::MAX,
    ensures
        pll_vco_hz(
            config.frclk_mux.spec_frequency(),
            config.pll.fbdiv as nat,
            config.pll.indiv as nat,
        ) == (config.frclk_mux.spec_frequency() * config.pll.fbdiv) / (config.pll.indiv as int),
        derived_clocks(config).sclk == pll_vco_hz(
            config.frclk_mux.spec_frequency(),
            config.pll.fbdiv as nat,
            config.pll.indiv as nat,
        ) / (config.pll.outdiv.spec_code() as nat + 1),
        derived_clocks(config).sclk == (config.frclk_mux.spec_frequency() * config.pll.fbdiv) / (
        config.pll.indiv * (config.pll.outdiv.spec_code() + 1)),
{
    let numerator = config.frclk_mux.spec_frequency() * config.pll.fbdiv;
    let vco = pll_vco_hz(
        config.frclk_mux.spec_frequency(),
        config.pll.fbdiv as nat,
        config.pll.indiv as nat,
    );
    config.pll.outdiv.lemma_divides_by_code_plus_one(vco);
    vstd::arithmetic::div_mod::lemma_div_denominator(
        numerator as int,
        config.pll.indiv as int,
        config.pll.outdiv.spec_code() + 1,
    );
}

/// Each bus clock is its parent over the divider's setting number plus one,
/// for every setting from 0 to 15: HCLK and ACLK are divided down from SCLK,
/// and PCLK from HCLK.
pub proof fn lemma_divider_formulas(config: Config)
    ensures
        derived_clocks(config).hclk == derived_clocks(config).sclk / (config.hclk.spec_code() as nat
            + 1),
        derived_clocks(config).aclk == derived_clocks(config).sclk / (config.aclk.spec_code() as nat
            + 1),
        derived_clocks(config).pclk == derived_clocks(config).hclk / (config.pclk.spec_code() as nat
            + 1),
        config.hclk.spec_code() <= 15,
        config.aclk.spec_code() <= 15,
        config.pclk.spec_code() <= 15,
{
    let clocks = derived_clocks(config);
    config.hclk.lemma_divides_by_code_plus_one(clocks.sclk);
    config.aclk.lemma_divides_by_code_plus_one(clocks.sclk);
    config.pclk.lemma_divides_by_code_plus_one(clocks.hclk);
}

/// No derived clock is faster than the clock it is derived from: HCLK and
/// ACLK are at most SCLK, and PCLK is at most HCLK, whatever the
/// configuration.
pub proof fn lemma_derived_clocks_ordered(config: Config)
    ensures
        Clocks::ordered(derived_clocks(config)),
{
}

} // verus!
