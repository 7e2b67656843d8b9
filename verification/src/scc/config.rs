//! Clock tree configuration: a plain description of the multiplexer and
//! divider choices, built without touching the device.

use vstd::prelude::*;
use crate::scc::prescaler::{AClockPrescaler, HClockPrescaler, PClockPrescaler};
use crate::time::Hertz;

verus! {

/// Frequency of the ring oscillator in megahertz.
pub const RING_OSC_MHZ: u32 = 16;

/// Frequency of the reference clock in megahertz.
pub const REF_CLOCK_MHZ: u32 = 4;

/// Lowest PLL input divider the hardware accepts.
pub const MIN_INDIV: u8 = 1;

/// Highest PLL input divider the hardware accepts.
pub const MAX_INDIV: u8 = 15;

/// Lowest PLL feedback divider the hardware accepts.
pub const MIN_FBDIV: u16 = 4;

/// Highest PLL feedback divider the hardware accepts.
pub const MAX_FBDIV: u16 = 16383;

/// A field of the clock configuration that has a bounded range.
#[derive(Clone, Copy, Debug, PartialEq, Eq, Structural)]
pub enum ConfigField {
    /// PLL feedback divider.
    PllFeedbackDivider,
    /// PLL input divider.
    PllInputDivider,
    /// HCLK divider setting.
    HclkDivider,
    /// ACLK divider setting.
    AclkDivider,
    /// PCLK divider setting.
    PclkDivider,
    /// PLL output divider setting.
    PllOutputDivider,
}

/// Why a clock configuration is refused.
#[derive(Clone, Copy, Debug, PartialEq, Eq, Structural)]
pub enum ConfigError {
    /// The named field lies outside the range the hardware documents.
    OutOfRange(ConfigField),
}

/// Setting of the FRCLK multiplexer.
#[derive(Clone, Copy, Debug, PartialEq, Eq, Structural)]
pub enum FrclkMux {
    /// Internal ring oscillator.
    Rosc,
    /// Internal reference clock.
    Clkref,
    /// External clock input.
    Extclk,
}

/// Clock source.
#[derive(Clone, Copy, Debug, PartialEq, Eq, Structural)]
pub enum ClockSource {
    /// 16MHz ring oscillator.
    RingOsc,
    /// 4MHz always running reference clock.
    RefClock,
    /// External clock input.
    External(Hertz),
}

impl ClockSource {
    /// The frequency the source delivers, in hertz. An external clock runs
    /// at the frequency the caller states; the device cannot measure it.
    pub open spec fn spec_frequency(self) -> nat {
        match self {
            ClockSource::RingOsc => 16_000_000,
            ClockSource::RefClock => 4_000_000,
            ClockSource::External(freq) => freq@,
        }
    }

    /// The multiplexer setting that selects the source.
    pub open spec fn spec_mux(self) -> FrclkMux {
        match self {
            ClockSource::RingOsc => FrclkMux::Rosc,
            ClockSource::RefClock => FrclkMux::Clkref,
            ClockSource::External(_) => FrclkMux::Extclk,
        }
    }

    /// The frequency the source delivers.
    pub fn frequency(&self) -> (freq: Hertz)
        ensures
            freq@ == self.spec_frequency(),
    {
        match self {
            ClockSource::RingOsc => Hertz::MHz(RING_OSC_MHZ),
            ClockSource::RefClock => Hertz::MHz(REF_CLOCK_MHZ),
            ClockSource::External(freq) => *freq,
        }
    }

    /// The multiplexer setting that selects the source.
    pub fn mux(&self) -> (mux: FrclkMux)
        ensures
            mux == self.spec_mux(),
    {
        match self {
            ClockSource::RingOsc => FrclkMux::Rosc,
            ClockSource::RefClock => FrclkMux::Clkref,
            ClockSource::External(_) => FrclkMux::Extclk,
        }
    }
}

/// System clock selection.
#[derive(Clone, Copy, Debug, PartialEq, Eq, Structural)]
pub enum SystemClock {
    /// Free-running clock.
    FRCLK,
    /// PLL clock.
    PLLCLK,
}

/// PLL output divider.
///
/// Setting number `n` (counted from zero) divides the VCO frequency by
/// `n + 1`.
#[derive(Clone, Copy, Debug, PartialEq, Eq, Structural)]
pub enum PllOutPrescaler {
    /// PLL output divided by 1.
    Div1,
    /// PLL output divided by 2.
    Div2,
    /// PLL output divided by 3.
    Div3,
    /// PLL output divided by 4.
    Div4,
}

impl PllOutPrescaler {
    /// The setting's number, from 0 to 3.
    pub open spec fn spec_code(self) -> u8 {
        match self {
            PllOutPrescaler::Div1 => 0,
            PllOutPrescaler::Div2 => 1,
            PllOutPrescaler::Div3 => 2,
            PllOutPrescaler::Div4 => 3,
        }
    }

    /// The frequency that the setting makes of `parent`, both in hertz.
    pub open spec fn spec_divide(self, parent: nat) -> nat {
        match self {
            PllOutPrescaler::Div1 => parent,
            PllOutPrescaler::Div2 => parent / 2,
            PllOutPrescaler::Div3 => parent / 3,
            PllOutPrescaler::Div4 => parent / 4,
        }
    }

    /// The setting numbered `n` divides by `n + 1`.
    pub proof fn lemma_divides_by_code_plus_one(self, parent: nat)
        ensures
            self.spec_divide(parent) == parent / (self.spec_code() as nat + 1),
            self.spec_divide(parent) <= parent,
    {
        match self {
            PllOutPrescaler::Div1 => {
                assert(parent / 1 == parent);
            },
            PllOutPrescaler::Div2 => {},
            PllOutPrescaler::Div3 => {},
            PllOutPrescaler::Div4 => {},
        }
    }

    /// The setting's number, from 0 to 3.
    #[verifier::when_used_as_spec(spec_code)]
    pub fn code(self) -> (code: u8)
        ensures
            code == self.spec_code(),
            code <= 3,
    {
        match self {
            PllOutPrescaler::Div1 => 0,
            PllOutPrescaler::Div2 => 1,
            PllOutPrescaler::Div3 => 2,
            PllOutPrescaler::Div4 => 3,
        }
    }

    /// The setting with the given number; numbers above 3 name no setting
    /// and are refused.
    pub fn from_code(code: u8) -> (r: Result<Self, ConfigError>)
        ensures
            code <= 3 ==> r is Ok && r->Ok_0.spec_code() == code,
            code > 3 ==> r == Err::<Self, ConfigError>(
                ConfigError::OutOfRange(ConfigField::PllOutputDivider),
            ),
    {
        match code {
            0 => Ok(PllOutPrescaler::Div1),
            1 => Ok(PllOutPrescaler::Div2),
            2 => Ok(PllOutPrescaler::Div3),
            3 => Ok(PllOutPrescaler::Div4),
            _ => Err(ConfigError::OutOfRange(ConfigField::PllOutputDivider)),
        }
    }
}

/// The VCO frequency in hertz for an input of `input` hertz: the input
/// times `fbdiv / indiv`, computed exactly and cut down to whole hertz, and
/// held at the largest 32-bit value where it would exceed it. With a zero
/// input divider the quotient has no value: the result is then the largest
/// value, or zero where the numerator is zero.
pub open spec fn pll_vco_hz(input: nat, fbdiv: nat, indiv: nat) -> nat {
    if indiv == 0 {
        if input * fbdiv == 0 {
            0
        } else {
            u32::MAX as nat
        }
    } else if (input * fbdiv) / indiv > u32::MAX {
        u32::MAX as nat
    } else {
        (input * fbdiv) / indiv
    }
}

/// The PLL output frequency in hertz: the VCO frequency divided by the
/// output divider's setting number plus one, cut down to whole hertz.
pub open spec fn pll_out_hz(input: nat, fbdiv: nat, indiv: nat, outdiv: PllOutPrescaler) -> nat {
    outdiv.spec_divide(pll_vco_hz(input, fbdiv, indiv))
}

/// PLL configuration.
#[derive(Clone, Copy, Debug, PartialEq, Eq, Structural)]
pub struct PllConfig {
    /// Feedback divider.
    pub fbdiv: u16,
    /// Input divider.
    pub indiv: u8,
    /// Output divider.
    pub outdiv: PllOutPrescaler,
    /// Whether the PLL is bypassed.
    pub bypass: bool,
    /// Whether the PLL is enabled.
    pub enabled: bool,
}

impl Default for PllConfig {
    fn default() -> (config: Self)
        ensures
            config == (PllConfig {
                fbdiv: 0,
                indiv: 0,
                outdiv: PllOutPrescaler::Div1,
                bypass: false,
                enabled: false,
            }),
    {
        Self { fbdiv: 0, indiv: 0, outdiv: PllOutPrescaler::Div1, bypass: false, enabled: false }
    }
}

impl PllConfig {
    /// Whether the feedback divider lies between 4 and 16383.
    pub open spec fn fbdiv_in_range(self) -> bool {
        MIN_FBDIV <= self.fbdiv <= MAX_FBDIV
    }

    /// Whether the input divider lies between 1 and 15.
    pub open spec fn indiv_in_range(self) -> bool {
        MIN_INDIV <= self.indiv <= MAX_INDIV
    }

    /// The verdict on the configuration: the first field out of its range,
    /// feedback divider before input divider, or none.
    pub open spec fn spec_validate(self) -> Result<(), ConfigError> {
        if !self.fbdiv_in_range() {
            Err(ConfigError::OutOfRange(ConfigField::PllFeedbackDivider))
        } else if !self.indiv_in_range() {
            Err(ConfigError::OutOfRange(ConfigField::PllInputDivider))
        } else {
            Ok(())
        }
    }

    /// The VCO frequency in hertz for the given input frequency.
    pub open spec fn spec_vco_freq(self, input: Hertz) -> nat {
        pll_vco_hz(input@, self.fbdiv as nat, self.indiv as nat)
    }

    /// The PLL output frequency in hertz for the given input frequency.
    pub open spec fn spec_out_freq(self, input: Hertz) -> nat {
        pll_out_hz(input@, self.fbdiv as nat, self.indiv as nat, self.outdiv)
    }

    /// Set the feedback divider.
    ///
    /// The hardware accepts 4 to 16383. Any value is stored; one outside the
    /// range is reported by [`PllConfig::validate`] and stops
    /// a configuration from being applied.
    pub fn fbdiv(self, divider: u16) -> (config: Self)
        ensures
            config == (PllConfig { fbdiv: divider, ..self }),
    {
        let mut config = self;
        config.fbdiv = divider;
        config
    }

    /// Set the input divider.
    ///
    /// The hardware accepts 1 to 15. Any value is stored; one outside the
    /// range is reported by [`PllConfig::validate`] and stops
    /// a configuration from being applied.
    pub fn indiv(self, divider: u8) -> (config: Self)
        ensures
            config == (PllConfig { indiv: divider, ..self }),
    {
        let mut config = self;
        config.indiv = divider;
        config
    }

    /// Set the output divider.
    pub fn outdiv(self, divider: PllOutPrescaler) -> (config: Self)
        ensures
            config == (PllConfig { outdiv: divider, ..self }),
    {
        let mut config = self;
        config.outdiv = divider;
        config
    }

    /// Enable or disable bypassing the PLL.
    pub fn bypass(self, enabled: bool) -> (config: Self)
        ensures
            config == (PllConfig { bypass: enabled, ..self }),
    {
        let mut config = self;
        config.bypass = enabled;
        config
    }

    /// Enable or disable the PLL
    pub fn enabled(self, enabled: bool) -> (config: Self)
        ensures
            config == (PllConfig { enabled, ..self }),
    {
        let mut config = self;
        config.enabled = enabled;
        config
    }

    /// Checks both dividers against the ranges the hardware documents.
    pub fn validate(&self) -> (r: Result<(), ConfigError>)
        ensures
            r == self.spec_validate(),
    {
        if self.fbdiv < MIN_FBDIV || self.fbdiv > MAX_FBDIV {
            Err(ConfigError::OutOfRange(ConfigField::PllFeedbackDivider))
        } else if self.indiv < MIN_INDIV || self.indiv > MAX_INDIV {
            Err(ConfigError::OutOfRange(ConfigField::PllInputDivider))
        } else {
            Ok(())
        }
    }

    /// Calculate the voltage controlled oscillator output frequency.
    pub fn vco_freq(&self, input: Hertz) -> (vco: Hertz)
        ensures
            vco@ == self.spec_vco_freq(input),
            self.indiv_in_range() && input@ * self.fbdiv / (self.indiv as int) <= u32::MAX
                ==> vco@ == input@ * self.fbdiv / (self.indiv as int),
    {
        let input_hz: u64 = input.to_Hz() as u64;
        let fbdiv: u64 = self.fbdiv as u64;
        assert(input_hz * fbdiv <= 0xffff_ffff * 0xffff) by (nonlinear_arith)
            requires
                input_hz <= 0xffff_ffff,
                fbdiv <= 0xffff,
        ;
        let numerator: u64 = input_hz * fbdiv;
        if self.indiv == 0 {
            if numerator == 0 {
                Hertz::Hz(0)
            } else {
                Hertz::Hz(u32::MAX)
            }
        } else {
            let exact: u64 = numerator / (self.indiv as u64);
            if exact > u32::MAX as u64 {
                Hertz::Hz(u32::MAX)
            } else {
                Hertz::Hz(exact as u32)
            }
        }
    }

    /// Calculate the PLL output frequency.
    pub fn out_freq(&self, input: Hertz) -> (out: Hertz)
        ensures
            out@ == self.spec_out_freq(input),
            out@ == self.spec_vco_freq(input) / (self.outdiv.spec_code() as nat + 1),
    {
        let outdiv: u32 = self.outdiv.code() as u32 + 1;
        let vco: u32 = self.vco_freq(input).to_Hz();
        proof {
            self.outdiv.lemma_divides_by_code_plus_one(vco as nat);
        }
        Hertz::Hz(vco / outdiv)
    }
}

/// Clock tree configuration.
///
/// A configuration is a plain value. Building one touches nothing, and
/// applying it uses it up.
#[derive(Clone, Debug, PartialEq, Eq, Structural)]
pub struct Config {
    /// HCLK divider.
    pub hclk: HClockPrescaler,
    /// Whether the ACLK domain is enabled.
    pub aclk_enable: bool,
    /// ACLK divider.
    pub aclk: AClockPrescaler,
    /// Whether the PCLK domain is enabled.
    pub pclk_enable: bool,
    /// PCLK divider.
    pub pclk: PClockPrescaler,
    /// Input of the system clock.
    pub sclk_mux: SystemClock,
    /// Whether the ring oscillator is enabled.
    pub rosc_enable: bool,
    /// Source of the free-running clock.
    pub frclk_mux: ClockSource,
    /// PLL configuration.
    pub pll: PllConfig,
}

impl Default for Config {
    fn default() -> (config: Self)
        ensures
            config == (Config {
                hclk: HClockPrescaler::SclkDiv1,
                aclk_enable: true,
                aclk: AClockPrescaler::SclkDiv1,
                pclk_enable: true,
                pclk: PClockPrescaler::HclkDiv1,
                sclk_mux: SystemClock::FRCLK,
                rosc_enable: true,
                frclk_mux: ClockSource::RingOsc,
                pll: PllConfig {
                    fbdiv: 0,
                    indiv: 0,
                    outdiv: PllOutPrescaler::Div1,
                    bypass: false,
                    enabled: false,
                },
            }),
    {
        Self {
            hclk: HClockPrescaler::SclkDiv1,
            aclk_enable: true,
            aclk: AClockPrescaler::SclkDiv1,
            pclk_enable: true,
            pclk: PClockPrescaler::HclkDiv1,
            sclk_mux: SystemClock::FRCLK,
            rosc_enable: true,
            frclk_mux: ClockSource::RingOsc,
            pll: PllConfig::default(),
        }
    }
}

impl Config {
    /// The verdict on the configuration. The PLL dividers are held to their
    /// ranges where the PLL feeds the system clock, the one case in which
    /// they reach the device.
    pub open spec fn spec_validate(self) -> Result<(), ConfigError> {
        match self.sclk_mux {
            SystemClock::FRCLK => Ok(()),
            SystemClock::PLLCLK => self.pll.spec_validate(),
        }
    }

    /// Set the HCLK divider.
    pub fn hclk(self, value: HClockPrescaler) -> (config: Self)
        ensures
            config == (Config { hclk: value, ..self }),
    {
        let mut config = self;
        config.hclk = value;
        config
    }

    /// Enable or disable the ACLK domain.
    pub fn aclk_enable(self, enabled: bool) -> (config: Self)
        ensures
            config == (Config { aclk_enable: enabled, ..self }),
    {
        let mut config = self;
        config.aclk_enable = enabled;
        config
    }

    /// Set the ACLK divider.
    pub fn aclk(self, value: AClockPrescaler) -> (config: Self)
        ensures
            config == (Config { aclk: value, ..self }),
    {
        let mut config = self;
        config.aclk = value;
        config
    }

    /// Enable or disable the PCLK domain.
    pub fn pclk_enable(self, enabled: bool) -> (config: Self)
        ensures
            config == (Config { pclk_enable: enabled, ..self }),
    {
        let mut config = self;
        config.pclk_enable = enabled;
        config
    }

    /// Set the PCLK divider.
    pub fn pclk(self, value: PClockPrescaler) -> (config: Self)
        ensures
            config == (Config { pclk: value, ..self }),
    {
        let mut config = self;
        config.pclk = value;
        config
    }

    /// Set the SCLK input.
    pub fn sclk(self, mux: SystemClock) -> (config: Self)
        ensures
            config == (Config { sclk_mux: mux, ..self }),
    {
        let mut config = self;
        config.sclk_mux = mux;
        config
    }

    /// Enable or disable the ROSC.
    pub fn rosc_enable(self, enabled: bool) -> (config: Self)
        ensures
            config == (Config { rosc_enable: enabled, ..self }),
    {
        let mut config = self;
        config.rosc_enable = enabled;
        config
    }

    /// Set the system clock source.
    pub fn frclk(self, mux: ClockSource) -> (config: Self)
        ensures
            config == (Config { frclk_mux: mux, ..self }),
    {
        let mut config = self;
        config.frclk_mux = mux;
        config
    }

    /// Set the PLL configuration.
    pub fn pll(self, config: PllConfig) -> (updated: Self)
        ensures
            updated == (Config { pll: config, ..self }),
    {
        let mut updated = self;
        updated.pll = config;
        updated
    }

    /// Checks every field that reaches the device against the range the
    /// hardware documents.
    pub fn validate(&self) -> (r: Result<(), ConfigError>)
        ensures
            r == self.spec_validate(),
    {
        match self.sclk_mux {
            SystemClock::FRCLK => Ok(()),
            SystemClock::PLLCLK => self.pll.validate(),
        }
    }
}

} // verus!
