use pac25_hal::scc::{
    plan_after_lock, plan_before_lock, AClockPrescaler, ClockSource, Config, ConfigError,
    ConfigField, FrclkMux, FreezeError, FreezeStep, HClockPrescaler, LockPoll, PClockPrescaler,
    PllConfig, PllOutPrescaler, Scc, SccExt, SccFields, SccRegisters, SccWrite, SystemClock,
};
use pac25_hal::time::Hertz;

fn locked_registers() -> SccRegisters {
    let mut regs = SccRegisters::new();
    regs.set_pll_locked(true);
    regs
}

fn pll_config(indiv: u8, fbdiv: u16, outdiv: PllOutPrescaler) -> PllConfig {
    PllConfig::default()
        .enabled(true)
        .indiv(indiv)
        .fbdiv(fbdiv)
        .outdiv(outdiv)
}

fn blinky_config() -> Config {
    Config::default()
        .frclk(ClockSource::RefClock)
        .sclk(SystemClock::PLLCLK)
        .pll(pll_config(1, 75, PllOutPrescaler::Div2))
}

fn frozen(regs: SccRegisters, config: Config) -> Scc {
    match regs.freeze(config) {
        Ok(scc) => scc,
        Err((_, error)) => panic!("configuration refused: {:?}", error),
    }
}

fn hz(clocks: &pac25_hal::scc::Clocks) -> (u32, u32, u32, u32) {
    (
        clocks.sclk().to_Hz(),
        clocks.hclk().to_Hz(),
        clocks.aclk().to_Hz(),
        clocks.pclk().to_Hz(),
    )
}

#[test]
fn blinky_configuration_runs_every_clock_at_150_mhz() {
    let scc = frozen(locked_registers(), blinky_config());
    assert_eq!(
        hz(&scc.clocks),
        (150_000_000, 150_000_000, 150_000_000, 150_000_000)
    );
}

#[test]
fn ring_oscillator_with_hclk_divided_by_two_gives_8_mhz() {
    let config = Config::default()
        .frclk(ClockSource::RingOsc)
        .sclk(SystemClock::FRCLK)
        .hclk(HClockPrescaler::from_code(1).unwrap());
    assert_eq!(config.hclk, HClockPrescaler::SclkDiv2);
    let scc = frozen(SccRegisters::new(), config);
    assert_eq!(scc.clocks.sclk().to_Hz(), 16_000_000);
    assert_eq!(scc.clocks.hclk().to_Hz(), 8_000_000);
    assert_eq!(scc.clocks.aclk().to_Hz(), 16_000_000);
    assert_eq!(scc.clocks.pclk().to_Hz(), 8_000_000);
}

#[test]
fn feedback_divider_below_minimum_is_rejected_and_nothing_is_written() {
    let config = Config::default()
        .sclk(SystemClock::PLLCLK)
        .pll(PllConfig::default().indiv(1).fbdiv(3));
    let regs = locked_registers();
    let before = regs.read();
    match regs.freeze(config) {
        Ok(_) => panic!("a feedback divider of 3 was accepted"),
        Err((mut scc, error)) => {
            assert_eq!(
                error,
                FreezeError::Config(ConfigError::OutOfRange(ConfigField::PllFeedbackDivider))
            );
            assert_eq!(scc.reg.read(), before);
            assert!(scc.reg.take_journal().is_empty());
            assert_eq!(hz(&scc.clocks), (0, 0, 0, 0));
        }
    }
}

#[test]
fn feedback_divider_is_checked_before_the_input_divider() {
    let pll = PllConfig::default().fbdiv(3);
    assert_eq!(pll.indiv, 0);
    assert_eq!(
        pll.validate(),
        Err(ConfigError::OutOfRange(ConfigField::PllFeedbackDivider))
    );
}

#[test]
fn pll_dividers_are_held_to_their_ranges() {
    let ok = |indiv: u8, fbdiv: u16| PllConfig::default().indiv(indiv).fbdiv(fbdiv).validate();
    assert_eq!(ok(1, 4), Ok(()));
    assert_eq!(ok(15, 16383), Ok(()));
    assert_eq!(ok(7, 75), Ok(()));
    assert_eq!(
        ok(0, 4),
        Err(ConfigError::OutOfRange(ConfigField::PllInputDivider))
    );
    assert_eq!(
        ok(16, 4),
        Err(ConfigError::OutOfRange(ConfigField::PllInputDivider))
    );
    assert_eq!(
        ok(255, 16383),
        Err(ConfigError::OutOfRange(ConfigField::PllInputDivider))
    );
    assert_eq!(
        ok(1, 3),
        Err(ConfigError::OutOfRange(ConfigField::PllFeedbackDivider))
    );
    assert_eq!(
        ok(1, 0),
        Err(ConfigError::OutOfRange(ConfigField::PllFeedbackDivider))
    );
    assert_eq!(
        ok(1, 16384),
        Err(ConfigError::OutOfRange(ConfigField::PllFeedbackDivider))
    );
    assert_eq!(
        ok(1, u16::MAX),
        Err(ConfigError::OutOfRange(ConfigField::PllFeedbackDivider))
    );
}

#[test]
fn input_divider_out_of_range_is_rejected_by_freeze() {
    let config = Config::default()
        .sclk(SystemClock::PLLCLK)
        .pll(PllConfig::default().indiv(16).fbdiv(4));
    match locked_registers().freeze(config) {
        Ok(_) => panic!("an input divider of 16 was accepted"),
        Err((mut scc, error)) => {
            assert_eq!(
                error,
                FreezeError::Config(ConfigError::OutOfRange(ConfigField::PllInputDivider))
            );
            assert!(scc.reg.take_journal().is_empty());
        }
    }
}

#[test]
fn unused_pll_settings_are_not_validated() {
    let config = Config::default();
    assert_eq!(config.pll.fbdiv, 0);
    assert_eq!(config.pll.indiv, 0);
    assert_eq!(config.validate(), Ok(()));
    let scc = frozen(SccRegisters::new(), config);
    assert_eq!(
        hz(&scc.clocks),
        (16_000_000, 16_000_000, 16_000_000, 16_000_000)
    );
    assert_eq!(scc.reg.read().pll, PllConfig::default());
}

#[test]
fn prescaler_codes_above_the_highest_are_out_of_range() {
    assert_eq!(
        HClockPrescaler::from_code(16),
        Err(ConfigError::OutOfRange(ConfigField::HclkDivider))
    );
    assert_eq!(
        AClockPrescaler::from_code(16),
        Err(ConfigError::OutOfRange(ConfigField::AclkDivider))
    );
    assert_eq!(
        PClockPrescaler::from_code(255),
        Err(ConfigError::OutOfRange(ConfigField::PclkDivider))
    );
    assert_eq!(
        PllOutPrescaler::from_code(4),
        Err(ConfigError::OutOfRange(ConfigField::PllOutputDivider))
    );
}

#[test]
fn prescaler_codes_round_trip() {
    for code in 0..=15u8 {
        assert_eq!(HClockPrescaler::from_code(code).unwrap().code(), code);
        assert_eq!(AClockPrescaler::from_code(code).unwrap().code(), code);
        assert_eq!(PClockPrescaler::from_code(code).unwrap().code(), code);
    }
    for code in 0..=3u8 {
        assert_eq!(PllOutPrescaler::from_code(code).unwrap().code(), code);
    }
    assert_eq!(HClockPrescaler::SclkDiv16.code(), 15);
    assert_eq!(PClockPrescaler::HclkDiv1.code(), 0);
    assert_eq!(PllOutPrescaler::Div2.code(), 1);
    assert_eq!(PllOutPrescaler::Div4.code(), 3);
}

#[test]
fn vco_and_output_match_truncated_values_at_the_range_boundaries() {
    let low = pll_config(1, 4, PllOutPrescaler::Div1);
    assert_eq!(low.vco_freq(Hertz::Hz(4_000_000)).to_Hz(), 16_000_000);
    assert_eq!(low.out_freq(Hertz::Hz(4_000_000)).to_Hz(), 16_000_000);

    let high = pll_config(15, 16383, PllOutPrescaler::Div4);
    assert_eq!(high.vco_freq(Hertz::Hz(1_000_000)).to_Hz(), 1_092_200_000);
    assert_eq!(high.out_freq(Hertz::Hz(1_000_000)).to_Hz(), 273_050_000);

    let mixed = pll_config(15, 4, PllOutPrescaler::Div3);
    // 4_000_004 / 15 = 266_666.93..., 266_666 / 3 = 88_888.66...
    assert_eq!(mixed.vco_freq(Hertz::Hz(1_000_001)).to_Hz(), 266_666);
    assert_eq!(mixed.out_freq(Hertz::Hz(1_000_001)).to_Hz(), 88_888);

    let other = pll_config(1, 16383, PllOutPrescaler::Div2);
    assert_eq!(other.vco_freq(Hertz::Hz(100_000)).to_Hz(), 1_638_300_000);
    assert_eq!(other.out_freq(Hertz::Hz(100_000)).to_Hz(), 819_150_000);
}

#[test]
fn pll_output_is_the_vco_over_the_setting_number_plus_one() {
    let input = Hertz::Hz(4_000_000);
    let settings = [
        (PllOutPrescaler::Div1, 300_000_000u32),
        (PllOutPrescaler::Div2, 150_000_000),
        (PllOutPrescaler::Div3, 100_000_000),
        (PllOutPrescaler::Div4, 75_000_000),
    ];
    for (outdiv, expected) in settings {
        let pll = pll_config(1, 75, outdiv);
        assert_eq!(pll.vco_freq(input).to_Hz(), 300_000_000);
        assert_eq!(pll.out_freq(input).to_Hz(), expected);
        assert_eq!(
            pll.out_freq(input).to_Hz(),
            300_000_000 / (u32::from(outdiv.code()) + 1)
        );
    }
}

#[test]
fn vco_frequency_is_held_at_the_largest_value() {
    let pll = pll_config(15, 16383, PllOutPrescaler::Div2);
    // 4_000_000 * 16383 / 15 = 4_368_800_000, more than 32 bits hold.
    assert_eq!(pll.vco_freq(Hertz::Hz(4_000_000)).to_Hz(), u32::MAX);
    assert_eq!(pll.out_freq(Hertz::Hz(4_000_000)).to_Hz(), u32::MAX / 2);
    let largest = pll_config(1, 16383, PllOutPrescaler::Div1);
    assert_eq!(largest.vco_freq(Hertz::Hz(u32::MAX)).to_Hz(), u32::MAX);
    // 262_144 * 16383 = 4_294_705_152 still fits.
    assert_eq!(
        largest.vco_freq(Hertz::Hz(262_144)).to_Hz(),
        4_294_705_152
    );
    assert_eq!(largest.vco_freq(Hertz::Hz(262_161)).to_Hz(), u32::MAX);
}

#[test]
fn zero_input_divider_gives_the_largest_value_or_zero() {
    let unset = PllConfig::default();
    assert_eq!(unset.vco_freq(Hertz::Hz(4_000_000)).to_Hz(), 0);
    let no_input_divider = PllConfig::default().fbdiv(75);
    assert_eq!(
        no_input_divider.vco_freq(Hertz::Hz(4_000_000)).to_Hz(),
        u32::MAX
    );
    assert_eq!(no_input_divider.vco_freq(Hertz::Hz(0)).to_Hz(), 0);
    assert_eq!(
        no_input_divider
            .outdiv(PllOutPrescaler::Div4)
            .out_freq(Hertz::Hz(1))
            .to_Hz(),
        u32::MAX / 4
    );
}

#[test]
fn every_divider_code_divides_by_the_code_plus_one() {
    for code in 0..=15u8 {
        let divisor = u32::from(code) + 1;
        let config = Config::default()
            .hclk(HClockPrescaler::from_code(code).unwrap())
            .aclk(AClockPrescaler::from_code(15 - code).unwrap())
            .pclk(PClockPrescaler::from_code(code).unwrap());
        let scc = frozen(SccRegisters::new(), config);
        let (sclk, hclk, aclk, pclk) = hz(&scc.clocks);
        assert_eq!(sclk, 16_000_000);
        assert_eq!(hclk, 16_000_000 / divisor);
        assert_eq!(aclk, 16_000_000 / (16 - u32::from(code)));
        assert_eq!(pclk, (16_000_000 / divisor) / divisor);
    }
}

#[test]
fn divider_results_are_cut_down_to_whole_hertz() {
    let config = Config::default()
        .frclk(ClockSource::External(Hertz::Hz(1_000_000)))
        .hclk(HClockPrescaler::SclkDiv3)
        .aclk(AClockPrescaler::SclkDiv7)
        .pclk(PClockPrescaler::HclkDiv16);
    let scc = frozen(SccRegisters::new(), config);
    assert_eq!(hz(&scc.clocks), (1_000_000, 333_333, 142_857, 20_833));
}

#[test]
fn external_clock_runs_at_the_stated_frequency() {
    let config = Config::default().frclk(ClockSource::External(Hertz::Hz(12_345_678)));
    let scc = frozen(SccRegisters::new(), config);
    assert_eq!(scc.clocks.sclk().to_Hz(), 12_345_678);
    assert_eq!(scc.reg.read().frclk_mux, FrclkMux::Extclk);
    let stopped = Config::default().frclk(ClockSource::External(Hertz::Hz(0)));
    assert_eq!(
        hz(&frozen(SccRegisters::new(), stopped).clocks),
        (0, 0, 0, 0)
    );
}

#[test]
fn clock_sources_have_their_fixed_frequencies() {
    assert_eq!(ClockSource::RingOsc.frequency().to_Hz(), 16_000_000);
    assert_eq!(ClockSource::RefClock.frequency().to_Hz(), 4_000_000);
    assert_eq!(
        ClockSource::External(Hertz::Hz(7)).frequency().to_Hz(),
        7
    );
    assert_eq!(ClockSource::RingOsc.mux(), FrclkMux::Rosc);
    assert_eq!(ClockSource::RefClock.mux(), FrclkMux::Clkref);
    assert_eq!(ClockSource::External(Hertz::Hz(7)).mux(), FrclkMux::Extclk);
}

#[test]
fn megahertz_are_a_million_hertz_each() {
    assert_eq!(Hertz::MHz(16).to_Hz(), 16_000_000);
    assert_eq!(Hertz::MHz(4).to_Hz(), 4_000_000);
    assert_eq!(Hertz::MHz(1).to_Hz(), 1_000_000);
    assert_eq!(Hertz::MHz(0).to_Hz(), 0);
    assert_eq!(Hertz::MHz(4294).to_Hz(), 4_294_000_000);
    assert_eq!(Hertz::MHz(150), Hertz::Hz(150_000_000));
}

#[test]
fn derived_clocks_never_exceed_their_parents() {
    let sources = [
        ClockSource::RingOsc,
        ClockSource::RefClock,
        ClockSource::External(Hertz::Hz(u32::MAX)),
        ClockSource::External(Hertz::Hz(1)),
    ];
    for source in sources {
        for h in 0..=15u8 {
            for p in [0u8, 1, 7, 15] {
                let config = Config::default()
                    .frclk(source)
                    .hclk(HClockPrescaler::from_code(h).unwrap())
                    .aclk(AClockPrescaler::from_code(15 - h).unwrap())
                    .pclk(PClockPrescaler::from_code(p).unwrap());
                let scc = frozen(SccRegisters::new(), config);
                let (sclk, hclk, aclk, pclk) = hz(&scc.clocks);
                assert!(hclk <= sclk);
                assert!(aclk <= sclk);
                assert!(pclk <= hclk);
            }
        }
    }
    let fresh = SccRegisters::new().constain();
    assert_eq!(hz(&fresh.clocks), (0, 0, 0, 0));
}

#[test]
fn applying_a_configuration_twice_yields_the_same_clocks_and_registers() {
    for config in [
        blinky_config(),
        Config::default(),
        Config::default()
            .frclk(ClockSource::External(Hertz::Hz(999_999)))
            .hclk(HClockPrescaler::SclkDiv5)
            .aclk_enable(false)
            .pclk(PClockPrescaler::HclkDiv3),
    ] {
        let once = frozen(locked_registers(), config.clone());
        let clocks = hz(&once.clocks);
        let fields = once.reg.read();
        let twice = frozen(once.release(), config);
        assert_eq!(hz(&twice.clocks), clocks);
        assert_eq!(twice.reg.read(), fields);
    }
}

#[test]
fn clocks_do_not_depend_on_the_registers_found() {
    let config = blinky_config();
    let from_reset = frozen(locked_registers(), config.clone());
    let other = frozen(
        locked_registers(),
        Config::default()
            .hclk(HClockPrescaler::SclkDiv9)
            .aclk(AClockPrescaler::SclkDiv2),
    );
    let after_other = frozen(other.release(), config);
    assert_eq!(hz(&after_other.clocks), hz(&from_reset.clocks));
}

#[test]
fn registers_are_programmed_in_the_order_of_the_clock_tree() {
    let mut scc = frozen(locked_registers(), blinky_config());
    assert_eq!(
        scc.reg.take_journal(),
        vec![
            SccWrite::FrclkMux(FrclkMux::Clkref),
            SccWrite::PllControl(pll_config(1, 75, PllOutPrescaler::Div2)),
            SccWrite::SclkMux(SystemClock::PLLCLK),
            SccWrite::HclkDiv(HClockPrescaler::SclkDiv1),
            SccWrite::AclkDiv(AClockPrescaler::SclkDiv1),
            SccWrite::PclkDiv(PClockPrescaler::HclkDiv1),
        ]
    );
    assert!(scc.reg.take_journal().is_empty());

    let mut ring = frozen(
        SccRegisters::new(),
        Config::default().hclk(HClockPrescaler::SclkDiv2),
    );
    assert_eq!(
        ring.reg.take_journal(),
        vec![
            SccWrite::RoscEnable,
            SccWrite::FrclkMux(FrclkMux::Rosc),
            SccWrite::SclkMux(SystemClock::FRCLK),
            SccWrite::HclkDiv(HClockPrescaler::SclkDiv2),
            SccWrite::AclkDiv(AClockPrescaler::SclkDiv1),
            SccWrite::PclkDiv(PClockPrescaler::HclkDiv1),
        ]
    );
}

#[test]
fn dividers_of_disabled_domains_are_not_programmed() {
    let config = Config::default()
        .frclk(ClockSource::External(Hertz::Hz(8_000_000)))
        .aclk_enable(false)
        .pclk_enable(false)
        .aclk(AClockPrescaler::SclkDiv4)
        .pclk(PClockPrescaler::HclkDiv2);
    let mut scc = frozen(SccRegisters::new(), config.clone());
    assert_eq!(
        scc.reg.take_journal(),
        vec![
            SccWrite::FrclkMux(FrclkMux::Extclk),
            SccWrite::SclkMux(SystemClock::FRCLK),
            SccWrite::HclkDiv(HClockPrescaler::SclkDiv1),
        ]
    );
    let fields = scc.reg.read();
    assert_eq!(fields.aclk_div, AClockPrescaler::SclkDiv1);
    assert_eq!(fields.pclk_div, PClockPrescaler::HclkDiv1);
    assert_eq!(
        hz(&scc.clocks),
        (8_000_000, 8_000_000, 2_000_000, 4_000_000)
    );

    let only_pclk = config.pclk_enable(true);
    let mut scc = frozen(SccRegisters::new(), only_pclk);
    assert_eq!(
        scc.reg.take_journal(),
        vec![
            SccWrite::FrclkMux(FrclkMux::Extclk),
            SccWrite::SclkMux(SystemClock::FRCLK),
            SccWrite::HclkDiv(HClockPrescaler::SclkDiv1),
            SccWrite::PclkDiv(PClockPrescaler::HclkDiv2),
        ]
    );
}

#[test]
fn registers_hold_the_configuration_after_freeze() {
    let scc = frozen(
        locked_registers(),
        blinky_config().hclk(HClockPrescaler::SclkDiv4),
    );
    let fields = scc.reg.read();
    assert_eq!(fields.frclk_mux, FrclkMux::Clkref);
    assert!(!fields.rosc_enabled);
    assert_eq!(fields.sclk_mux, SystemClock::PLLCLK);
    assert_eq!(fields.hclk_div, HClockPrescaler::SclkDiv4);
    assert_eq!(fields.pll, pll_config(1, 75, PllOutPrescaler::Div2));
    assert!(fields.pll_locked);

    let ring = frozen(SccRegisters::new(), Config::default());
    assert!(ring.reg.read().rosc_enabled);
    assert_eq!(ring.reg.read().frclk_mux, FrclkMux::Rosc);
}

#[test]
fn unlocked_pll_times_out_after_it_has_been_programmed() {
    let regs = SccRegisters::new();
    assert!(!regs.pll_locked());
    match regs.freeze(blinky_config()) {
        Ok(_) => panic!("an unlocked PLL was taken as locked"),
        Err((mut scc, error)) => {
            assert_eq!(error, FreezeError::HardwareTimeout);
            assert_eq!(
                scc.reg.take_journal(),
                vec![
                    SccWrite::FrclkMux(FrclkMux::Clkref),
                    SccWrite::PllControl(pll_config(1, 75, PllOutPrescaler::Div2)),
                ]
            );
            let fields = scc.reg.read();
            assert_eq!(fields.sclk_mux, SystemClock::FRCLK);
            assert_eq!(fields.pll, pll_config(1, 75, PllOutPrescaler::Div2));
            assert_eq!(hz(&scc.clocks), (0, 0, 0, 0));
        }
    }
}

#[test]
fn lock_wait_finishes_when_the_pll_locks() {
    let scc = SccRegisters::new().constain();
    let step = match scc.begin_freeze(blinky_config(), 3) {
        Ok(step) => step,
        Err(_) => panic!("a valid configuration was refused"),
    };
    let mut wait = match step {
        FreezeStep::AwaitingLock(wait) => wait,
        FreezeStep::Done(_) => panic!("the PLL was not waited for"),
    };
    assert_eq!(
        wait.take_journal(),
        vec![
            SccWrite::FrclkMux(FrclkMux::Clkref),
            SccWrite::PllControl(pll_config(1, 75, PllOutPrescaler::Div2)),
        ]
    );
    let wait = match wait.poll(false) {
        LockPoll::Pending(wait) => wait,
        _ => panic!("the wait ended at the first sample"),
    };
    let mut scc = match wait.poll(true) {
        LockPoll::Done(scc) => scc,
        _ => panic!("the lock was not taken"),
    };
    assert_eq!(scc.clocks.sclk().to_Hz(), 150_000_000);
    assert!(scc.reg.pll_locked());
    assert_eq!(
        scc.reg.take_journal(),
        vec![
            SccWrite::SclkMux(SystemClock::PLLCLK),
            SccWrite::HclkDiv(HClockPrescaler::SclkDiv1),
            SccWrite::AclkDiv(AClockPrescaler::SclkDiv1),
            SccWrite::PclkDiv(PClockPrescaler::HclkDiv1),
        ]
    );
}

#[test]
fn lock_wait_gives_up_at_the_last_sample_allowed() {
    for max_polls in [0u32, 1, 2, 5] {
        let scc = SccRegisters::new().constain();
        let mut wait = match scc.begin_freeze(blinky_config(), max_polls) {
            Ok(FreezeStep::AwaitingLock(wait)) => wait,
            _ => panic!("the PLL was not waited for"),
        };
        let mut samples = 0u32;
        let mut scc = loop {
            samples += 1;
            match wait.poll(false) {
                LockPoll::Pending(next) => wait = next,
                LockPoll::TimedOut(scc) => break scc,
                LockPoll::Done(_) => panic!("an unlocked PLL was taken as locked"),
            }
        };
        assert_eq!(samples, max_polls.max(1));
        assert_eq!(scc.reg.take_journal().len(), 2);
        assert_eq!(scc.reg.read().sclk_mux, SystemClock::FRCLK);
        assert_eq!(hz(&scc.clocks), (0, 0, 0, 0));
    }
}

#[test]
fn lock_at_the_last_sample_still_counts() {
    let scc = SccRegisters::new().constain();
    let wait = match scc.begin_freeze(blinky_config(), 1) {
        Ok(FreezeStep::AwaitingLock(wait)) => wait,
        _ => panic!("the PLL was not waited for"),
    };
    assert!(matches!(wait.poll(true), LockPoll::Done(_)));
}

#[test]
fn free_running_configuration_needs_no_wait() {
    let scc = SccRegisters::new().constain();
    match scc.begin_freeze(Config::default(), 0) {
        Ok(FreezeStep::Done(scc)) => assert_eq!(scc.clocks.sclk().to_Hz(), 16_000_000),
        _ => panic!("the free-running clock was waited for"),
    }
    let refused = SccRegisters::new().constain().begin_freeze(
        Config::default()
            .sclk(SystemClock::PLLCLK)
            .pll(PllConfig::default().indiv(1).fbdiv(3)),
        10,
    );
    match refused {
        Err((mut scc, error)) => {
            assert_eq!(
                error,
                ConfigError::OutOfRange(ConfigField::PllFeedbackDivider)
            );
            assert!(scc.reg.take_journal().is_empty());
        }
        Ok(_) => panic!("a feedback divider of 3 was accepted"),
    }
}

#[test]
fn cancelled_wait_leaves_the_pll_programmed() {
    let scc = SccRegisters::new().constain();
    let wait = match scc.begin_freeze(blinky_config(), 4) {
        Ok(FreezeStep::AwaitingLock(wait)) => wait,
        _ => panic!("the PLL was not waited for"),
    };
    let scc = wait.cancel();
    assert_eq!(scc.reg.read().pll, pll_config(1, 75, PllOutPrescaler::Div2));
    assert_eq!(scc.reg.read().sclk_mux, SystemClock::FRCLK);
}

#[test]
fn plans_list_the_writes_of_each_part() {
    let config = blinky_config();
    assert_eq!(
        plan_before_lock(&config),
        vec![
            SccWrite::FrclkMux(FrclkMux::Clkref),
            SccWrite::PllControl(config.pll),
        ]
    );
    assert_eq!(
        plan_after_lock(&config),
        vec![
            SccWrite::SclkMux(SystemClock::PLLCLK),
            SccWrite::HclkDiv(HClockPrescaler::SclkDiv1),
            SccWrite::AclkDiv(AClockPrescaler::SclkDiv1),
            SccWrite::PclkDiv(PClockPrescaler::HclkDiv1),
        ]
    );
    assert_eq!(
        plan_before_lock(&Config::default()),
        vec![SccWrite::RoscEnable, SccWrite::FrclkMux(FrclkMux::Rosc)]
    );
}

#[test]
fn register_file_applies_and_journals_writes() {
    let mut regs = SccRegisters::new();
    let reset = regs.read();
    assert_eq!(reset.frclk_mux, FrclkMux::Rosc);
    assert!(!reset.rosc_enabled && !reset.pll_locked);
    regs.write(SccWrite::HclkDiv(HClockPrescaler::SclkDiv8));
    regs.write_all(&vec![
        SccWrite::RoscEnable,
        SccWrite::SclkMux(SystemClock::PLLCLK),
    ]);
    assert_eq!(
        regs.read(),
        SccFields {
            hclk_div: HClockPrescaler::SclkDiv8,
            rosc_enabled: true,
            sclk_mux: SystemClock::PLLCLK,
            ..reset
        }
    );
    assert_eq!(
        regs.take_journal(),
        vec![
            SccWrite::HclkDiv(HClockPrescaler::SclkDiv8),
            SccWrite::RoscEnable,
            SccWrite::SclkMux(SystemClock::PLLCLK),
        ]
    );
    let loaded = SccRegisters::with_fields(SccFields {
        pll_locked: true,
        ..reset
    });
    assert!(loaded.pll_locked());
}

#[test]
fn configuration_builders_set_their_own_field() {
    let default = Config::default();
    assert_eq!(default.hclk, HClockPrescaler::SclkDiv1);
    assert!(default.aclk_enable && default.pclk_enable && default.rosc_enable);
    assert_eq!(default.sclk_mux, SystemClock::FRCLK);
    assert_eq!(default.frclk_mux, ClockSource::RingOsc);
    let built = default
        .hclk(HClockPrescaler::SclkDiv2)
        .aclk_enable(false)
        .aclk(AClockPrescaler::SclkDiv3)
        .pclk_enable(false)
        .pclk(PClockPrescaler::HclkDiv4)
        .sclk(SystemClock::PLLCLK)
        .rosc_enable(false)
        .frclk(ClockSource::RefClock)
        .pll(PllConfig::default().bypass(true));
    assert_eq!(
        built,
        Config {
            hclk: HClockPrescaler::SclkDiv2,
            aclk_enable: false,
            aclk: AClockPrescaler::SclkDiv3,
            pclk_enable: false,
            pclk: PClockPrescaler::HclkDiv4,
            sclk_mux: SystemClock::PLLCLK,
            rosc_enable: false,
            frclk_mux: ClockSource::RefClock,
            pll: PllConfig {
                fbdiv: 0,
                indiv: 0,
                outdiv: PllOutPrescaler::Div1,
                bypass: true,
                enabled: false,
            },
        }
    );
    assert_eq!(
        pll_config(3, 9, PllOutPrescaler::Div3),
        PllConfig {
            fbdiv: 9,
            indiv: 3,
            outdiv: PllOutPrescaler::Div3,
            bypass: false,
            enabled: true,
        }
    );
}
