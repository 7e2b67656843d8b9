use pac25_hal::crc::{Crc, CrcFields, CrcRegisters, CrcWrite, DataWidth, Polynomial};
use pac25_hal::scc::{SccExt, SccRegisters, SccWrite, UsartMode};
use pac25_hal::ssp::{
    Config as SpiConfig, FrameSettings, SspExt, SspFields, SspRegisters, SspWrite, CPH, CPO, FRF,
    MS, SOD,
};
use pac25_hal::time::{Bps, MilliSeconds, U32Ext};
use pac25_hal::uart::{Config as UartConfig, Parity, StopBits, WordLength};
use pac25_hal::watchdog::{
    ClockSelect, Control, WindowWatchdog, WwdtFields, WwdtRegisters, WwdtWrite, KEY_READ_ONLY,
    KEY_READ_WRITE,
};

const RESET_CONTROL: Control = Control {
    enabled: false,
    interrupt_enabled: false,
    reset_enabled: false,
    clock: ClockSelect::Frclk,
    clkdiv: 0,
};

#[test]
fn uart_default_is_115200_8n1() {
    let config = UartConfig::default();
    assert_eq!(
        config,
        UartConfig {
            baudrate: Bps(115_200),
            parity: None,
            stop_bits: StopBits::Stop1,
            word_length: WordLength::Length8,
        }
    );
    assert_eq!(UartConfig::from(Bps(9_600)).baudrate, Bps(9_600));
    assert_eq!(
        UartConfig::from(9_600.bps()),
        UartConfig::default().baudrate(Bps(9_600))
    );
}

#[test]
fn uart_builders_set_their_own_field() {
    let config = UartConfig::default()
        .baudrate(19_200.bps())
        .parity_even()
        .stop_bits(StopBits::Stop2)
        .word_length(WordLength::Length7);
    assert_eq!(
        config,
        UartConfig {
            baudrate: Bps(19_200),
            parity: Some(Parity::Even),
            stop_bits: StopBits::Stop2,
            word_length: WordLength::Length7,
        }
    );
    assert_eq!(config.parity_odd().parity, Some(Parity::Odd));
    assert_eq!(config.parity_odd().parity_none().parity, None);
    assert_eq!(config.parity_none().stop_bits, StopBits::Stop2);
}

#[test]
fn spi_default_is_an_eight_bit_master() {
    assert_eq!(
        SpiConfig::default(),
        SpiConfig {
            m: 2,
            n: 254,
            frame_format: FRF::Spi,
            mode: MS::Master,
            lsb_first: false,
            loopback: false,
            clock_out_phase: CPH::FirstEdge,
            clock_polarity: CPO::ActiveHigh,
            data_size: 8,
            slave_output_drive: SOD::Disabled,
        }
    );
}

#[test]
fn spi_builders_set_their_own_field() {
    let config = SpiConfig::default()
        .m(5)
        .n(17)
        .frame_format(FRF::Microwire)
        .mode(MS::Slave)
        .lsb_first(true)
        .loopback(true)
        .clock_out_phase(CPH::SecondEdge)
        .clock_polarity(CPO::ActiveLow)
        .data_size(32);
    assert_eq!(
        config,
        SpiConfig {
            m: 5,
            n: 17,
            frame_format: FRF::Microwire,
            mode: MS::Slave,
            lsb_first: true,
            loopback: true,
            clock_out_phase: CPH::SecondEdge,
            clock_polarity: CPO::ActiveLow,
            data_size: 32,
            slave_output_drive: SOD::Disabled,
        }
    );
    assert_eq!(SpiConfig::default().data_size(4).data_size, 4);
    assert_eq!(SpiConfig::default().frame_format(FRF::Ti).frame_format, FRF::Ti);
}

#[test]
fn spi_is_configured_then_enabled() {
    let mut scc = SccRegisters::new().constain();
    let config = SpiConfig::default().data_size(16).lsb_first(true);
    let mut spi = SspRegisters::new().spi(&mut scc, config);
    assert_eq!(
        scc.reg.take_journal(),
        vec![SccWrite::UsartAMode(UsartMode::Ssp)]
    );
    assert_eq!(scc.reg.read().usart_a_mode, UsartMode::Ssp);
    let frame = FrameSettings {
        data_size_select: 15,
        frame_format: FRF::Spi,
        clock_polarity: CPO::ActiveHigh,
        clock_out_phase: CPH::FirstEdge,
        slave_output_drive: SOD::Disabled,
        mode: MS::Master,
        loopback: false,
        lsb_first: true,
    };
    assert_eq!(
        spi.reg.take_journal(),
        vec![
            SspWrite::Clock { m: 2, n: 254 },
            SspWrite::Frame(frame),
            SspWrite::ClearInterrupts,
            SspWrite::Enable,
        ]
    );
    assert_eq!(
        spi.reg.read(),
        SspFields {
            m: 2,
            n: 254,
            frame,
            enabled: true,
        }
    );
}

#[test]
fn spi_switches_usart_a_back_from_uart_mode() {
    let mut regs = SccRegisters::new();
    regs.write(SccWrite::UsartAMode(UsartMode::Uart));
    let mut scc = regs.constain();
    let spi = SspRegisters::new().spi(&mut scc, SpiConfig::default().data_size(4));
    assert_eq!(scc.reg.read().usart_a_mode, UsartMode::Ssp);
    assert_eq!(spi.reg.read().frame.data_size_select, 3);
    let widest = SspRegisters::new().spi(&mut scc, SpiConfig::default().data_size(32));
    assert_eq!(widest.reg.read().frame.data_size_select, 31);
}

#[test]
fn ssp_registers_start_disabled() {
    let mut regs = SspRegisters::new();
    assert!(!regs.read().enabled);
    regs.write(SspWrite::Enable);
    assert!(regs.read().enabled);
    assert_eq!(regs.take_journal(), vec![SspWrite::Enable]);
    let loaded = SspRegisters::with_fields(SspFields {
        m: 9,
        ..regs.read()
    });
    assert_eq!(loaded.read().m, 9);
}

#[test]
fn crc_unit_is_configured_on_creation() {
    let mut crc = Crc::new(
        CrcRegisters::new(),
        Polynomial::Crc8DallasMaxim,
        DataWidth::Width8Bits,
    );
    crc.seed(0xBEEF);
    let mut regs = crc.release();
    assert_eq!(
        regs.read(),
        CrcFields {
            polynomial_select: 2,
            eight_bit: true,
            seed: 0xBEEF,
        }
    );
    assert_eq!(
        regs.take_journal(),
        vec![
            CrcWrite::Control {
                polynomial_select: 2,
                eight_bit: true,
            },
            CrcWrite::Seed(0xBEEF),
        ]
    );
}

#[test]
fn crc_polynomials_have_their_field_values() {
    assert_eq!(Polynomial::Crc16Ccitt.bits(), 0);
    assert_eq!(Polynomial::Crc16Ibm.bits(), 1);
    assert_eq!(Polynomial::Crc8DallasMaxim.bits(), 2);
    let wide = Crc::new(
        CrcRegisters::with_fields(CrcFields {
            polynomial_select: 3,
            eight_bit: true,
            seed: 7,
        }),
        Polynomial::Crc16Ibm,
        DataWidth::Width32Bits,
    );
    assert_eq!(
        wide.crc.read(),
        CrcFields {
            polynomial_select: 1,
            eight_bit: false,
            seed: 7,
        }
    );
}

#[test]
fn watchdog_period_counts_ring_oscillator_ticks() {
    assert_eq!(WindowWatchdog::timeout_period(0, 0xFFFF), 4);
    assert_eq!(WindowWatchdog::timeout_period(0, 15_999), 1);
    assert_eq!(WindowWatchdog::timeout_period(0, 15_998), 0);
    assert_eq!(WindowWatchdog::timeout_period(4, 999), 1);
    assert_eq!(WindowWatchdog::timeout_period(10, 0xFFFF), 4_194);
    assert_eq!(WindowWatchdog::timeout_period(15, 0xFFFF), 134_217);
    assert_eq!(WindowWatchdog::timeout_period(15, 0), 2);
    for clkdiv in 0..=15u8 {
        assert_eq!(
            WindowWatchdog::timeout_period(clkdiv, 0xFFFF),
            65_536 * (1u32 << clkdiv) / 16_000
        );
    }
}

#[test]
fn watchdog_divider_is_the_first_whose_limit_holds_the_timeout() {
    assert_eq!(WindowWatchdog::choose_divider(0), 0);
    assert_eq!(WindowWatchdog::choose_divider(1), 10);
    assert_eq!(WindowWatchdog::choose_divider(2), 11);
    assert_eq!(WindowWatchdog::choose_divider(3), 12);
    assert_eq!(WindowWatchdog::choose_divider(4), 12);
    assert_eq!(WindowWatchdog::choose_divider(5), 13);
    assert_eq!(WindowWatchdog::choose_divider(8), 13);
    assert_eq!(WindowWatchdog::choose_divider(9), 15);
    assert_eq!(WindowWatchdog::choose_divider(1_000), 15);
    assert_eq!(WindowWatchdog::choose_divider(u32::MAX), 15);
}

#[test]
fn watchdog_setup_programs_divider_and_countdown() {
    let mut watchdog = WindowWatchdog::new(WwdtRegisters::new());
    watchdog.setup(MilliSeconds::millis(1_000));
    // Divider 15: the longest period is 134_217 ms, and 1000 * 65535 / 134217 = 488.
    assert_eq!(
        watchdog.wwdt.take_journal(),
        vec![
            WwdtWrite::Lock(KEY_READ_WRITE),
            WwdtWrite::Control(Control {
                clock: ClockSelect::Roscclk,
                ..RESET_CONTROL
            }),
            WwdtWrite::Countdown { cdv: 0, window: 0 },
            WwdtWrite::Control(Control {
                reset_enabled: true,
                ..RESET_CONTROL
            }),
            WwdtWrite::ClockDivider(15),
            WwdtWrite::CountdownValue(488),
        ]
    );
    assert_eq!(
        watchdog.wwdt.read(),
        WwdtFields {
            lock: KEY_READ_WRITE,
            control: Control {
                reset_enabled: true,
                clkdiv: 15,
                ..RESET_CONTROL
            },
            cdv: 488,
            window: 0,
        }
    );
    assert_eq!(watchdog.interval().ticks(), 1_001);
}

#[test]
fn watchdog_countdown_is_capped() {
    let mut watchdog = WindowWatchdog::new(WwdtRegisters::new());
    watchdog.setup(MilliSeconds::from_ticks(5));
    // Divider 13: the longest period is 33_554 ms, and 5 * 65535 / 33554 = 9.
    assert_eq!(watchdog.wwdt.read().control.clkdiv, 13);
    assert_eq!(watchdog.wwdt.read().cdv, 9);
    watchdog.setup(MilliSeconds::from_ticks(0));
    assert_eq!(watchdog.wwdt.read().control.clkdiv, 0);
    assert_eq!(watchdog.wwdt.read().cdv, 0);
    assert_eq!(watchdog.interval().ticks(), 0);
    watchdog.setup(MilliSeconds::from_ticks(32_767));
    assert_eq!(watchdog.wwdt.read().control.clkdiv, 15);
    assert_eq!(watchdog.wwdt.read().cdv, 15_999);
    assert_eq!(watchdog.interval(), MilliSeconds::millis(32_768));
}

#[test]
fn watchdog_start_enables_and_locks() {
    let mut watchdog = WindowWatchdog::new(WwdtRegisters::new());
    watchdog.start(MilliSeconds::millis(1_000));
    let journal = watchdog.wwdt.take_journal();
    assert_eq!(journal.len(), 8);
    assert_eq!(
        journal[6..],
        [
            WwdtWrite::Control(Control {
                enabled: true,
                ..RESET_CONTROL
            }),
            WwdtWrite::Lock(KEY_READ_ONLY),
        ]
    );
    assert_eq!(
        watchdog.wwdt.read(),
        WwdtFields {
            lock: KEY_READ_ONLY,
            control: Control {
                enabled: true,
                ..RESET_CONTROL
            },
            cdv: 488,
            window: 0,
        }
    );
}

#[test]
fn watchdog_feed_writes_the_clear_register() {
    let mut watchdog = WindowWatchdog::new(WwdtRegisters::new());
    let before = watchdog.wwdt.read();
    watchdog.feed();
    watchdog.feed();
    assert_eq!(
        watchdog.wwdt.take_journal(),
        vec![WwdtWrite::Clear(0b0101), WwdtWrite::Clear(0b0101)]
    );
    assert_eq!(watchdog.wwdt.read(), before);
}

#[test]
fn watchdog_registers_refuse_a_divider_beyond_four_bits() {
    let fields = WwdtFields {
        lock: 0,
        control: Control {
            clkdiv: 16,
            ..RESET_CONTROL
        },
        cdv: 0,
        window: 0,
    };
    assert!(WwdtRegisters::with_fields(fields).is_none());
    let widest = WwdtFields {
        control: Control {
            clkdiv: 15,
            ..RESET_CONTROL
        },
        cdv: 0xFFFF,
        ..fields
    };
    let watchdog = WindowWatchdog::new(WwdtRegisters::with_fields(widest).unwrap());
    assert_eq!(watchdog.interval().ticks(), 134_217);
}

#[test]
fn durations_and_rates_keep_their_values() {
    assert_eq!(MilliSeconds::millis(1_000).ticks(), 1_000);
    assert_eq!(MilliSeconds::from_ticks(7), MilliSeconds::millis(7));
    assert_eq!(115_200u32.bps(), Bps(115_200));
}
