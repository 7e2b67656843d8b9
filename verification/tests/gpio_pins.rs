use pac25_hal::gpio::marker::{Active, IntoAf, NotAlt, Readable};
use pac25_hal::gpio::mode_register::{changed_pins, decode_mode, encode_mode};
use pac25_hal::gpio::{
    Alternate, DriveStrength, GpioExt, Input, InvalidPullConfig, NoPin, OpenDrain, Output, Parts,
    Pin, PinExt, PinPull, PinState, PortFields, PortRegisters, PortWrite, Pull, PushPull, ReadPin,
    AF2,
};

const RESET: PortFields = PortFields {
    direction: 0,
    open_drain: 0,
    out: 0,
    input: 0,
    pull_up: 0,
    pull_down: 0,
    mux_select: 0,
};

fn port_d() -> Parts<3> {
    PortRegisters::<3>::new().split()
}

fn port_with(fields: PortFields) -> Parts<3> {
    match PortRegisters::<3>::with_fields(fields) {
        Ok(regs) => regs.split(),
        Err(error) => panic!("registers refused: {:?}", error),
    }
}

fn readable<M: Readable>(_mode: &M) {}

fn active<M: Active>(_mode: &M) {}

fn not_alternate<M: NotAlt>(_mode: &M) {}

fn documents<const A: u8, T: IntoAf<A>>(_pin: &T) {}

#[test]
fn reset_port_has_every_pin_a_floating_input() {
    let mut port = PortRegisters::<0>::new();
    assert_eq!(port.read(), RESET);
    assert!(port.take_journal().is_empty());
}

#[test]
fn split_writes_nothing_and_numbers_the_pins() {
    let fields = PortFields {
        direction: 0xA5,
        out: 0x0F,
        input: 0xF0,
        pull_up: 0x03,
        pull_down: 0x0C,
        open_drain: 0x81,
        mux_select: 0x7654_3210,
    };
    let mut parts = port_with(fields);
    assert_eq!(parts.regs.read(), fields);
    assert!(parts.regs.take_journal().is_empty());
    assert_eq!(parts.p0.pin_id(), 0);
    assert_eq!(parts.p1.pin_id(), 1);
    assert_eq!(parts.p2.pin_id(), 2);
    assert_eq!(parts.p3.pin_id(), 3);
    assert_eq!(parts.p4.pin_id(), 4);
    assert_eq!(parts.p5.pin_id(), 5);
    assert_eq!(parts.p6.pin_id(), 6);
    assert_eq!(parts.p7.pin_id(), 7);
    assert_eq!(parts.p4.port_id(), 3);
    let port_a = PortRegisters::<0>::new().split();
    assert_eq!(port_a.p7.port_id(), 0);
    let port_g = PortRegisters::<6>::new().split();
    assert_eq!(port_g.p0.port_id(), 6);
}

#[test]
fn registers_with_both_pulls_of_a_pin_enabled_are_refused() {
    let both = PortFields {
        pull_up: 0b0001_0000,
        pull_down: 0b0001_0000,
        ..RESET
    };
    assert_eq!(
        PortRegisters::<1>::with_fields(both).err(),
        Some(InvalidPullConfig)
    );
    let overlap = PortFields {
        pull_up: 0xFF,
        pull_down: 0x80,
        ..RESET
    };
    assert!(PortRegisters::<1>::with_fields(overlap).is_err());
    let disjoint = PortFields {
        pull_up: 0x0F,
        pull_down: 0xF0,
        ..RESET
    };
    assert!(PortRegisters::<1>::with_fields(disjoint).is_ok());
}

#[test]
fn pull_up_then_pull_down_leaves_up_cleared_and_down_set() {
    let Parts { mut regs, p4, .. } = port_d();
    let pin = p4.internal_resistor(&mut regs, Pull::Up);
    assert_eq!(regs.read().pull_up, 0b0001_0000);
    assert_eq!(regs.read().pull_down, 0);
    let _pin = pin.internal_resistor(&mut regs, Pull::Down);
    assert_eq!(regs.read().pull_up, 0);
    assert_eq!(regs.read().pull_down, 0b0001_0000);
}

#[test]
fn floating_after_either_pull_clears_both() {
    for first in [Pull::Up, Pull::Down, Pull::Floating] {
        let Parts { mut regs, p6, .. } = port_d();
        let pin = p6.internal_resistor(&mut regs, first);
        let _pin = pin.internal_resistor(&mut regs, Pull::Floating);
        assert_eq!(regs.read().pull_up, 0);
        assert_eq!(regs.read().pull_down, 0);
    }
}

#[test]
fn setting_a_pull_clears_both_enables_before_it_sets_one() {
    let before = PortFields {
        pull_up: 0b0000_0101,
        pull_down: 0b1000_1000,
        ..RESET
    };
    let Parts { mut regs, mut p3, .. } = port_with(before);
    p3.set_internal_resistor(&mut regs, Pull::Up);
    assert_eq!(
        regs.take_journal(),
        vec![
            PortWrite::PullUp(0b0000_0101),
            PortWrite::PullDown(0b1000_0000),
            PortWrite::PullUp(0b0000_1101),
        ]
    );
    assert_eq!(
        regs.read(),
        PortFields {
            pull_up: 0b0000_1101,
            pull_down: 0b1000_0000,
            ..RESET
        }
    );
    p3.set_internal_resistor(&mut regs, Pull::Down);
    assert_eq!(
        regs.take_journal(),
        vec![
            PortWrite::PullUp(0b0000_0101),
            PortWrite::PullDown(0b1000_0000),
            PortWrite::PullDown(0b1000_1000),
        ]
    );
    p3.set_internal_resistor(&mut regs, Pull::Floating);
    assert_eq!(
        regs.take_journal(),
        vec![
            PortWrite::PullUp(0b0000_0101),
            PortWrite::PullDown(0b1000_0000),
        ]
    );
}

#[test]
fn pulls_are_never_both_enabled_after_any_write() {
    let Parts { mut regs, mut p0, mut p7, .. } = port_with(PortFields {
        pull_up: 0b0101_0101,
        pull_down: 0b1010_1010,
        ..RESET
    });
    let mut up: u8 = 0b0101_0101;
    let mut down: u8 = 0b1010_1010;
    for pull in [Pull::Down, Pull::Up, Pull::Up, Pull::Floating, Pull::Down] {
        p0.set_internal_resistor(&mut regs, pull);
        p7.set_internal_resistor(&mut regs, pull);
        for write in regs.take_journal() {
            match write {
                PortWrite::PullUp(value) => up = value,
                PortWrite::PullDown(value) => down = value,
                other => panic!("unexpected write {:?}", other),
            }
            assert_eq!(up & down, 0);
        }
        assert_eq!(regs.read().pull_up, up);
        assert_eq!(regs.read().pull_down, down);
    }
}

#[test]
fn pull_shorthands_switch_one_pull_on_or_both_off() {
    let Parts { mut regs, p2, .. } = port_d();
    let pin = p2.internal_pull_up(&mut regs, true);
    assert_eq!((regs.read().pull_up, regs.read().pull_down), (0b100, 0));
    let pin = pin.internal_pull_down(&mut regs, true);
    assert_eq!((regs.read().pull_up, regs.read().pull_down), (0, 0b100));
    let pin = pin.internal_pull_up(&mut regs, false);
    assert_eq!((regs.read().pull_up, regs.read().pull_down), (0, 0));
    let pin = pin.internal_pull_down(&mut regs, true);
    let _pin = pin.internal_pull_down(&mut regs, false);
    assert_eq!((regs.read().pull_up, regs.read().pull_down), (0, 0));
}

#[test]
fn pull_trait_reaches_the_same_registers() {
    fn pull_down<T: PinPull>(pin: T, port: &mut T::Port) -> T {
        pin.internal_resistor(port, Pull::Down)
    }
    let Parts { mut regs, p5, .. } = port_d();
    let mut pin = pull_down(p5, &mut regs);
    assert_eq!(regs.read().pull_down, 0b0010_0000);
    PinPull::set_internal_resistor(&mut pin, &mut regs, Pull::Up);
    assert_eq!(regs.read().pull_down, 0);
    assert_eq!(regs.read().pull_up, 0b0010_0000);
}

#[test]
fn a_pin_touches_only_its_own_bits() {
    let before = PortFields {
        direction: 0b1100_0011,
        open_drain: 0b0101_1010,
        out: 0b1111_0000,
        input: 0b0011_1100,
        pull_up: 0b0000_0110,
        pull_down: 0b0110_0000,
        mux_select: 0x7060_5040,
    };
    let Parts { mut regs, p3, .. } = port_with(before);
    let pin = p3.into_open_drain_output_in_state(&mut regs, PinState::High);
    let mut pin = pin.internal_resistor(&mut regs, Pull::Up);
    pin.toggle(&mut regs);
    let _pin = pin.into_pull_down_input(&mut regs);
    let after = regs.read();
    let others: u8 = !(1 << 3);
    assert_eq!(after.direction & others, before.direction & others);
    assert_eq!(after.open_drain & others, before.open_drain & others);
    assert_eq!(after.out & others, before.out & others);
    assert_eq!(after.pull_up & others, before.pull_up & others);
    assert_eq!(after.pull_down & others, before.pull_down & others);
    assert_eq!(after.input, before.input);
    assert_eq!(after.mux_select & !(0xF << 12), before.mux_select & !(0xF << 12));
}

#[test]
fn floating_input_clears_direction_and_pulls() {
    let before = PortFields {
        direction: 0xFF,
        pull_up: 0b0000_0010,
        pull_down: 0b0000_0001,
        ..RESET
    };
    let Parts { mut regs, p1, .. } = port_with(before);
    let pin = p1.into_floating_input(&mut regs);
    active(&Input);
    readable(&Input);
    not_alternate(&Input);
    assert_eq!(
        regs.take_journal(),
        vec![
            PortWrite::DirectionClear(0b10),
            PortWrite::PullUp(0),
            PortWrite::PullDown(0b01),
        ]
    );
    assert_eq!(
        regs.read(),
        PortFields {
            direction: 0b1111_1101,
            pull_up: 0,
            pull_down: 0b01,
            ..RESET
        }
    );
    regs.set_input(0b0000_0010);
    assert!(pin.is_high(&regs));
    assert!(!pin.is_low(&regs));
}

#[test]
fn pulled_inputs_clear_direction_then_set_their_pull() {
    let Parts { mut regs, p4, p5, .. } = port_with(PortFields {
        direction: 0b0011_0000,
        ..RESET
    });
    let _down = p4.into_pull_down_input(&mut regs);
    assert_eq!(
        regs.take_journal(),
        vec![
            PortWrite::DirectionClear(0b0001_0000),
            PortWrite::PullUp(0),
            PortWrite::PullDown(0),
            PortWrite::PullDown(0b0001_0000),
        ]
    );
    let _up = p5.into_pull_up_input(&mut regs);
    assert_eq!(
        regs.take_journal(),
        vec![
            PortWrite::DirectionClear(0b0010_0000),
            PortWrite::PullUp(0),
            PortWrite::PullDown(0b0001_0000),
            PortWrite::PullUp(0b0010_0000),
        ]
    );
    assert_eq!(
        regs.read(),
        PortFields {
            pull_up: 0b0010_0000,
            pull_down: 0b0001_0000,
            ..RESET
        }
    );
}

#[test]
fn push_pull_output_sets_type_then_direction() {
    let Parts { mut regs, p4, .. } = port_with(PortFields {
        open_drain: 0xFF,
        out: 0b0001_0000,
        ..RESET
    });
    let pin = p4.into_push_pull_output(&mut regs);
    assert_eq!(
        regs.take_journal(),
        vec![
            PortWrite::OpenDrain(0b1110_1111),
            PortWrite::DirectionSet(0b0001_0000),
        ]
    );
    assert_eq!(
        regs.read(),
        PortFields {
            open_drain: 0b1110_1111,
            direction: 0b0001_0000,
            out: 0b0001_0000,
            ..RESET
        }
    );
    assert!(pin.is_set_high(&regs));
    assert_eq!(pin.get_state(&regs), PinState::High);
}

#[test]
fn output_in_state_presets_the_latch_before_the_direction() {
    let Parts { mut regs, p0, p1, .. } = port_with(PortFields {
        out: 0b0000_0001,
        ..RESET
    });
    let low = p0.into_push_pull_output_in_state(&mut regs, PinState::Low);
    assert_eq!(
        regs.take_journal(),
        vec![
            PortWrite::OutputClear(0b01),
            PortWrite::OpenDrain(0),
            PortWrite::DirectionSet(0b01),
        ]
    );
    assert!(low.is_set_low(&regs));
    let high = p1.into_open_drain_output_in_state(&mut regs, PinState::High);
    assert_eq!(
        regs.take_journal(),
        vec![
            PortWrite::OutputSet(0b10),
            PortWrite::OpenDrain(0b10),
            PortWrite::DirectionSet(0b10),
        ]
    );
    assert!(high.is_set_high(&regs));
    assert_eq!(
        regs.read(),
        PortFields {
            out: 0b10,
            open_drain: 0b10,
            direction: 0b11,
            ..RESET
        }
    );
}

#[test]
fn open_drain_output_can_be_read_and_pulled() {
    let Parts { mut regs, p6, .. } = port_d();
    let pin = p6.into_open_drain_output(&mut regs);
    readable(&Output::<OpenDrain>::default());
    active(&Output::<OpenDrain>::default());
    not_alternate(&Output::<OpenDrain>::default());
    not_alternate(&Output::<PushPull>::default());
    assert_eq!(
        regs.take_journal(),
        vec![
            PortWrite::OpenDrain(0b0100_0000),
            PortWrite::DirectionSet(0b0100_0000),
        ]
    );
    regs.set_input(0b0100_0000);
    assert!(pin.is_high(&regs));
    regs.set_input(0b1011_1111);
    assert!(pin.is_low(&regs));
    assert!(ReadPin::is_low(&pin, &regs));
    assert!(!ReadPin::is_high(&pin, &regs));
    let _pin = pin.internal_pull_up(&mut regs, true);
    assert_eq!(regs.read().pull_up, 0b0100_0000);
}

#[test]
fn output_pin_drives_and_toggles_its_latch() {
    let Parts { mut regs, p4, .. } = port_d();
    let mut led = p4.into_push_pull_output(&mut regs);
    regs.take_journal();
    assert!(led.is_set_low(&regs));
    assert_eq!(led.get_state(&regs), PinState::Low);
    led.set_high(&mut regs);
    assert!(led.is_set_high(&regs));
    assert_eq!(regs.read().out, 0b0001_0000);
    led.set_low(&mut regs);
    assert!(led.is_set_low(&regs));
    led.toggle(&mut regs);
    assert_eq!(led.get_state(&regs), PinState::High);
    led.toggle(&mut regs);
    assert_eq!(led.get_state(&regs), PinState::Low);
    led.set_state(&mut regs, PinState::High);
    assert!(led.is_set_high(&regs));
    led.set_state(&mut regs, PinState::Low);
    assert!(!led.is_set_high(&regs));
    assert_eq!(
        regs.take_journal(),
        vec![
            PortWrite::OutputSet(0b0001_0000),
            PortWrite::OutputClear(0b0001_0000),
            PortWrite::OutputSet(0b0001_0000),
            PortWrite::OutputClear(0b0001_0000),
            PortWrite::OutputSet(0b0001_0000),
            PortWrite::OutputClear(0b0001_0000),
        ]
    );
}

#[test]
fn latch_and_level_are_different_registers() {
    let Parts { mut regs, p2, .. } = port_d();
    let mut pin = p2.into_open_drain_output_in_state(&mut regs, PinState::High);
    regs.set_input(0);
    assert!(pin.is_set_high(&regs));
    assert!(pin.is_low(&regs));
    pin.set_low(&mut regs);
    regs.set_input(0b100);
    assert!(pin.is_set_low(&regs));
    assert!(pin.is_high(&regs));
    assert!(regs.take_journal().len() > 0);
    assert_eq!(regs.read().input, 0b100);
}

#[test]
fn alternate_mode_sets_type_and_routes_the_pin() {
    let Parts { mut regs, p4, p7, .. } = port_with(PortFields {
        open_drain: 0b0001_0000,
        mux_select: 0x0005_0000,
        ..RESET
    });
    documents::<7, Pin<3, 4, Input>>(&p4);
    documents::<0, Pin<3, 4, Input>>(&p4);
    let spi: Pin<3, 4, Alternate<7, PushPull>> = p4.into_alternate::<7>(&mut regs);
    assert_eq!(spi.pin_id(), 4);
    assert_eq!(
        regs.take_journal(),
        vec![
            PortWrite::OpenDrain(0),
            PortWrite::MuxSelect(0x0007_0000),
        ]
    );
    let i2c: Pin<3, 7, Alternate<7, OpenDrain>> = p7.into_alternate_open_drain::<7>(&mut regs);
    assert_eq!(i2c.pin_id(), 7);
    assert_eq!(
        regs.take_journal(),
        vec![
            PortWrite::OpenDrain(0b1000_0000),
            PortWrite::MuxSelect(0x7007_0000),
        ]
    );
    assert_eq!(
        regs.read(),
        PortFields {
            open_drain: 0b1000_0000,
            mux_select: 0x7007_0000,
            ..RESET
        }
    );
}

#[test]
fn alternate_function_zero_routes_the_pin_to_the_port() {
    let Parts { mut regs, p3, .. } = port_with(PortFields {
        mux_select: 0xFFFF_FFFF,
        ..RESET
    });
    let _pin: Pin<3, 3, AF2> = p3
        .into_alternate::<0>(&mut regs)
        .into_alternate::<2>(&mut regs);
    assert_eq!(
        regs.take_journal(),
        vec![
            PortWrite::OpenDrain(0),
            PortWrite::MuxSelect(0xFFFF_8FFF),
            PortWrite::OpenDrain(0),
            PortWrite::MuxSelect(0xFFFF_AFFF),
        ]
    );
}

#[test]
fn leaving_an_alternate_function_routes_the_pin_back() {
    let Parts { mut regs, p5, .. } = port_d();
    let alternate = p5.into_alternate::<5>(&mut regs);
    assert_eq!(regs.read().mux_select, 0x0050_0000);
    regs.take_journal();
    let output = alternate.into_push_pull_output_in_state(&mut regs, PinState::High);
    assert_eq!(
        regs.take_journal(),
        vec![
            PortWrite::OutputSet(0b0010_0000),
            PortWrite::MuxSelect(0),
            PortWrite::OpenDrain(0),
            PortWrite::DirectionSet(0b0010_0000),
        ]
    );
    let alternate = output.into_alternate_open_drain::<7>(&mut regs);
    regs.take_journal();
    let _input = alternate.into_floating_input(&mut regs);
    assert_eq!(
        regs.take_journal(),
        vec![
            PortWrite::MuxSelect(0),
            PortWrite::DirectionClear(0b0010_0000),
            PortWrite::PullUp(0),
            PortWrite::PullDown(0),
        ]
    );
    assert_eq!(
        regs.read(),
        PortFields {
            out: 0b0010_0000,
            open_drain: 0b0010_0000,
            ..RESET
        }
    );
}

#[test]
fn highest_pin_uses_the_highest_bits() {
    let Parts { mut regs, p7, .. } = port_d();
    let pin = p7.into_alternate::<7>(&mut regs);
    assert_eq!(regs.read().mux_select, 0x7000_0000);
    let mut pin = pin.into_push_pull_output(&mut regs);
    assert_eq!(regs.read().mux_select, 0);
    assert_eq!(regs.read().direction, 0x80);
    pin.set_high(&mut regs);
    assert_eq!(regs.read().out, 0x80);
    let pin = pin.into_pull_up_input(&mut regs);
    assert_eq!(regs.read().pull_up, 0x80);
    assert_eq!(regs.read().direction, 0);
    regs.set_input(0x7F);
    assert!(pin.is_low(&regs));
}

#[test]
fn input_levels_are_no_writes() {
    let mut regs = PortRegisters::<2>::new();
    regs.set_input(0xA5);
    assert_eq!(regs.read().input, 0xA5);
    assert!(regs.take_journal().is_empty());
}

#[test]
fn drive_strengths_have_their_field_values() {
    let strengths = [
        DriveStrength::_6mA,
        DriveStrength::_8mA,
        DriveStrength::_11mA,
        DriveStrength::_14mA,
        DriveStrength::_17mA,
        DriveStrength::_20mA,
        DriveStrength::_22mA,
        DriveStrength::_25mA,
    ];
    for (value, strength) in strengths.into_iter().enumerate() {
        assert_eq!(usize::from(strength.bits()), value);
    }
}

#[test]
fn filler_pin_can_be_made() {
    let _push_pull: NoPin = NoPin::new();
    let _open_drain: NoPin<OpenDrain> = NoPin::new();
}

#[test]
fn mode_register_states_direction_and_output_type() {
    // Pin 0 push pull, pin 1 open-drain, pin 2 input, pin 3 unset, pin 7 open-drain.
    let mode: u32 = 0b10_00_00_00_00_11_10_01;
    assert_eq!(decode_mode(mode), (0b1000_0011, 0b1000_0010));
    assert_eq!(decode_mode(0), (0, 0));
    assert_eq!(decode_mode(0xFFFF), (0, 0));
    assert_eq!(decode_mode(0x5555), (0xFF, 0));
    assert_eq!(decode_mode(0xAAAA), (0xFF, 0xFF));
    assert_eq!(decode_mode(0xFFFF_0001), (1, 0));
}

#[test]
fn mode_register_is_written_for_the_changed_pins_only() {
    let mode: u32 = 0xABCD_0000 | 0b10_00_00_00_00_11_10_01;
    // Pin 3 becomes an open-drain output, pin 0 an input.
    let updated = encode_mode(mode, 0b0000_1001, 0b0000_1000, 0b0000_1001);
    assert_eq!(updated, 0xABCD_0000 | 0b10_00_00_00_10_11_10_11);
    assert_eq!(encode_mode(mode, 0, 0xFF, 0xFF), mode);
    assert_eq!(encode_mode(0, 0xFF, 0, 0xFF), 0xFFFF);
    assert_eq!(encode_mode(0, 0xFF, 0xFF, 0), 0x5555);
    assert_eq!(encode_mode(0xFFFF_FFFF, 0xFF, 0xFF, 0xFF), 0xFFFF_AAAA);
    assert_eq!(encode_mode(0, 0x80, 0x80, 0), 0x4000);
    for (direction, open_drain) in [(0x00u8, 0x00u8), (0xFF, 0x00), (0xA5, 0xA1), (0x0F, 0x0A)] {
        let written = encode_mode(0x1234_5678, 0xFF, direction, open_drain);
        assert_eq!(decode_mode(written), (direction, open_drain));
    }
}

#[test]
fn changed_pins_are_those_whose_mode_field_differs() {
    assert_eq!(changed_pins(0, 0, 0, 0), 0);
    assert_eq!(changed_pins(0b01, 0, 0b10, 0), 0b11);
    // The output type of an input does not show in its mode field.
    assert_eq!(changed_pins(0b0001, 0b0000, 0b0001, 0b0011), 0b0001);
    assert_eq!(changed_pins(0xFF, 0x0F, 0xFF, 0xF0), 0xFF);
    assert_eq!(changed_pins(0x00, 0x0F, 0x00, 0xF0), 0x00);
}
