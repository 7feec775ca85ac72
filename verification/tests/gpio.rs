use lpc8xx_hal::direction::{Dynamic, DynamicPinErr, Input, Output};
use lpc8xx_hal::gpio::{ClockGate, DynamicGpioPin, GpioPin, Level, GPIO};
use lpc8xx_hal::pins::DynamicPinDirection;
use lpc8xx_hal::registers::{Registers, WriteOp, WriteRecord};

fn enabled_gpio(num_ports: usize) -> (GPIO<lpc8xx_hal::init_state::Enabled>, ClockGate) {
    let mut syscon = ClockGate::new();
    let gpio = GPIO::new(num_ports);
    let gpio = gpio.enable(&mut syscon);
    (gpio, syscon)
}

#[test]
fn enable_starts_clock_and_disable_stops_it() {
    let mut syscon = ClockGate::new();
    assert!(!syscon.is_enabled());
    let gpio = GPIO::new(1);
    let gpio = gpio.enable(&mut syscon);
    assert!(syscon.is_enabled());
    let gpio = gpio.disable(&mut syscon);
    assert!(!syscon.is_enabled());
    let _ = gpio.free();
}

#[test]
fn token_taken_once_until_given_back() {
    let (mut gpio, _syscon) = enabled_gpio(2);
    let token = gpio.tokens.take(0, 12).expect("token available at startup");
    assert_eq!(token.port(), 0);
    assert_eq!(token.mask(), 1u32 << 12);
    assert!(gpio.tokens.take(0, 12).is_none(), "second handle for one pin");
    let other = gpio.tokens.take(1, 12).expect("same bit on other port is free");
    gpio.tokens.give_back(token);
    let again = gpio.tokens.take(0, 12).expect("returned token can be taken again");
    gpio.tokens.give_back(again);
    gpio.tokens.give_back(other);
}

#[test]
fn disable_after_all_tokens_returned() {
    let (mut gpio, mut syscon) = enabled_gpio(1);
    let token = gpio.tokens.take(0, 5).unwrap();
    let mut regs = Registers::new(1);
    let pin = GpioPin::<Input>::new(token, &mut regs);
    let token = pin.free();
    gpio.tokens.give_back(token);
    let _ = gpio.disable(&mut syscon);
    assert!(!syscon.is_enabled());
}

#[test]
fn output_pin_drives_and_reads_back_its_level() {
    let mut regs = Registers::new(1);
    let (mut gpio, _syscon) = enabled_gpio(1);
    let token = gpio.tokens.take(0, 7).unwrap();
    let mut pin = GpioPin::<Output>::new(token, Level::High, &mut regs);
    assert!(pin.is_set_high(&regs));
    assert!(!pin.is_set_low(&regs));
    pin.set_low(&mut regs);
    assert!(pin.is_set_low(&regs));
    pin.set_high(&mut regs);
    assert!(pin.is_set_high(&regs));
}

#[test]
fn input_pin_reads_the_externally_driven_level() {
    let mut regs = Registers::new(1);
    let (mut gpio, _syscon) = enabled_gpio(1);
    let token = gpio.tokens.take(0, 4).unwrap();
    let pin = GpioPin::<Input>::new(token, &mut regs);
    assert!(pin.is_low(&regs), "nothing drives the line yet");
    regs.drive_external(0, 1 << 4, true);
    assert!(pin.is_high(&regs));
    regs.drive_external(0, 1 << 4, false);
    assert!(pin.is_low(&regs));
}

#[test]
fn writes_to_other_pins_never_change_an_observed_level() {
    let mut regs = Registers::new(2);
    let (mut gpio, _syscon) = enabled_gpio(2);
    let watched = gpio.tokens.take(0, 3).unwrap();
    let watched = GpioPin::<Output>::new(watched, Level::High, &mut regs);
    assert!(watched.is_set_high(&regs));

    // A neighbour on the same port and a pin on the other port go through
    // every kind of register write.
    let same_port = gpio.tokens.take(0, 9).unwrap();
    let mut same_port = GpioPin::<Output>::new(same_port, Level::Low, &mut regs);
    same_port.set_high(&mut regs);
    same_port.toggle(&mut regs);
    let same_port = same_port.into_input(&mut regs);
    regs.drive_external(0, 1 << 9, true);
    assert!(watched.is_set_high(&regs), "same-port neighbour writes leak");

    let other_port = gpio.tokens.take(1, 3).unwrap();
    let mut other_port = GpioPin::<Output>::new(other_port, Level::Low, &mut regs);
    other_port.set_high(&mut regs);
    other_port.toggle(&mut regs);
    assert!(watched.is_set_high(&regs), "other-port writes leak");

    let _ = same_port;
}

#[test]
fn transition_to_output_writes_level_before_direction() {
    let mut regs = Registers::new(1);
    let (mut gpio, _syscon) = enabled_gpio(1);
    let token = gpio.tokens.take(0, 2).unwrap();
    let pin = GpioPin::<Input>::new(token, &mut regs);
    let before = regs.write_log().len();
    let pin = pin.into_output(Level::High, &mut regs);
    let log = regs.write_log();
    assert_eq!(log.len(), before + 2);
    assert_eq!(log[before], WriteRecord { op: WriteOp::OutSet, port: 0, mask: 1 << 2 });
    assert_eq!(log[before + 1], WriteRecord { op: WriteOp::DirSet, port: 0, mask: 1 << 2 });
    assert!(pin.is_set_high(&regs), "the driven level is the requested one");
}

#[test]
fn transition_to_output_low_clears_the_latch_first() {
    let mut regs = Registers::new(1);
    let (mut gpio, _syscon) = enabled_gpio(1);
    let token = gpio.tokens.take(0, 6).unwrap();
    let pin = GpioPin::<Input>::new(token, &mut regs);
    let before = regs.write_log().len();
    let pin = pin.into_output(Level::Low, &mut regs);
    let log = regs.write_log();
    assert_eq!(log[before], WriteRecord { op: WriteOp::OutClr, port: 0, mask: 1 << 6 });
    assert_eq!(log[before + 1], WriteRecord { op: WriteOp::DirSet, port: 0, mask: 1 << 6 });
    assert!(pin.is_set_low(&regs));
}

#[test]
fn dynamic_transition_writes_level_before_direction() {
    let mut regs = Registers::new(1);
    let (mut gpio, _syscon) = enabled_gpio(1);
    let token = gpio.tokens.take(0, 1).unwrap();
    let pin = GpioPin::<Input>::new(token, &mut regs);
    let before = regs.write_log().len();
    let pin = pin.into_dynamic(Level::High, DynamicPinDirection::Output, &mut regs);
    let log = regs.write_log();
    assert_eq!(log[before], WriteRecord { op: WriteOp::OutSet, port: 0, mask: 1 << 1 });
    assert_eq!(log[before + 1], WriteRecord { op: WriteOp::DirSet, port: 0, mask: 1 << 1 });
    assert!(pin.direction_is_output());
    assert!(pin.is_high(&regs));
}

fn direction_writes_in(log: &Vec<WriteRecord>, from: usize) -> usize {
    let mut n: usize = 0;
    for rec in log[from..].iter() {
        if rec.op == WriteOp::DirSet || rec.op == WriteOp::DirClr {
            n += 1;
        }
    }
    n
}

#[test]
fn switch_to_output_twice_writes_direction_at_most_once() {
    let mut regs = Registers::new(1);
    let (mut gpio, _syscon) = enabled_gpio(1);
    let token = gpio.tokens.take(0, 8).unwrap();
    let mut pin = GpioPin::<Input>::new(token, &mut regs).into_dynamic(
        Level::Low,
        DynamicPinDirection::Input,
        &mut regs,
    );
    let before = regs.write_log().len();
    pin.switch_to_output(Level::Low, &mut regs);
    let after_first = regs.write_log().len();
    assert_eq!(after_first, before + 2, "level write and one direction write");
    assert_eq!(
        regs.write_log()[before],
        WriteRecord { op: WriteOp::OutClr, port: 0, mask: 1 << 8 },
        "the level write comes first",
    );
    assert_eq!(
        regs.write_log()[before + 1],
        WriteRecord { op: WriteOp::DirSet, port: 0, mask: 1 << 8 },
    );
    pin.switch_to_output(Level::Low, &mut regs);
    let log = regs.write_log();
    assert_eq!(log.len(), after_first + 1, "the second call only rewrites the level");
    assert_eq!(log[after_first], WriteRecord { op: WriteOp::OutClr, port: 0, mask: 1 << 8 });
    assert_eq!(direction_writes_in(log, before), 1);
}

#[test]
fn switch_to_input_when_already_input_is_a_no_op() {
    let mut regs = Registers::new(1);
    let (mut gpio, _syscon) = enabled_gpio(1);
    let token = gpio.tokens.take(0, 8).unwrap();
    let mut pin =
        DynamicGpioPin::new(token, Level::Low, DynamicPinDirection::Input, &mut regs);
    let before = regs.write_log().len();
    pin.switch_to_input(&mut regs);
    assert_eq!(regs.write_log().len(), before, "no register written");
    assert!(pin.direction_is_input());
}

#[test]
fn toggle_twice_restores_the_observed_level() {
    let mut regs = Registers::new(1);
    let (mut gpio, _syscon) = enabled_gpio(1);
    let token = gpio.tokens.take(0, 0).unwrap();
    let mut pin = GpioPin::<Output>::new(token, Level::High, &mut regs);
    assert!(pin.is_set_high(&regs));
    pin.toggle(&mut regs);
    assert!(pin.is_set_low(&regs));
    pin.toggle(&mut regs);
    assert!(pin.is_set_high(&regs));
}

#[test]
fn dynamic_pin_handle_round_trip() {
    let mut regs = Registers::new(1);
    let (mut gpio, _syscon) = enabled_gpio(1);
    let token = gpio.tokens.take(0, 10).unwrap();
    let mut pin =
        DynamicGpioPin::new(token, Level::High, DynamicPinDirection::Output, &mut regs);
    assert_eq!(pin.port(), 0);
    assert_eq!(pin.mask(), 1 << 10);
    assert!(pin.direction_is_output());
    assert!(pin.is_high(&regs));
    pin.switch_to_input(&mut regs);
    assert!(pin.direction_is_input());
    assert!(!pin.is_high(&regs), "nothing drives the released line");
    regs.drive_external(0, 1 << 10, true);
    assert!(pin.is_high(&regs));
    pin.switch_to_output(Level::Low, &mut regs);
    assert!(pin.direction_is_output());
    assert!(!pin.is_high(&regs));
}

#[test]
fn wrong_direction_write_is_an_error_not_a_panic() {
    let mut regs = Registers::new(1);
    let (mut gpio, _syscon) = enabled_gpio(1);
    let token = gpio.tokens.take(0, 11).unwrap();
    let mut pin = GpioPin::<Input>::new(token, &mut regs).into_dynamic(
        Level::Low,
        DynamicPinDirection::Input,
        &mut regs,
    );
    let before = regs.write_log().len();
    assert_eq!(pin.try_set_high(&mut regs), Err(DynamicPinErr::WrongDirection));
    assert_eq!(pin.try_set_low(&mut regs), Err(DynamicPinErr::WrongDirection));
    assert_eq!(pin.try_is_set_high(&regs), Err(DynamicPinErr::WrongDirection));
    assert_eq!(pin.try_is_set_low(&regs), Err(DynamicPinErr::WrongDirection));
    assert_eq!(regs.write_log().len(), before, "a refused write touches nothing");
    assert_eq!(pin.try_is_high(&regs), Ok(false));
    assert_eq!(pin.try_is_low(&regs), Ok(true));
}

#[test]
fn wrong_direction_read_is_an_error_not_a_panic() {
    let mut regs = Registers::new(1);
    let (mut gpio, _syscon) = enabled_gpio(1);
    let token = gpio.tokens.take(0, 13).unwrap();
    let mut pin = GpioPin::<Dynamic>::new(
        token,
        Level::High,
        DynamicPinDirection::Output,
        &mut regs,
    );
    assert_eq!(pin.try_is_high(&regs), Err(DynamicPinErr::WrongDirection));
    assert_eq!(pin.try_is_low(&regs), Err(DynamicPinErr::WrongDirection));
    assert_eq!(pin.try_set_low(&mut regs), Ok(()));
    assert_eq!(pin.try_is_set_high(&regs), Ok(false));
    assert_eq!(pin.try_is_set_low(&regs), Ok(true));
}

#[test]
fn preset_level_before_switching_direction() {
    let mut regs = Registers::new(1);
    let (mut gpio, _syscon) = enabled_gpio(1);
    let token = gpio.tokens.take(0, 14).unwrap();
    let mut pin = GpioPin::<Input>::new(token, &mut regs).into_dynamic(
        Level::Low,
        DynamicPinDirection::Input,
        &mut regs,
    );
    // The inherent accessors work regardless of direction, so the level can
    // be preset while the pin still senses.
    pin.set_high(&mut regs);
    pin.switch_to_output(Level::High, &mut regs);
    assert!(pin.is_high(&regs));
}

#[test]
fn output_pin_round_trip_through_input() {
    let mut regs = Registers::new(2);
    let (mut gpio, _syscon) = enabled_gpio(2);
    let token = gpio.tokens.take(1, 15).unwrap();
    let pin = GpioPin::<Output>::new(token, Level::High, &mut regs);
    let pin = pin.into_input(&mut regs);
    regs.drive_external(1, 1 << 15, true);
    assert!(pin.is_high(&regs));
    assert_eq!(pin.port(), 1);
    let pin = pin.into_output(Level::Low, &mut regs);
    assert!(pin.is_set_low(&regs));
    let token = pin.free();
    gpio.tokens.give_back(token);
}

#[test]
fn single_port_register_block() {
    let mut regs = Registers::new(1);
    assert_eq!(regs.port_count(), 1);
    assert_eq!(regs.write_log().len(), 0);
    regs.write_set(0, 0b101);
    regs.write_dirset(0, 0b001);
    assert_eq!(regs.read_pin(0) & 0b001, 0b001);
    assert_eq!(regs.read_dir(0), 0b001);
    assert_eq!(regs.write_log().len(), 2);
}
