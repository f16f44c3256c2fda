use lcd_hw::COUNTER_MASK;
use lcd_hw::hw::BusOp;
use lcd_hw::hw::LcdHardware;
use lcd_hw::pins::GpioBank;
use lcd_hw::pins::board_pin_map;
use lcd_hw::timer::CounterModel;

fn fresh_hw(odr: u16, outputs: u16) -> LcdHardware {
    LcdHardware {
        bank: GpioBank { odr, outputs },
        counter: CounterModel::new(COUNTER_MASK),
        pins: board_pin_map(),
        ticks_per_us: 9,
    }
}

#[test]
fn rs_and_enable_drive_their_pins() {
    let mut hw = fresh_hw(0, 0);
    hw.rs(true);
    assert_eq!(hw.bank.odr, 1 << 1);
    hw.enable(true);
    assert_eq!(hw.bank.odr, (1 << 1) | (1 << 11));
    hw.rs(false);
    assert_eq!(hw.bank.odr, 1 << 11);
}

#[test]
fn rs_twice_same_as_once() {
    let mut once = fresh_hw(0x00FF, 0);
    once.rs(true);
    let mut twice = fresh_hw(0x00FF, 0);
    twice.rs(true);
    twice.rs(true);
    assert_eq!(once.bank.odr, twice.bank.odr);
}

#[test]
fn data_presents_every_nibble_on_the_bus() {
    for nibble in 0u8..16 {
        let mut hw = fresh_hw(0xFFFF, 0);
        hw.data(nibble);
        // Exactly the requested bits on pins 12..16, everything else kept.
        assert_eq!(hw.bank.odr, 0x0FFF | ((nibble as u16) << 12));
    }
}

#[test]
fn data_uses_only_the_low_nibble() {
    let mut hw = fresh_hw(0, 0);
    hw.data(0xA7);
    assert_eq!(hw.bank.odr, 0x7000);
}

#[test]
fn delay_us_leaves_pins_and_reload_alone() {
    let mut hw = fresh_hw(0x1234, 0x0FFF);
    hw.delay_us(3);
    assert_eq!(hw.bank.odr, 0x1234);
    assert_eq!(hw.bank.outputs, 0x0FFF);
    assert_eq!(hw.counter.reload, COUNTER_MASK);
    assert_eq!(hw.counter.get_current(), COUNTER_MASK - 27);
}

#[test]
fn enter_read_mode_order() {
    let mut hw = fresh_hw(0xF000, 0xF000);
    let ops = hw.rw(true);
    // Zero the bus first, then let go of the pins, and only then assert
    // the read/write line.
    assert_eq!(
        ops,
        vec![
            BusOp::WriteRange { start: 12, width: 4, bits: 0 },
            BusOp::ConfigInput { pin: 12 },
            BusOp::ConfigInput { pin: 13 },
            BusOp::ConfigInput { pin: 14 },
            BusOp::ConfigInput { pin: 15 },
            BusOp::WritePin { pin: 10, value: true },
        ]
    );
    // Bus zeroed, pins released, read mode asserted.
    assert_eq!(hw.bank.odr & 0xF000, 0);
    assert_eq!(hw.bank.outputs & 0xF000, 0);
    assert_ne!(hw.bank.odr & (1 << 10), 0);
}

#[test]
fn leave_read_mode_order() {
    let mut hw = fresh_hw(1 << 10, 0);
    let before = hw.counter.get_current();
    let ops = hw.rw(false);
    // Deassert the line first, wait a microsecond, then drive again.
    assert_eq!(
        ops,
        vec![
            BusOp::WritePin { pin: 10, value: false },
            BusOp::DelayUs { us: 1 },
            BusOp::ConfigOutput { pin: 12 },
            BusOp::ConfigOutput { pin: 13 },
            BusOp::ConfigOutput { pin: 14 },
            BusOp::ConfigOutput { pin: 15 },
        ]
    );
    assert_eq!(hw.bank.odr & (1 << 10), 0);
    assert_eq!(hw.bank.outputs & 0xF000, 0xF000);
    // The settling delay really elapsed: one microsecond of ticks.
    assert_eq!(hw.counter.get_current(), before - 9);
}

#[test]
fn read_data_returns_bus_nibble() {
    let hw = fresh_hw(0, 0);
    // Pins 12 and 14 high on the sampled input register: nibble 0b0101.
    assert_eq!(hw.read_data(0x5000), 0b0101);
    assert_eq!(hw.read_data(0xFFFF), 0xF);
    assert_eq!(hw.read_data(0x0FFF), 0);
}
