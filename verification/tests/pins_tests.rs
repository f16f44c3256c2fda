use lcd_hw::pins::GpioBank;
use lcd_hw::pins::bsrr_range_word;
use lcd_hw::pins::bsrr_word;
use lcd_hw::pins::read_pin_range;

#[test]
fn bsrr_word_values() {
    // One bit in the low half drives high, one in the high half drives low.
    assert_eq!(bsrr_word(1, true), 1 << 1);
    assert_eq!(bsrr_word(1, false), 1 << 17);
    assert_eq!(bsrr_word(11, false), 1 << 27);
    assert_eq!(bsrr_word(15, true), 1 << 15);
}

#[test]
fn bsrr_range_word_value() {
    // Nibble 0b0101 on pins 12..16: set bits 12 and 14, reset bits 13 and
    // 15 (as bits 29 and 31), all in one word.
    assert_eq!(bsrr_range_word(12, 4, 0b0101), 0xA000_5000);
    assert_eq!(bsrr_range_word(12, 4, 0b1111), 0x0000_F000);
    assert_eq!(bsrr_range_word(12, 4, 0), 0xF000_0000);
}

#[test]
fn apply_bsrr_set_wins_and_rest_unchanged() {
    let mut bank = GpioBank { odr: 0b1010, outputs: 0 };
    bank.apply_bsrr(bsrr_word(0, true));
    assert_eq!(bank.odr, 0b1011);
    bank.apply_bsrr(bsrr_word(1, false));
    assert_eq!(bank.odr, 0b1001);
}

#[test]
fn write_pin_range_all_sixteen_nibbles() {
    // Atomic multi-bit write: each nibble leaves exactly the requested
    // bits set in the range, all other range bits cleared, and every pin
    // outside the range untouched.
    for nibble in 0u16..16 {
        let mut bank = GpioBank { odr: 0xFFFF, outputs: 0 };
        bank.write_pin_range(12, 4, nibble);
        assert_eq!(bank.odr, 0x0FFF | (nibble << 12));

        let mut bank2 = GpioBank { odr: 0x0ABC, outputs: 0 };
        bank2.write_pin_range(12, 4, nibble);
        assert_eq!(bank2.odr, 0x0ABC | (nibble << 12));
    }
}

#[test]
fn write_pin_twice_same_as_once() {
    // Idempotence: a second identical write changes nothing.
    let mut once = GpioBank { odr: 0x0440, outputs: 0 };
    once.write_pin(1, true);
    let mut twice = GpioBank { odr: 0x0440, outputs: 0 };
    twice.write_pin(1, true);
    twice.write_pin(1, true);
    assert_eq!(once.odr, twice.odr);
    assert_eq!(once.odr, 0x0442);

    once.write_pin(10, false);
    twice.write_pin(10, false);
    twice.write_pin(10, false);
    assert_eq!(once.odr, twice.odr);
    assert_eq!(once.odr, 0x0042);
}

#[test]
fn config_direction_bits() {
    let mut bank = GpioBank { odr: 0x1234, outputs: 0 };
    bank.config_output(12);
    bank.config_output(13);
    assert_eq!(bank.outputs, 0b11 << 12);
    // Levels are untouched by direction changes.
    assert_eq!(bank.odr, 0x1234);
    bank.config_input(12);
    assert_eq!(bank.outputs, 1 << 13);
}

#[test]
fn read_pin_range_extracts_levels() {
    assert_eq!(read_pin_range(0xABCD, 4, 8), 0xBC);
    assert_eq!(read_pin_range(0x5000, 12, 4), 0x5);
    assert_eq!(read_pin_range(0xFFFF, 0, 16), 0xFFFF);
}
