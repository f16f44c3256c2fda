//! Pin binding: logical signal roles mapped to pin indices on one GPIO
//! bank, and atomic multi-bit writes through a set/reset-style register.
//!
//! A single 32-bit word written to the set/reset register encodes "drive
//! these pins high" (low half) and "drive these pins low" (high half) at
//! once, so a whole nibble settles on the data bus in one hardware write
//! with no glitch window. The bank itself is modelled by its output data
//! register and its direction bits.

use vstd::prelude::*;

verus! {

/// Number of pins on one GPIO bank.
pub const PIN_COUNT: u16 = 16;

/// Width of the data bus: the display's 4-bit interface mode.
pub const DATA_WIDTH: u16 = 4;

/// Bit `i` of a 16-bit register value.
pub open spec fn bit16(x: u16, i: u16) -> bool {
    (x >> i) & 1 == 1
}

/// Bit `i` of a 32-bit set/reset word.
pub open spec fn bit32(x: u32, i: u32) -> bool {
    (x >> i) & 1 == 1
}

/// The output register after a set/reset word `w` is applied: a pin named
/// in the low half is driven high, a pin named only in the high half is
/// driven low, every other pin keeps its level.
pub open spec fn apply_bsrr_spec(odr: u16, w: u32) -> u16 {
    (odr & !((w >> 16u32) as u16)) | (w as u16)
}

/// The output register after a single pin is written.
pub open spec fn pin_write_spec(odr: u16, pin: u16, value: bool) -> u16
    recommends
        pin < PIN_COUNT,
{
    if value {
        odr | (1u16 << pin)
    } else {
        odr & !(1u16 << pin)
    }
}

/// The set/reset word that writes `width` bits starting at `start`: bits of
/// `bits` that are one are set, bits that are zero are reset, in the same
/// word.
pub open spec fn bsrr_range_word_spec(start: u16, width: u16, bits: u16) -> u32
    recommends
        start + width <= PIN_COUNT,
{
    ((((bits as u32) & (((1u32 << (width as u32)) - 1) as u32)) << (start as u32)) | ((((!(bits
        as u32)) & (((1u32 << (width as u32)) - 1) as u32)) << (start as u32)) << 16u32))
}

/// Compute the set/reset word for a single pin: one bit in the low half to
/// drive it high, or one bit in the high half to drive it low.
pub fn bsrr_word(pin: u16, value: bool) -> (w: u32)
    requires
        pin < PIN_COUNT,
    ensures
        w == (if value {
            1u32 << (pin as u32)
        } else {
            1u32 << ((pin + 16) as u32)
        }),
{
    if value {
        1u32 << (pin as u32)
    } else {
        1u32 << ((pin as u32) + 16)
    }
}

/// Compute the set/reset word that presents `bits` on the pin range
/// `[start, start + width)`: requested one-bits set, all other pins of the
/// range reset, in one word.
pub fn bsrr_range_word(start: u16, width: u16, bits: u16) -> (w: u32)
    requires
        start + width <= PIN_COUNT,
    ensures
        w == bsrr_range_word_spec(start, width, bits),
{
    proof {
        assert((1u32 << (width as u32)) >= 1) by (bit_vector)
            requires
                width <= 16u16,
        ;
    }
    let m: u32 = (1u32 << (width as u32)) - 1;
    let set_half: u32 = ((bits as u32) & m) << (start as u32);
    let reset_half: u32 = ((!(bits as u32)) & m) << (start as u32);
    set_half | (reset_half << 16)
}

/// One GPIO bank, modelled by its output data register (one level bit per
/// pin) and its direction register (a one means push-pull output, a zero
/// means floating input).
pub struct GpioBank {
    pub odr: u16,
    pub outputs: u16,
}

/// How one bit of the output register reads after a set/reset word: set
/// wins, then reset, then the old level.
proof fn lemma_apply_bsrr_bit(odr: u16, w: u32, i: u16)
    by (bit_vector)
    requires
        i < 16,
    ensures
        bit16((odr & !((w >> 16u32) as u16)) | (w as u16), i) == (if bit32(w, i as u32) {
            true
        } else if bit32(w, (i + 16) as u32) {
            false
        } else {
            bit16(odr, i)
        }),
{
}

/// A single-pin word leaves the closed pin-write form on the register.
proof fn lemma_single_pin_word(odr: u16, pin: u16, value: bool)
    by (bit_vector)
    requires
        pin < 16,
    ensures
        apply_bsrr_spec(odr, if value {
            1u32 << (pin as u32)
        } else {
            1u32 << ((pin + 16) as u32)
        }) == pin_write_spec(odr, pin, value),
{
}

/// How one bit of the output register reads after a single pin write.
proof fn lemma_pin_write_bit(odr: u16, pin: u16, value: bool, j: u16)
    by (bit_vector)
    requires
        pin < 16,
        j < 16,
    ensures
        j == pin ==> bit16(pin_write_spec(odr, pin, value), j) == value,
        j != pin ==> bit16(pin_write_spec(odr, pin, value), j) == bit16(odr, j),
{
}

/// How one bit of the output register reads after a range word is applied:
/// inside the range it follows `bits`, outside it is untouched.
proof fn lemma_range_word_bit(odr: u16, start: u16, width: u16, bits: u16, j: u16)
    by (bit_vector)
    requires
        start + width <= 16,
        j < 16,
    ensures
        start <= j < start + width ==> bit16(
            apply_bsrr_spec(odr, bsrr_range_word_spec(start, width, bits)),
            j,
        ) == bit16(bits, (j - start) as u16),
        !(start <= j < start + width) ==> bit16(
            apply_bsrr_spec(odr, bsrr_range_word_spec(start, width, bits)),
            j,
        ) == bit16(odr, j),
{
}

/// No bit of an all-zero register reads as one.
pub(crate) proof fn lemma_zero_bit(i: u16)
    by (bit_vector)
    requires
        i < 16,
    ensures
        !bit16(0u16, i),
{
}

/// Writing the same level to the same pin twice leaves the register exactly
/// where one write left it: the pin write is idempotent.
pub proof fn lemma_write_pin_idempotent(odr: u16, pin: u16, value: bool)
    by (bit_vector)
    requires
        pin < 16,
    ensures
        pin_write_spec(pin_write_spec(odr, pin, value), pin, value) == pin_write_spec(
            odr,
            pin,
            value,
        ),
{
}

impl GpioBank {
    /// Apply one word to the set/reset register: the single atomic hardware
    /// write every multi-pin update compiles down to. Direction bits are
    /// untouched.
    pub fn apply_bsrr(&mut self, w: u32)
        ensures
            final(self).outputs == old(self).outputs,
            final(self).odr == apply_bsrr_spec(old(self).odr, w),
            forall|i: u16|
                i < 16 ==> bit16(final(self).odr, i) == (if bit32(w, i as u32) {
                    true
                } else if bit32(w, (i + 16) as u32) {
                    false
                } else {
                    bit16(old(self).odr, i)
                }),
    {
        let set_half: u16 = w as u16;
        let reset_half: u16 = (w >> 16) as u16;
        self.odr = (self.odr & !reset_half) | set_half;
        proof {
            assert forall|i: u16| i < 16 implies bit16(self.odr, i) == (if bit32(w, i as u32) {
                true
            } else if bit32(w, (i + 16) as u32) {
                false
            } else {
                bit16(old(self).odr, i)
            }) by {
                lemma_apply_bsrr_bit(old(self).odr, w, i);
            }
        }
    }

    /// Set or clear one pin with a single set/reset write.
    pub fn write_pin(&mut self, pin: u16, value: bool)
        requires
            pin < PIN_COUNT,
        ensures
            final(self).outputs == old(self).outputs,
            final(self).odr == pin_write_spec(old(self).odr, pin, value),
            bit16(final(self).odr, pin) == value,
            forall|j: u16| j < 16 && j != pin ==> bit16(final(self).odr, j) == bit16(
                old(self).odr,
                j,
            ),
    {
        let w: u32 = bsrr_word(pin, value);
        self.apply_bsrr(w);
        proof {
            lemma_single_pin_word(old(self).odr, pin, value);
            assert forall|j: u16| j < 16 implies (j == pin ==> bit16(self.odr, j) == value) && (j
                != pin ==> bit16(self.odr, j) == bit16(old(self).odr, j)) by {
                lemma_pin_write_bit(old(self).odr, pin, value, j);
            }
        }
    }

    /// Present `bits` on the pin range `[start, start + width)` with a
    /// single set/reset write: requested one-bits driven high, every other
    /// pin of the range driven low, pins outside the range untouched — all
    /// observable as one atomic register write.
    pub fn write_pin_range(&mut self, start: u16, width: u16, bits: u16)
        requires
            start + width <= PIN_COUNT,
        ensures
            final(self).outputs == old(self).outputs,
            final(self).odr == apply_bsrr_spec(
                old(self).odr,
                bsrr_range_word_spec(start, width, bits),
            ),
            forall|j: u16|
                start <= j < start + width ==> bit16(final(self).odr, j) == bit16(
                    bits,
                    (j - start) as u16,
                ),
            forall|j: u16|
                j < 16 && !(start <= j < start + width) ==> bit16(final(self).odr, j) == bit16(
                    old(self).odr,
                    j,
                ),
    {
        let w: u32 = bsrr_range_word(start, width, bits);
        self.apply_bsrr(w);
        proof {
            assert forall|j: u16| j < 16 implies (start <= j < start + width ==> bit16(
                self.odr,
                j,
            ) == bit16(bits, (j - start) as u16)) && (!(start <= j < start + width) ==> bit16(
                self.odr,
                j,
            ) == bit16(old(self).odr, j)) by {
                lemma_range_word_bit(old(self).odr, start, width, bits, j);
            }
        }
    }

    /// Configure one pin as a push-pull output. Levels are untouched.
    pub fn config_output(&mut self, pin: u16)
        requires
            pin < PIN_COUNT,
        ensures
            final(self).odr == old(self).odr,
            final(self).outputs == pin_write_spec(old(self).outputs, pin, true),
            bit16(final(self).outputs, pin),
            forall|j: u16| j < 16 && j != pin ==> bit16(final(self).outputs, j) == bit16(
                old(self).outputs,
                j,
            ),
    {
        self.outputs = self.outputs | (1u16 << pin);
        proof {
            assert forall|j: u16| j < 16 implies (j == pin ==> bit16(self.outputs, j)) && (j != pin
                ==> bit16(self.outputs, j) == bit16(old(self).outputs, j)) by {
                lemma_pin_write_bit(old(self).outputs, pin, true, j);
            }
        }
    }

    /// Configure one pin as a floating input. Levels are untouched.
    pub fn config_input(&mut self, pin: u16)
        requires
            pin < PIN_COUNT,
        ensures
            final(self).odr == old(self).odr,
            final(self).outputs == pin_write_spec(old(self).outputs, pin, false),
            !bit16(final(self).outputs, pin),
            forall|j: u16| j < 16 && j != pin ==> bit16(final(self).outputs, j) == bit16(
                old(self).outputs,
                j,
            ),
    {
        self.outputs = self.outputs & !(1u16 << pin);
        proof {
            assert forall|j: u16| j < 16 implies (j == pin ==> !bit16(self.outputs, j)) && (j
                != pin ==> bit16(self.outputs, j) == bit16(old(self).outputs, j)) by {
                lemma_pin_write_bit(old(self).outputs, pin, false, j);
            }
        }
    }
}

/// How one bit of the extracted range reads.
proof fn lemma_read_range_bit(idr: u16, start: u16, width: u16, j: u16)
    by (bit_vector)
    requires
        start + width <= 16,
        start <= j < start + width,
    ensures
        bit16(
            ((((idr as u32) >> (start as u32)) & (((1u32 << (width as u32)) - 1) as u32)) as u16),
            (j - start) as u16,
        ) == bit16(idr, j),
{
}

/// No bit at or above the extracted width is set.
proof fn lemma_read_range_high_bits(idr: u16, start: u16, width: u16, i: u16)
    by (bit_vector)
    requires
        start + width <= 16,
        width <= i < 16,
    ensures
        !bit16(
            ((((idr as u32) >> (start as u32)) & (((1u32 << (width as u32)) - 1) as u32)) as u16),
            i,
        ),
{
}

/// Extract the levels of the pin range `[start, start + width)` from a
/// sampled input register value. Sampling the register is the hardware's
/// part; the sampled value is passed in as a plain word.
pub fn read_pin_range(idr: u16, start: u16, width: u16) -> (bits: u16)
    requires
        start + width <= PIN_COUNT,
    ensures
        forall|j: u16| start <= j < start + width ==> bit16(bits, (j - start) as u16) == bit16(
            idr,
            j,
        ),
        forall|i: u16| width <= i < 16 ==> !bit16(bits, i),
{
    proof {
        assert((1u32 << (width as u32)) >= 1) by (bit_vector)
            requires
                width <= 16u16,
        ;
    }
    let m: u32 = (1u32 << (width as u32)) - 1;
    let bits: u16 = (((idr as u32) >> (start as u32)) & m) as u16;
    proof {
        assert forall|j: u16| start <= j < start + width implies bit16(
            bits,
            (j - start) as u16,
        ) == bit16(idr, j) by {
            lemma_read_range_bit(idr, start, width, j);
        }
        assert forall|i: u16| width <= i < 16 implies !bit16(bits, i) by {
            lemma_read_range_high_bits(idr, start, width, i);
        }
    }
    bits
}

/// The compile-time mapping of logical signal roles to pin indices on one
/// GPIO bank: register select, read/write, enable, and the first pin of the
/// contiguous 4-pin data bus.
pub struct PinMap {
    pub rs: u16,
    pub rw: u16,
    pub e: u16,
    pub data: u16,
}

impl PinMap {
    /// All roles live on one 16-pin bank, the data bus is a contiguous
    /// range, and no two roles share a pin.
    pub open spec fn wf(self) -> bool {
        &&& self.rs < PIN_COUNT
        &&& self.rw < PIN_COUNT
        &&& self.e < PIN_COUNT
        &&& self.data + DATA_WIDTH <= PIN_COUNT
        &&& self.rs != self.rw
        &&& self.rs != self.e
        &&& self.rw != self.e
        &&& !(self.data <= self.rs < self.data + DATA_WIDTH)
        &&& !(self.data <= self.rw < self.data + DATA_WIDTH)
        &&& !(self.data <= self.e < self.data + DATA_WIDTH)
    }
}

/// The board's pin assignment: RS on pin 1, R/W on pin 10, Enable on pin
/// 11, and the data bus on pins 12 to 15 of the same bank.
pub fn board_pin_map() -> (m: PinMap)
    ensures
        m.wf(),
        m.rs == 1,
        m.rw == 10,
        m.e == 11,
        m.data == 12,
{
    PinMap { rs: 1, rw: 10, e: 11, data: 12 }
}

} // verus!
