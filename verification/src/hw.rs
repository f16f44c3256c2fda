//! Hardware capability implementation: the binding of the display
//! controller's capability set — signal control, data transfer, timing, and
//! the optional bidirectional data direction switch — to the pin binding
//! and the counter-based timer.

use vstd::prelude::*;
use crate::COUNTER_MASK;
use crate::HALF_RANGE;
use crate::pins::DATA_WIDTH;
use crate::pins::GpioBank;
use crate::pins::PinMap;
use crate::pins::apply_bsrr_spec;
use crate::pins::bit16;
use crate::pins::bsrr_range_word_spec;
use crate::pins::pin_write_spec;
use crate::timer::CounterModel;
use crate::timer::counter_after;

verus! {

/// One primitive operation on the pin binding or the timer, recorded in
/// the order the direction switch performs them.
#[derive(Clone, Copy, Debug, PartialEq, Eq, Structural)]
pub enum BusOp {
    WriteRange { start: u16, width: u16, bits: u16 },
    WritePin { pin: u16, value: bool },
    ConfigInput { pin: u16 },
    ConfigOutput { pin: u16 },
    DelayUs { us: u32 },
}

/// Bit `i` of the low nibble of a byte.
pub open spec fn nibble_bit(data: u8, i: u8) -> bool {
    (data >> i) & 1 == 1
}

/// The exact operation order for entering read mode: first drive the whole
/// data bus low (the controller's data pins are open-drain and could
/// otherwise float), then reconfigure the four data pins as floating
/// inputs, and only then assert the read/write line.
pub open spec fn enter_read_ops(pins: PinMap) -> Seq<BusOp>
    recommends
        pins.wf(),
{
    seq![
        BusOp::WriteRange { start: pins.data, width: DATA_WIDTH, bits: 0 },
        BusOp::ConfigInput { pin: pins.data },
        BusOp::ConfigInput { pin: (pins.data + 1) as u16 },
        BusOp::ConfigInput { pin: (pins.data + 2) as u16 },
        BusOp::ConfigInput { pin: (pins.data + 3) as u16 },
        BusOp::WritePin { pin: pins.rw, value: true },
    ]
}

/// The exact operation order for leaving read mode: first deassert the
/// read/write line, then wait one microsecond for the controller to let go
/// of the bus, and only then reconfigure the data pins as push-pull
/// outputs — the mirror image of entry, so two opposing outputs never
/// drive the shared bus.
pub open spec fn leave_read_ops(pins: PinMap) -> Seq<BusOp>
    recommends
        pins.wf(),
{
    seq![
        BusOp::WritePin { pin: pins.rw, value: false },
        BusOp::DelayUs { us: 1 },
        BusOp::ConfigOutput { pin: pins.data },
        BusOp::ConfigOutput { pin: (pins.data + 1) as u16 },
        BusOp::ConfigOutput { pin: (pins.data + 2) as u16 },
        BusOp::ConfigOutput { pin: (pins.data + 3) as u16 },
    ]
}

/// Bit `i` of a byte widened to sixteen bits reads the same.
proof fn lemma_u8_u16_bit(data: u8, i: u16)
    by (bit_vector)
    requires
        i < 8,
    ensures
        bit16(data as u16, i) == ((data >> (i as u8)) & 1 == 1),
{
}

/// Binding of the display controller to the real hardware: the GPIO bank
/// the signal pins live on, the free-running counter the delays read, the
/// pin mapping, and the tick rate the clock bring-up established.
pub struct LcdHardware {
    pub bank: GpioBank,
    pub counter: CounterModel,
    pub pins: PinMap,
    pub ticks_per_us: u32,
}

impl LcdHardware {
    /// The pin mapping is sound, the counter is the free-running full-range
    /// counter the snapshot delay needs, and the tick rate keeps every
    /// one-microsecond delay inside half the counter's range.
    pub open spec fn wf(self) -> bool {
        &&& self.pins.wf()
        &&& self.counter.wf()
        &&& self.counter.reload == COUNTER_MASK
        &&& 1 <= self.ticks_per_us < HALF_RANGE
    }

    /// Everything but the GPIO bank is as it was.
    pub open spec fn same_but_bank(self, other: LcdHardware) -> bool {
        &&& self.counter == other.counter
        &&& self.pins == other.pins
        &&& self.ticks_per_us == other.ticks_per_us
    }

    /// Drive the register-select line: a direct pass-through to a single
    /// atomic pin write.
    pub fn rs(&mut self, bit: bool)
        requires
            old(self).wf(),
        ensures
            final(self).wf(),
            final(self).same_but_bank(*old(self)),
            final(self).bank.outputs == old(self).bank.outputs,
            final(self).bank.odr == pin_write_spec(old(self).bank.odr, old(self).pins.rs, bit),
            bit16(final(self).bank.odr, final(self).pins.rs) == bit,
            forall|j: u16|
                j < 16 && j != old(self).pins.rs ==> bit16(final(self).bank.odr, j) == bit16(
                    old(self).bank.odr,
                    j,
                ),
    {
        let pin: u16 = self.pins.rs;
        self.bank.write_pin(pin, bit);
    }

    /// Drive the enable strobe line: a direct pass-through to a single
    /// atomic pin write.
    pub fn enable(&mut self, bit: bool)
        requires
            old(self).wf(),
        ensures
            final(self).wf(),
            final(self).same_but_bank(*old(self)),
            final(self).bank.outputs == old(self).bank.outputs,
            final(self).bank.odr == pin_write_spec(old(self).bank.odr, old(self).pins.e, bit),
            bit16(final(self).bank.odr, final(self).pins.e) == bit,
            forall|j: u16|
                j < 16 && j != old(self).pins.e ==> bit16(final(self).bank.odr, j) == bit16(
                    old(self).bank.odr,
                    j,
                ),
    {
        let pin: u16 = self.pins.e;
        self.bank.write_pin(pin, bit);
    }

    /// Present the low nibble of `data` on the data bus with one atomic
    /// set/reset write: the requested one-bits driven high and every other
    /// data-bus pin driven low simultaneously, all other pins untouched.
    pub fn data(&mut self, data: u8)
        requires
            old(self).wf(),
        ensures
            final(self).wf(),
            final(self).same_but_bank(*old(self)),
            final(self).bank.outputs == old(self).bank.outputs,
            final(self).bank.odr == apply_bsrr_spec(
                old(self).bank.odr,
                bsrr_range_word_spec(old(self).pins.data, DATA_WIDTH, data as u16),
            ),
            forall|j: u16|
                old(self).pins.data <= j < old(self).pins.data + DATA_WIDTH ==> bit16(
                    final(self).bank.odr,
                    j,
                ) == nibble_bit(data, (j - old(self).pins.data) as u8),
            forall|j: u16|
                j < 16 && !(old(self).pins.data <= j < old(self).pins.data + DATA_WIDTH)
                    ==> bit16(final(self).bank.odr, j) == bit16(old(self).bank.odr, j),
    {
        let start: u16 = self.pins.data;
        self.bank.write_pin_range(start, DATA_WIDTH, data as u16);
        proof {
            assert forall|j: u16| start <= j < start + DATA_WIDTH implies bit16(
                self.bank.odr,
                j,
            ) == nibble_bit(data, (j - start) as u8) by {
                lemma_u8_u16_bit(data, (j - start) as u16);
            }
        }
    }

    /// Delay for `delay` microseconds by the snapshot/compare strategy:
    /// the counter advances, the reload register and every pin are left
    /// exactly as they were.
    pub fn delay_us(&mut self, delay: u32)
        requires
            old(self).wf(),
            1 <= delay * old(self).ticks_per_us < HALF_RANGE,
        ensures
            final(self).wf(),
            final(self).bank == old(self).bank,
            final(self).pins == old(self).pins,
            final(self).ticks_per_us == old(self).ticks_per_us,
            final(self).counter.reload == old(self).counter.reload,
            final(self).counter.current == counter_after(
                old(self).counter.current,
                (delay * old(self).ticks_per_us) as u32,
            ),
            final(self).counter.wrapped == (old(self).counter.wrapped || delay * old(
                self,
            ).ticks_per_us > old(self).counter.current),
    {
        let rate: u32 = self.ticks_per_us;
        crate::timer::delay_us(&mut self.counter, rate, delay);
    }

    /// Read the nibble the controller drives on the data bus, given the
    /// sampled input register of the bank; sampling the register is the
    /// hardware's part. Meaningful only while the bus is in read mode.
    pub fn read_data(&self, idr: u16) -> (data: u8)
        requires
            self.wf(),
        ensures
            forall|i: u8| i < 4 ==> nibble_bit(data, i) == bit16(idr, (self.pins.data + i) as u16),
            data < 16,
    {
        let start: u16 = self.pins.data;
        let bits: u16 = crate::pins::read_pin_range(idr, start, DATA_WIDTH);
        let data: u8 = (bits & 0xf) as u8;
        proof {
            assert forall|i: u8| i < 4 implies nibble_bit(data, i) == bit16(
                idr,
                (self.pins.data + i) as u16,
            ) by {
                let j: u16 = (start + i) as u16;
                let iw: u16 = (j - start) as u16;
                assert(bit16(bits, iw) == bit16(idr, j));
                assert(((data >> i) & 1 == 1) == ((bits >> iw) & 1 == 1)) by (bit_vector)
                    requires
                        i < 4u8,
                        iw == i as u16,
                        data == (bits & 0xfu16) as u8,
                ;
            }
            assert((bits & 0xfu16) < 16) by (bit_vector);
        }
        data
    }

    /// Switch the bus direction, performing the mandatory asymmetric
    /// order: entering read mode zeroes the data-bus outputs, reconfigures
    /// the data pins as floating inputs, then asserts the read/write line;
    /// leaving deasserts the line, waits one microsecond of settling time,
    /// then reconfigures the pins as push-pull outputs. Returns the
    /// primitive operations in exactly the order they were performed.
    pub fn rw(&mut self, bit: bool) -> (ops: Vec<BusOp>)
        requires
            old(self).wf(),
        ensures
            final(self).wf(),
            final(self).pins == old(self).pins,
            final(self).ticks_per_us == old(self).ticks_per_us,
            bit ==> ops@ =~= enter_read_ops(old(self).pins),
            bit ==> final(self).counter == old(self).counter,
            bit ==> forall|j: u16|
                old(self).pins.data <= j < old(self).pins.data + DATA_WIDTH ==> !bit16(
                    final(self).bank.odr,
                    j,
                ) && !bit16(final(self).bank.outputs, j),
            bit ==> bit16(final(self).bank.odr, old(self).pins.rw),
            bit ==> forall|j: u16|
                j < 16 && !(old(self).pins.data <= j < old(self).pins.data + DATA_WIDTH) && j
                    != old(self).pins.rw ==> bit16(final(self).bank.odr, j) == bit16(
                    old(self).bank.odr,
                    j,
                ),
            bit ==> forall|j: u16|
                j < 16 && !(old(self).pins.data <= j < old(self).pins.data + DATA_WIDTH)
                    ==> bit16(final(self).bank.outputs, j) == bit16(old(self).bank.outputs, j),
            !bit ==> ops@ =~= leave_read_ops(old(self).pins),
            !bit ==> !bit16(final(self).bank.odr, old(self).pins.rw),
            !bit ==> forall|j: u16|
                old(self).pins.data <= j < old(self).pins.data + DATA_WIDTH ==> bit16(
                    final(self).bank.outputs,
                    j,
                ),
            !bit ==> forall|j: u16|
                j < 16 && j != old(self).pins.rw ==> bit16(final(self).bank.odr, j) == bit16(
                    old(self).bank.odr,
                    j,
                ),
            !bit ==> forall|j: u16|
                j < 16 && !(old(self).pins.data <= j < old(self).pins.data + DATA_WIDTH)
                    ==> bit16(final(self).bank.outputs, j) == bit16(old(self).bank.outputs, j),
            !bit ==> final(self).counter.reload == old(self).counter.reload
                && final(self).counter.current == counter_after(
                old(self).counter.current,
                old(self).ticks_per_us as u32,
            ) && final(self).counter.wrapped == (old(self).counter.wrapped || old(
                self,
            ).ticks_per_us > old(self).counter.current),
    {
        let mut ops: Vec<BusOp> = Vec::new();
        let data_start: u16 = self.pins.data;
        let rw_pin: u16 = self.pins.rw;
        if bit {
            // The controller's data pins are open-drain: drive the bus low
            // before letting go of it.
            self.bank.write_pin_range(data_start, DATA_WIDTH, 0);
            ops.push(BusOp::WriteRange { start: data_start, width: DATA_WIDTH, bits: 0 });
            proof {
                assert forall|j: u16| data_start <= j < data_start + DATA_WIDTH implies !bit16(
                    self.bank.odr,
                    j,
                ) by {
                    crate::pins::lemma_zero_bit((j - data_start) as u16);
                }
            }

            // Reconfigure the data bus for input.
            let mut i: u16 = 0;
            while i < DATA_WIDTH
                invariant
                    old(self).wf(),
                    i <= DATA_WIDTH,
                    data_start == old(self).pins.data,
                    rw_pin == old(self).pins.rw,
                    self.pins == old(self).pins,
                    self.ticks_per_us == old(self).ticks_per_us,
                    self.counter == old(self).counter,
                    self.bank.odr == apply_bsrr_spec(
                        old(self).bank.odr,
                        bsrr_range_word_spec(data_start, DATA_WIDTH, 0),
                    ),
                    forall|k: u16|
                        data_start <= k < data_start + DATA_WIDTH ==> !bit16(self.bank.odr, k),
                    forall|k: u16|
                        k < 16 && !(data_start <= k < data_start + DATA_WIDTH) ==> bit16(
                            self.bank.odr,
                            k,
                        ) == bit16(old(self).bank.odr, k),
                    forall|k: u16|
                        k < 16 && !(data_start <= k < data_start + i) ==> bit16(
                            self.bank.outputs,
                            k,
                        ) == bit16(old(self).bank.outputs, k),
                    forall|k: u16|
                        data_start <= k < data_start + i ==> !bit16(self.bank.outputs, k),
                    ops@ =~= enter_read_ops(old(self).pins).take(1 + i),
                decreases DATA_WIDTH - i,
            {
                let pin: u16 = data_start + i;
                self.bank.config_input(pin);
                ops.push(BusOp::ConfigInput { pin });
                i = i + 1;
                proof {
                    assert(ops@ =~= enter_read_ops(old(self).pins).take(1 + i));
                }
            }

            // Finally, assert the read/write line: the bus is free now.
            self.bank.write_pin(rw_pin, true);
            ops.push(BusOp::WritePin { pin: rw_pin, value: true });
            assert(ops@ =~= enter_read_ops(old(self).pins));
        } else {
            // First take the controller out of read mode.
            self.bank.write_pin(rw_pin, false);
            ops.push(BusOp::WritePin { pin: rw_pin, value: false });

            // Give the controller a microsecond to release the bus.
            let rate: u32 = self.ticks_per_us;
            crate::timer::delay_us(&mut self.counter, rate, 1);
            ops.push(BusOp::DelayUs { us: 1 });

            // Only now may the data pins drive again.
            let mut i: u16 = 0;
            while i < DATA_WIDTH
                invariant
                    old(self).wf(),
                    i <= DATA_WIDTH,
                    data_start == old(self).pins.data,
                    rw_pin == old(self).pins.rw,
                    self.pins == old(self).pins,
                    self.ticks_per_us == old(self).ticks_per_us,
                    self.counter.wf(),
                    self.counter.reload == old(self).counter.reload,
                    self.counter.current == counter_after(
                        old(self).counter.current,
                        old(self).ticks_per_us as u32,
                    ),
                    self.counter.wrapped == (old(self).counter.wrapped || old(self).ticks_per_us
                        > old(self).counter.current),
                    self.bank.odr == pin_write_spec(old(self).bank.odr, rw_pin, false),
                    forall|k: u16|
                        k < 16 && !(data_start <= k < data_start + i) ==> bit16(
                            self.bank.outputs,
                            k,
                        ) == bit16(old(self).bank.outputs, k),
                    forall|k: u16| data_start <= k < data_start + i ==> bit16(self.bank.outputs, k),
                    ops@ =~= leave_read_ops(old(self).pins).take(2 + i),
                decreases DATA_WIDTH - i,
            {
                let pin: u16 = data_start + i;
                self.bank.config_output(pin);
                ops.push(BusOp::ConfigOutput { pin });
                i = i + 1;
                proof {
                    assert(ops@ =~= leave_read_ops(old(self).pins).take(2 + i));
                }
            }
            assert(ops@ =~= leave_read_ops(old(self).pins));
        }
        ops
    }
}

} // verus!
