//! Counter-based timer: a wraparound-safe microsecond delay primitive built
//! on a free-running 24-bit down-counter with a reload register and a
//! one-shot wrap flag.
//!
//! Two strategies are provided. The snapshot/compare strategy ([`delay_us`])
//! reads the counter once, computes a circular target and spins until the
//! counter has moved past it; it never touches the reload register but is
//! correct only for delays under half the counter's range. The reload/wrap
//! strategy ([`crate::util::delay_us`]) reprograms the shared reload register
//! and spins on the wrap flag; it covers the full range but destroys the
//! reload value other logic may depend on.

use vstd::prelude::*;
use crate::COUNTER_MASK;
use crate::COUNTER_PERIOD;
use crate::HALF_RANGE;

verus! {

/// Model of the free-running 24-bit down-counter register triple:
/// current value, reload value, one-shot wrap flag. The hardware decrements
/// the current value once per tick; on the tick after it reaches zero it
/// reloads and raises the wrap flag.
pub struct CounterModel {
    pub current: u32,
    pub reload: u32,
    pub wrapped: bool,
}

impl CounterModel {
    /// Both registers hold 24-bit values.
    pub open spec fn wf(self) -> bool {
        self.current <= COUNTER_MASK && self.reload <= COUNTER_MASK
    }

    /// A fresh counter: loaded with `reload`, wrap flag clear.
    pub fn new(reload: u32) -> (c: Self)
        requires
            reload <= COUNTER_MASK,
        ensures
            c.wf(),
            c.reload == reload,
            c.current == reload,
            !c.wrapped,
    {
        CounterModel { current: reload, reload, wrapped: false }
    }

    /// Program the reload register; the running value is untouched until the
    /// next reload.
    pub fn set_reload(&mut self, reload: u32)
        requires
            old(self).wf(),
            reload <= COUNTER_MASK,
        ensures
            final(self).wf(),
            final(self).reload == reload,
            final(self).current == old(self).current,
            final(self).wrapped == old(self).wrapped,
    {
        self.reload = reload;
    }

    /// Reset the running value to the reload value and clear the one-shot
    /// wrap flag.
    pub fn clear_current(&mut self)
        requires
            old(self).wf(),
        ensures
            final(self).wf(),
            final(self).reload == old(self).reload,
            final(self).current == final(self).reload,
            !final(self).wrapped,
    {
        self.current = self.reload;
        self.wrapped = false;
    }

    /// Read the running value.
    pub fn get_current(&self) -> (v: u32)
        ensures
            v == self.current,
    {
        self.current
    }

    /// Read the one-shot wrap flag.
    pub fn has_wrapped(&self) -> (b: bool)
        ensures
            b == self.wrapped,
    {
        self.wrapped
    }

    /// One hardware tick: decrement, or reload and raise the wrap flag when
    /// the value has already reached zero.
    pub fn tick(&mut self)
        requires
            old(self).wf(),
        ensures
            final(self).wf(),
            final(self).reload == old(self).reload,
            old(self).current > 0 ==> final(self).current == old(self).current - 1
                && final(self).wrapped == old(self).wrapped,
            old(self).current == 0 ==> final(self).current == final(self).reload
                && final(self).wrapped,
    {
        if self.current == 0 {
            self.current = self.reload;
            self.wrapped = true;
        } else {
            self.current = self.current - 1;
        }
    }
}

/// Circular subtraction modulo 2^24: the number of ticks a down-counter
/// needs to move from `a` to `b`.
pub open spec fn wrap_sub24(a: u32, b: u32) -> u32
    recommends
        a <= COUNTER_MASK,
        b <= COUNTER_MASK,
{
    if a >= b {
        (a - b) as u32
    } else {
        (a + COUNTER_PERIOD - b) as u32
    }
}

/// The counter value reached after `e` ticks down from `c0`.
pub open spec fn counter_after(c0: u32, e: u32) -> u32
    recommends
        c0 <= COUNTER_MASK,
        e <= COUNTER_MASK,
{
    wrap_sub24(c0, e)
}

/// The circular target the snapshot/compare strategy computes for a wait of
/// `ticks` counter ticks starting at `c0`: one tick short of the full
/// distance, because the spin loop only exits once the counter has moved
/// strictly past the target.
pub open spec fn snapshot_target_spec(c0: u32, ticks: u32) -> u32
    recommends
        c0 <= COUNTER_MASK,
        1 <= ticks <= COUNTER_PERIOD,
{
    wrap_sub24(c0, (ticks - 1) as u32)
}

/// The spin loop's exit condition: the "sign" bit (bit 23) of the circular
/// difference `current - target` is set, i.e. the counter has moved past the
/// target.
pub open spec fn snapshot_done_spec(current: u32, target: u32) -> bool
    recommends
        current <= COUNTER_MASK,
        target <= COUNTER_MASK,
{
    wrap_sub24(current, target) >= HALF_RANGE
}

/// Compute the snapshot/compare target for a wait of `ticks` ticks starting
/// from counter value `c0`.
pub fn snapshot_target(c0: u32, ticks: u32) -> (t: u32)
    requires
        c0 <= COUNTER_MASK,
        1 <= ticks <= COUNTER_PERIOD,
    ensures
        t <= COUNTER_MASK,
        t == snapshot_target_spec(c0, ticks),
{
    let short: u32 = ticks - 1;
    if c0 >= short {
        c0 - short
    } else {
        c0 + COUNTER_PERIOD - short
    }
}

/// Decide whether the wait is over, exactly as the hardware loop does:
/// subtract with 32-bit wraparound and test bit 23 of the difference.
pub fn snapshot_done(current: u32, target: u32) -> (b: bool)
    requires
        current <= COUNTER_MASK,
        target <= COUNTER_MASK,
    ensures
        b == snapshot_done_spec(current, target),
{
    let diff: u32 = current.wrapping_sub(target);
    proof {
        assert(((diff & 0x0080_0000u32) != 0) == ((if current >= target {
            (current - target) as u32
        } else {
            (current + 0x0100_0000 - target) as u32
        }) >= 0x0080_0000u32)) by (bit_vector)
            requires
                current <= 0x00ff_ffffu32,
                target <= 0x00ff_ffffu32,
                diff == (if current - target < 0 {
                    current - target + 0x1_0000_0000
                } else {
                    current - target
                }),
        ;
    }
    (diff & HALF_RANGE) != 0
}

/// Moving the origin: the circular distance from the counter after `e` ticks
/// to the counter after `t` ticks equals the circular distance from `t` to
/// `e`.
proof fn lemma_wrap_sub_shift(c0: u32, e: u32, t: u32)
    requires
        c0 <= COUNTER_MASK,
        e <= COUNTER_MASK,
        t <= COUNTER_MASK,
    ensures
        wrap_sub24(counter_after(c0, e), counter_after(c0, t)) == wrap_sub24(t, e),
{
}

/// Wraparound correctness of the snapshot/compare strategy: for every start
/// value `c0` and every requested tick count within half the counter's
/// range, the spin condition stays false for the first `ticks - 1` elapsed
/// ticks (no early exit, even when the counter wraps through zero) and
/// becomes true exactly when `ticks` ticks have elapsed.
pub proof fn lemma_snapshot_wait_correct(c0: u32, ticks: u32, e: u32)
    requires
        c0 <= COUNTER_MASK,
        1 <= ticks <= HALF_RANGE,
        e <= COUNTER_MASK,
    ensures
        e < ticks ==> !snapshot_done_spec(counter_after(c0, e), snapshot_target_spec(c0, ticks)),
        e == ticks ==> snapshot_done_spec(counter_after(c0, e), snapshot_target_spec(c0, ticks)),
{
    lemma_wrap_sub_shift(c0, e, (ticks - 1) as u32);
}

/// The documented half-range boundary: for a requested tick count beyond
/// half the counter's range the spin condition is already true before a
/// single tick has elapsed, so the wait terminates immediately — far too
/// short. Callers must chunk long delays instead.
pub proof fn lemma_snapshot_wait_half_range_boundary(c0: u32, ticks: u32)
    requires
        c0 <= COUNTER_MASK,
        HALF_RANGE < ticks <= COUNTER_PERIOD,
    ensures
        snapshot_done_spec(counter_after(c0, 0), snapshot_target_spec(c0, ticks)),
{
    lemma_wrap_sub_shift(c0, 0, (ticks - 1) as u32);
}

/// Delay for `delay` microseconds using the snapshot/compare strategy, at
/// `ticks_per_us` counter ticks per microsecond. Should not be used for
/// precise delays. The counter ticks once per poll of the spin loop; the
/// reload register and the wrap flag's one-shot discipline are left alone
/// (only the flag itself may fire when the counter passes zero). Assumes the
/// reload register holds the maximum (so a wrap continues the count
/// seamlessly), and the requested delay must stay under half the counter's
/// range — the hard preconditions of this strategy. Returns the number of
/// ticks that elapsed.
pub fn delay_us(counter: &mut CounterModel, ticks_per_us: u32, delay: u32) -> (elapsed: u32)
    requires
        old(counter).wf(),
        old(counter).reload == COUNTER_MASK,
        1 <= delay * ticks_per_us < HALF_RANGE,
    ensures
        final(counter).wf(),
        final(counter).reload == old(counter).reload,
        final(counter).current == counter_after(
            old(counter).current,
            (delay * ticks_per_us) as u32,
        ),
        final(counter).wrapped == (old(counter).wrapped || delay * ticks_per_us > old(
            counter,
        ).current),
        elapsed == delay * ticks_per_us,
{
    let ticks: u32 = delay * ticks_per_us;
    let c0: u32 = counter.get_current();
    let target: u32 = snapshot_target(c0, ticks);
    let mut elapsed: u32 = 0;
    while !snapshot_done(counter.get_current(), target)
        invariant
            counter.wf(),
            counter.reload == COUNTER_MASK,
            old(counter).reload == COUNTER_MASK,
            1 <= ticks < HALF_RANGE,
            c0 == old(counter).current,
            c0 <= COUNTER_MASK,
            target == snapshot_target_spec(c0, ticks),
            elapsed <= ticks,
            counter.current == counter_after(c0, elapsed),
            counter.wrapped == (old(counter).wrapped || elapsed > c0),
        decreases ticks - elapsed,
    {
        proof {
            lemma_snapshot_wait_correct(c0, ticks, elapsed);
        }
        counter.tick();
        elapsed = elapsed + 1;
    }
    proof {
        lemma_snapshot_wait_correct(c0, ticks, elapsed);
    }
    elapsed
}

} // verus!
