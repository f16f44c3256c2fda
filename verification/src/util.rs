//! Reload/wrap-flag delay strategy: program the shared reload register to
//! the full duration, reset the counter, and spin on the one-shot wrap
//! flag. Correct over the counter's full 24-bit range, but destructive: it
//! reprograms the reload register, so it must not be interleaved with logic
//! that depends on a stable reload value.

use vstd::prelude::*;
use crate::COUNTER_PERIOD;
use crate::timer::CounterModel;

verus! {

/// Delay for `delay` microseconds at `ticks_per_us` counter ticks per
/// microsecond by the reload/wrap-flag strategy. The counter ticks once per
/// poll of the spin loop. On return the reload register holds the
/// reprogrammed value `delay * ticks_per_us - 1` — the caller's old reload
/// value is gone. Returns the number of ticks that elapsed.
pub fn delay_us(counter: &mut CounterModel, ticks_per_us: u32, delay: u32) -> (elapsed: u32)
    requires
        old(counter).wf(),
        1 <= delay * ticks_per_us <= COUNTER_PERIOD,
    ensures
        final(counter).wf(),
        final(counter).reload == delay * ticks_per_us - 1,
        final(counter).current == final(counter).reload,
        final(counter).wrapped,
        elapsed == delay * ticks_per_us,
{
    let ticks: u32 = delay * ticks_per_us;
    counter.set_reload(ticks - 1);
    counter.clear_current();
    let mut elapsed: u32 = 0;
    while !counter.has_wrapped()
        invariant
            counter.wf(),
            1 <= ticks,
            counter.reload == ticks - 1,
            elapsed <= ticks,
            !counter.wrapped ==> counter.current == ticks - 1 - elapsed && elapsed < ticks,
            counter.wrapped ==> elapsed == ticks && counter.current == counter.reload,
        decreases ticks - elapsed,
    {
        counter.tick();
        elapsed = elapsed + 1;
    }
    elapsed
}

} // verus!
