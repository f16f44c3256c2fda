//! Clock bring-up: a bounded state machine that starts the external
//! oscillator, locks the PLL, switches the system clock over, and
//! reprograms the counter's tick rate. Runs once at startup, before the
//! display is used. Each hardware-settling step is guarded by a bounded
//! wait on the counter's wrap flag; a timeout is fatal, because every
//! timing guarantee downstream depends on the target frequency.

use vstd::prelude::*;
use crate::timer::CounterModel;

verus! {

/// States of the bring-up sequence, in strict forward order; there are no
/// back-transitions.
#[derive(Clone, Copy, Debug, PartialEq, Eq, Structural)]
pub enum ClockState {
    Idle,
    OscillatorStarting,
    OscillatorReady,
    PllLocking,
    PllLocked,
    SwitchingSystemClock,
    Running,
}

/// The fatal outcomes of bring-up: a reentrancy bug (PLL already locked at
/// entry) or one of the three guarded waits timing out. There is no
/// degraded-clock fallback.
#[derive(Clone, Copy, Debug, PartialEq, Eq, Structural)]
pub enum BringupError {
    PllAlreadyLocked,
    OscillatorTimeout,
    PllLockTimeout,
    ClockSwitchTimeout,
}

/// Position of a state in the forward order.
pub open spec fn state_index(s: ClockState) -> int {
    match s {
        ClockState::Idle => 0,
        ClockState::OscillatorStarting => 1,
        ClockState::OscillatorReady => 2,
        ClockState::PllLocking => 3,
        ClockState::PllLocked => 4,
        ClockState::SwitchingSystemClock => 5,
        ClockState::Running => 6,
    }
}

/// The one order in which a bring-up may visit its states.
pub open spec fn bringup_order() -> Seq<ClockState> {
    seq![
        ClockState::Idle,
        ClockState::OscillatorStarting,
        ClockState::OscillatorReady,
        ClockState::PllLocking,
        ClockState::PllLocked,
        ClockState::SwitchingSystemClock,
        ClockState::Running,
    ]
}

/// The bring-up order is strictly forward: the state at each position of
/// the order is exactly the one whose index is that position, so no state
/// is ever revisited and none is skipped.
pub proof fn lemma_bringup_order_strictly_forward()
    ensures
        bringup_order().len() == 7,
        forall|i: int| 0 <= i < 7 ==> state_index(#[trigger] bringup_order()[i]) == i,
{
    assert forall|i: int| 0 <= i < 7 implies state_index(#[trigger] bringup_order()[i]) == i by {
        if i == 0 {
            assert(bringup_order()[0] == ClockState::Idle);
        } else if i == 1 {
            assert(bringup_order()[1] == ClockState::OscillatorStarting);
        } else if i == 2 {
            assert(bringup_order()[2] == ClockState::OscillatorReady);
        } else if i == 3 {
            assert(bringup_order()[3] == ClockState::PllLocking);
        } else if i == 4 {
            assert(bringup_order()[4] == ClockState::PllLocked);
        } else if i == 5 {
            assert(bringup_order()[5] == ClockState::SwitchingSystemClock);
        } else {
            assert(bringup_order()[6] == ClockState::Running);
        }
    }
}

/// Reload value for the 50 ms guard window of each bounded wait, at the
/// pre-switch tick rate of one tick per microsecond.
pub const TIMEOUT_RELOAD: u32 = 49_999;

/// Reload value for a 1 ms period at the post-switch tick rate.
pub const MS_RELOAD: u32 = 8_999;

/// Counter ticks per microsecond once the system clock runs at the target
/// frequency (the counter sees one eighth of 72 MHz).
pub const TICKS_PER_US: u32 = 9;

/// Bounded wait: reset the counter, then poll a condition until it holds
/// or the one-shot wrap flag fires. `observations` holds the successive
/// values the polled hardware condition takes, one per counter tick; the
/// wait examines at most `reload + 1` of them. Returns whether the
/// condition held before the timeout.
pub fn wait_condition(counter: &mut CounterModel, observations: &Vec<bool>) -> (ok: bool)
    requires
        old(counter).wf(),
        observations.len() > old(counter).reload,
    ensures
        final(counter).wf(),
        final(counter).reload == old(counter).reload,
        ok == exists|i: int|
            0 <= i <= old(counter).reload && observations[i],
        !ok ==> final(counter).wrapped && final(counter).current == final(counter).reload,
        ok ==> exists|i: int|
            0 <= i <= old(counter).reload && observations[i] && (forall|k: int|
                0 <= k < i ==> !observations[k]) && !final(counter).wrapped
                && final(counter).current == old(counter).reload - i,
{
    let ghost reload: u32 = old(counter).reload;
    counter.clear_current();
    let mut i: usize = 0;
    loop
        invariant
            counter.wf(),
            counter.reload == reload,
            reload == old(counter).reload,
            observations.len() > reload,
            i <= reload,
            counter.current == reload - i,
            !counter.wrapped,
            forall|k: int| 0 <= k < i ==> !observations[k],
        decreases reload - i,
    {
        if observations[i] {
            return true;
        }
        counter.tick();
        if counter.has_wrapped() {
            return false;
        }
        i = i + 1;
    }
}

/// Bring up the clock tree: start the oscillator, lock the PLL, switch the
/// system clock over, then reprogram the counter for the new tick rate.
///
/// `pll_locked_at_entry` is the PLL status read at entry — a locked PLL
/// means the sequence was re-entered, a fatal usage error checked before
/// anything is touched. The three observation vectors hold the successive
/// values of the three hardware settling conditions, one per counter tick
/// of the 50 ms guard window.
///
/// Returns the exact sequence of states visited — always a prefix of
/// [`bringup_order`], ending early only on a fatal error — and either the
/// tick rate the counter runs at from now on, or the first fatal error.
/// On success the counter is left counting a 1 ms period at the new rate
/// with a clear wrap flag; a failed guard never advances the state.
pub fn setup(
    counter: &mut CounterModel,
    pll_locked_at_entry: bool,
    osc_ready: &Vec<bool>,
    pll_locked: &Vec<bool>,
    clock_switched: &Vec<bool>,
) -> (r: (Vec<ClockState>, Result<u32, BringupError>))
    requires
        old(counter).wf(),
        osc_ready.len() > TIMEOUT_RELOAD,
        pll_locked.len() > TIMEOUT_RELOAD,
        clock_switched.len() > TIMEOUT_RELOAD,
    ensures
        final(counter).wf(),
        pll_locked_at_entry ==> r.1 == Err::<u32, BringupError>(BringupError::PllAlreadyLocked)
            && r.0@ =~= bringup_order().take(1) && *final(counter) == *old(counter),
        !pll_locked_at_entry && !cond_holds(osc_ready@) ==> r.1 == Err::<u32, BringupError>(
            BringupError::OscillatorTimeout,
        ) && r.0@ =~= bringup_order().take(2),
        !pll_locked_at_entry && cond_holds(osc_ready@) && !cond_holds(pll_locked@) ==> r.1
            == Err::<u32, BringupError>(BringupError::PllLockTimeout) && r.0@ =~= bringup_order()
            .take(4),
        !pll_locked_at_entry && cond_holds(osc_ready@) && cond_holds(pll_locked@) && !cond_holds(
            clock_switched@,
        ) ==> r.1 == Err::<u32, BringupError>(BringupError::ClockSwitchTimeout) && r.0@
            =~= bringup_order().take(6),
        !pll_locked_at_entry && cond_holds(osc_ready@) && cond_holds(pll_locked@) && cond_holds(
            clock_switched@,
        ) ==> r.1 == Ok::<u32, BringupError>(TICKS_PER_US) && r.0@ =~= bringup_order()
            && final(counter).reload == MS_RELOAD && final(counter).current == MS_RELOAD
            && !final(counter).wrapped,
{
    let mut trace: Vec<ClockState> = Vec::new();
    trace.push(ClockState::Idle);
    if pll_locked_at_entry {
        assert(trace@ =~= bringup_order().take(1));
        return (trace, Err(BringupError::PllAlreadyLocked));
    }
    // 50 ms timeout window for each guarded wait, one tick per microsecond
    // before the switch.
    counter.set_reload(TIMEOUT_RELOAD);

    // Start the external oscillator and wait for it to report ready.
    trace.push(ClockState::OscillatorStarting);
    if !wait_condition(counter, osc_ready) {
        assert(trace@ =~= bringup_order().take(2));
        return (trace, Err(BringupError::OscillatorTimeout));
    }
    trace.push(ClockState::OscillatorReady);

    // Configure the dividers and the PLL source, then wait for the lock.
    trace.push(ClockState::PllLocking);
    if !wait_condition(counter, pll_locked) {
        assert(trace@ =~= bringup_order().take(4));
        return (trace, Err(BringupError::PllLockTimeout));
    }
    trace.push(ClockState::PllLocked);

    // Switch the system clock to the PLL and wait for the switch to take.
    trace.push(ClockState::SwitchingSystemClock);
    if !wait_condition(counter, clock_switched) {
        assert(trace@ =~= bringup_order().take(6));
        return (trace, Err(BringupError::ClockSwitchTimeout));
    }
    trace.push(ClockState::Running);

    // The counter now ticks at the new rate: reprogram it for a 1 ms
    // period and restart it cleanly.
    counter.set_reload(MS_RELOAD);
    counter.clear_current();
    assert(trace@ =~= bringup_order());
    (trace, Ok(TICKS_PER_US))
}

/// Whether a polled hardware condition comes true anywhere inside the
/// guard window.
pub open spec fn cond_holds(observations: Seq<bool>) -> bool {
    exists|i: int| 0 <= i <= TIMEOUT_RELOAD && observations[i]
}

} // verus!
