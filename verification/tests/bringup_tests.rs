use lcd_hw::COUNTER_MASK;
use lcd_hw::bringup::BringupError;
use lcd_hw::bringup::ClockState;
use lcd_hw::bringup::MS_RELOAD;
use lcd_hw::bringup::TICKS_PER_US;
use lcd_hw::bringup::TIMEOUT_RELOAD;
use lcd_hw::bringup::setup;
use lcd_hw::bringup::wait_condition;
use lcd_hw::timer::CounterModel;

fn window(value: bool) -> Vec<bool> {
    vec![value; (TIMEOUT_RELOAD + 1) as usize]
}

fn full_order() -> Vec<ClockState> {
    vec![
        ClockState::Idle,
        ClockState::OscillatorStarting,
        ClockState::OscillatorReady,
        ClockState::PllLocking,
        ClockState::PllLocked,
        ClockState::SwitchingSystemClock,
        ClockState::Running,
    ]
}

#[test]
fn wait_condition_finds_late_condition() {
    let mut c = CounterModel::new(20);
    let mut obs = vec![false; 21];
    obs[3] = true;
    assert!(wait_condition(&mut c, &obs));
    // Three ticks passed before the condition held.
    assert_eq!(c.get_current(), 17);
    assert!(!c.has_wrapped());
    assert_eq!(c.reload, 20);
}

#[test]
fn wait_condition_times_out() {
    let mut c = CounterModel::new(20);
    let obs = vec![false; 21];
    assert!(!wait_condition(&mut c, &obs));
    assert!(c.has_wrapped());
}

#[test]
fn bringup_success_visits_all_states_in_order() {
    let mut c = CounterModel::new(COUNTER_MASK);
    let (trace, result) = setup(&mut c, false, &window(true), &window(true), &window(true));
    assert_eq!(trace, full_order());
    assert_eq!(result, Ok(TICKS_PER_US));
    // The counter now counts a 1 ms period at the new tick rate.
    assert_eq!(c.reload, MS_RELOAD);
    assert_eq!(c.get_current(), MS_RELOAD);
    assert!(!c.has_wrapped());
}

#[test]
fn bringup_rejects_locked_pll_at_entry() {
    let mut c = CounterModel::new(COUNTER_MASK);
    let (trace, result) = setup(&mut c, true, &window(true), &window(true), &window(true));
    assert_eq!(trace, vec![ClockState::Idle]);
    assert_eq!(result, Err(BringupError::PllAlreadyLocked));
    // Nothing was touched.
    assert_eq!(c.reload, COUNTER_MASK);
}

#[test]
fn bringup_oscillator_timeout_stops_early() {
    let mut c = CounterModel::new(COUNTER_MASK);
    let (trace, result) = setup(&mut c, false, &window(false), &window(true), &window(true));
    assert_eq!(trace, vec![ClockState::Idle, ClockState::OscillatorStarting]);
    assert_eq!(result, Err(BringupError::OscillatorTimeout));
}

#[test]
fn bringup_pll_timeout_stops_early() {
    let mut c = CounterModel::new(COUNTER_MASK);
    let (trace, result) = setup(&mut c, false, &window(true), &window(false), &window(true));
    assert_eq!(trace, full_order()[..4].to_vec());
    assert_eq!(result, Err(BringupError::PllLockTimeout));
}

#[test]
fn bringup_switch_timeout_stops_early() {
    let mut c = CounterModel::new(COUNTER_MASK);
    let (trace, result) = setup(&mut c, false, &window(true), &window(true), &window(false));
    assert_eq!(trace, full_order()[..6].to_vec());
    assert_eq!(result, Err(BringupError::ClockSwitchTimeout));
}

#[test]
fn bringup_late_conditions_still_succeed() {
    let mut c = CounterModel::new(COUNTER_MASK);
    let mut osc = vec![false; (TIMEOUT_RELOAD + 1) as usize];
    osc[TIMEOUT_RELOAD as usize] = true;
    let (trace, result) = setup(&mut c, false, &osc, &window(true), &window(true));
    assert_eq!(trace, full_order());
    assert_eq!(result, Ok(TICKS_PER_US));
}
