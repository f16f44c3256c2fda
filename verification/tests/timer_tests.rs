use lcd_hw::COUNTER_MASK;
use lcd_hw::timer::CounterModel;
use lcd_hw::timer::snapshot_done;
use lcd_hw::timer::snapshot_target;

#[test]
fn tick_decrements_and_wraps() {
    let mut c = CounterModel::new(2);
    assert_eq!(c.get_current(), 2);
    c.tick();
    assert_eq!(c.get_current(), 1);
    c.tick();
    assert_eq!(c.get_current(), 0);
    assert!(!c.has_wrapped());
    c.tick();
    assert_eq!(c.get_current(), 2);
    assert!(c.has_wrapped());
    c.clear_current();
    assert_eq!(c.get_current(), 2);
    assert!(!c.has_wrapped());
}

#[test]
fn snapshot_delay_without_wrap() {
    let mut c = CounterModel::new(COUNTER_MASK);
    c.clear_current();
    // Start high enough that the counter never passes zero.
    let elapsed = lcd_hw::timer::delay_us(&mut c, 9, 10);
    assert_eq!(elapsed, 90);
    assert_eq!(c.get_current(), COUNTER_MASK - 90);
    assert!(!c.has_wrapped());
    assert_eq!(c.reload, COUNTER_MASK);
}

#[test]
fn snapshot_delay_wraps_through_zero() {
    // Wraparound correctness: the counter starts at 5, the wait needs 900
    // ticks, so it must run through zero and still elapse exactly 900.
    let mut c = CounterModel { current: 5, reload: COUNTER_MASK, wrapped: false };
    let elapsed = lcd_hw::timer::delay_us(&mut c, 9, 100);
    assert_eq!(elapsed, 900);
    assert_eq!(c.get_current(), 0x0100_0000 + 5 - 900);
    assert!(c.has_wrapped());
    assert_eq!(c.reload, COUNTER_MASK);
}

#[test]
fn snapshot_target_values() {
    // 24-bit circular subtraction, one tick short of the distance.
    assert_eq!(snapshot_target(1000, 1), 1000);
    assert_eq!(snapshot_target(1000, 300), 701);
    assert_eq!(snapshot_target(5, 900), 0x0100_0000 + 5 - 899);
}

#[test]
fn snapshot_done_before_and_after() {
    let target = snapshot_target(1000, 300);
    // Not done at the start, nor one tick early.
    assert!(!snapshot_done(1000, target));
    assert!(!snapshot_done(701, target));
    // Done exactly when 300 ticks have elapsed.
    assert!(snapshot_done(700, target));
}

#[test]
fn half_range_boundary_exits_immediately() {
    // Beyond half the counter's range the circular comparison misreads
    // "ahead" as "behind": the wait is over before a single tick passes.
    let ticks = 0x0080_0000 + 1;
    let target = snapshot_target(1000, ticks);
    assert!(snapshot_done(1000, target));
}

#[test]
fn reload_delay_reprograms_reload() {
    let mut c = CounterModel::new(COUNTER_MASK);
    let elapsed = lcd_hw::util::delay_us(&mut c, 9, 50);
    assert_eq!(elapsed, 450);
    // The shared reload register is destroyed: that is the price of the
    // full-range strategy.
    assert_eq!(c.reload, 449);
    assert_eq!(c.get_current(), 449);
    assert!(c.has_wrapped());
}
