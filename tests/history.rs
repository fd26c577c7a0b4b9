use crankshaft::history::{TriggerWheel, TICK_HISTORY_CAPACITY};
use crankshaft::ticks::CounterWidth;

#[test]
fn first_tick_has_no_interval() {
    let mut wheel = TriggerWheel::new();
    assert_eq!(wheel.ticks_count(), 0);
    assert_eq!(wheel.add_tick(500), None);
    assert_eq!(wheel.ticks_count(), 1);
}

#[test]
fn intervals_follow_the_previous_tick() {
    let mut wheel = TriggerWheel::new();
    assert_eq!(wheel.add_tick(100), None);
    assert_eq!(wheel.add_tick(767), Some(667));
    assert_eq!(wheel.add_tick(1500), Some(733));
    assert_eq!(wheel.ticks_count(), 3);
}

#[test]
fn repeated_tick_gives_zero_interval() {
    let mut wheel = TriggerWheel::new();
    wheel.add_tick(9000);
    assert_eq!(wheel.add_tick(9000), Some(0));
}

#[test]
fn sixteen_bit_wheel_wraps() {
    let mut wheel = TriggerWheel::with_counter_width(CounterWidth::Bits16);
    assert_eq!(wheel.width(), CounterWidth::Bits16);
    assert_eq!(wheel.add_tick(65530), None);
    assert_eq!(wheel.add_tick(10), Some(16));
}

#[test]
fn new_wheel_counts_thirty_two_bits() {
    assert_eq!(TriggerWheel::new().width(), CounterWidth::Bits32);
}

#[test]
fn history_is_bounded_by_capacity() {
    let mut wheel = TriggerWheel::new();
    let extra = 5usize;
    for i in 0..(TICK_HISTORY_CAPACITY + extra) {
        wheel.add_tick((i as u32) * 10);
        assert!(wheel.ticks_count() <= TICK_HISTORY_CAPACITY);
        assert_eq!(wheel.ticks_count(), (i + 1).min(TICK_HISTORY_CAPACITY));
    }
    assert_eq!(wheel.ticks_count(), TICK_HISTORY_CAPACITY);
    // the newest stamp is still the reference for the next interval
    let last = ((TICK_HISTORY_CAPACITY + extra - 1) as u32) * 10;
    assert_eq!(wheel.add_tick(last + 7), Some(7));
    assert_eq!(wheel.ticks_count(), TICK_HISTORY_CAPACITY);
}
