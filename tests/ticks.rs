use crankshaft::ticks::{tick_interval, CounterWidth};

#[test]
fn interval_wraps_on_sixteen_bit_counter() {
    assert_eq!(tick_interval(CounterWidth::Bits16, 65530, 10), 16);
}

#[test]
fn interval_wraps_on_thirty_two_bit_counter() {
    assert_eq!(tick_interval(CounterWidth::Bits32, u32::MAX - 5, 10), 16);
}

#[test]
fn interval_without_wrap() {
    assert_eq!(tick_interval(CounterWidth::Bits16, 1000, 1667), 667);
    assert_eq!(tick_interval(CounterWidth::Bits32, 1000, 1_001_000), 1_000_000);
}

#[test]
fn interval_of_equal_stamps_is_zero() {
    assert_eq!(tick_interval(CounterWidth::Bits16, 42, 42), 0);
    assert_eq!(tick_interval(CounterWidth::Bits32, 42, 42), 0);
}

#[test]
fn largest_interval_per_width() {
    assert_eq!(tick_interval(CounterWidth::Bits16, 1, 0), 65535);
    assert_eq!(tick_interval(CounterWidth::Bits32, 1, 0), u32::MAX);
}

#[test]
fn wraparound_holds_for_many_starts() {
    for start in [0u32, 1, 100, 65000, 65535] {
        for elapsed in [0u32, 1, 16, 667, 65535] {
            let later = (start + elapsed) % 65536;
            assert_eq!(tick_interval(CounterWidth::Bits16, start, later), elapsed);
        }
    }
}

#[test]
fn counter_width_from_bits() {
    assert_eq!(CounterWidth::from_bits(16), Some(CounterWidth::Bits16));
    assert_eq!(CounterWidth::from_bits(32), Some(CounterWidth::Bits32));
    assert_eq!(CounterWidth::from_bits(8), None);
    assert_eq!(CounterWidth::from_bits(64), None);
    assert_eq!(CounterWidth::Bits16.bits(), 16);
    assert_eq!(CounterWidth::Bits32.bits(), 32);
}
