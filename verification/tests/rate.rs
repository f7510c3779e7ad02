use runcat_core::rate::{delay_ms, CpuSample};

fn delay_of_percent(percent: f64) -> u64 {
    delay_ms(CpuSample::new((percent * 100.0) as u32))
}

#[test]
fn delay_at_zero_cpu_is_base() {
    assert_eq!(delay_of_percent(0.0), 200);
}

#[test]
fn delay_at_five_percent_is_base() {
    // 5 / 5 == 1.0, floored to the slowest multiplier, so still 200 ms.
    assert_eq!(delay_of_percent(5.0), 200);
}

#[test]
fn delay_at_full_cpu_is_fastest() {
    // 100 / 5 == 20, the cap, so 200 / 20 == 10 ms.
    assert_eq!(delay_of_percent(100.0), 10);
}

#[test]
fn delay_saturates_above_full_cpu() {
    // 500 / 5 == 100, capped to 20, so still 10 ms.
    assert_eq!(delay_of_percent(500.0), 10);
}

#[test]
fn delay_mid_band_values() {
    // In the unclamped band the delay is 1000 / percent, rounded half up.
    assert_eq!(delay_of_percent(10.0), 100);
    assert_eq!(delay_of_percent(20.0), 50);
    assert_eq!(delay_of_percent(50.0), 20);
    assert_eq!(delay_of_percent(30.0), 33); // 33.33 rounds down
    assert_eq!(delay_of_percent(75.0), 13); // 13.33 rounds down
    assert_eq!(delay_of_percent(80.0), 13); // 12.5 rounds up
}

#[test]
fn delay_below_five_percent_all_base() {
    for centi in 0..=500u32 {
        assert_eq!(delay_ms(CpuSample::new(centi)), 200);
    }
}

#[test]
fn delay_in_range_and_monotonic() {
    let mut prev: u64 = delay_ms(CpuSample::new(0));
    for centi in 0..=10200u32 {
        let d = delay_ms(CpuSample::new(centi));
        assert!((10..=200).contains(&d), "delay {d} out of range at {centi}");
        assert!(d <= prev, "delay grew from {prev} to {d} at {centi}");
        prev = d;
    }
}

#[test]
fn idle_sample_is_one_percent() {
    let s = CpuSample::idle();
    assert_eq!(s.centi, 100);
    assert_eq!(delay_ms(s), 200);
}
