use battgui::reading::{BatteryState, DeviceReading, Technology};
use battgui::sampler::{mean_rate, Sampler, SamplingClock, SAMPLE_EVERY_MS};
use battgui::window::RollingWindowBuffer;
use battgui::reading::BatteryInfo;

fn device(vendor: &str, rate_mw: i64) -> DeviceReading {
    DeviceReading {
        vendor: Some(vendor.to_string()),
        model: None,
        technology: Technology::LithiumIon,
        state: BatteryState::Discharging,
        voltage_mv: 12_000,
        state_of_charge_permille: 500,
        energy_mwh: 25_000,
        energy_full_mwh: 50_000,
        energy_full_design_mwh: 55_000,
        energy_rate_mw: rate_mw,
        time_to_empty: None,
        time_to_full: None,
        cycle_count: None,
        temperature_milli: None,
    }
}

fn series(buffer: &RollingWindowBuffer<i64>) -> Vec<(i64, i64)> {
    let mut out = Vec::new();
    let mut i = 0;
    while let Some(point) = buffer.newest_first(i) {
        out.push((point.timestamp_ms, point.value));
        i += 1;
    }
    out
}

fn info_with_rate(rate_mw: i64) -> BatteryInfo {
    BatteryInfo::from_battery(&device("x", rate_mw))
}

#[test]
fn default_interval_is_one_second() {
    assert_eq!(SAMPLE_EVERY_MS, 1000);
}

#[test]
fn new_sampler_has_seen_nothing() {
    let sampler = Sampler::new(42, 1000);
    assert_eq!(sampler.interval_ms(), 1000);
    assert_eq!(sampler.clock(), SamplingClock { last_sample_ms: 42, initialized: false });
    assert!(sampler.battery_info().is_empty());
}

#[test]
fn four_ticks_within_eleven_hundred_ms_poll_once() {
    let mut sampler = Sampler::new(0, 1000);
    let mut chart: RollingWindowBuffer<i64> = RollingWindowBuffer::new(60_000);
    let polled = vec![device("a", 10_000)];
    let mut polls = Vec::new();
    for now in [0, 100, 400, 1100] {
        assert_eq!(sampler.should_update(now), now == 1100);
        if sampler.maybe_sample(now, &polled, &mut chart).is_some() {
            polls.push(now);
        }
    }
    assert_eq!(polls, vec![1100]);
    assert_eq!(sampler.clock().last_sample_ms, 1100);
}

#[test]
fn a_poll_is_due_exactly_when_the_interval_has_passed() {
    let sampler = Sampler::new(5_000, 1000);
    assert!(!sampler.should_update(5_999));
    assert!(sampler.should_update(6_000));
    assert!(sampler.should_update(6_001));
    assert!(!sampler.should_update(4_000));
    assert!(!sampler.should_update(i64::MIN));
    assert!(sampler.should_update(i64::MAX));
}

#[test]
fn extreme_clock_values_do_not_overflow_the_throttle() {
    let sampler = Sampler::new(i64::MIN, u64::MAX);
    assert!(sampler.should_update(i64::MAX));
    assert!(!sampler.should_update(i64::MAX - 1));
    let late = Sampler::new(i64::MAX, 0);
    assert!(late.should_update(i64::MAX));
    assert!(!late.should_update(i64::MIN));
}

#[test]
fn a_throttled_pass_changes_nothing() {
    let mut sampler = Sampler::new(0, 1000);
    let mut chart: RollingWindowBuffer<i64> = RollingWindowBuffer::new(60_000);
    let polled = vec![device("a", 10_000)];
    assert_eq!(sampler.maybe_sample(999, &polled, &mut chart), None);
    assert_eq!(sampler.clock(), SamplingClock { last_sample_ms: 0, initialized: false });
    assert!(sampler.battery_info().is_empty());
    assert!(chart.is_empty());
    assert!(!chart.needs_redraw());
}

#[test]
fn first_pass_charts_each_device_and_later_passes_chart_the_mean() {
    let mut sampler = Sampler::new(0, 1000);
    let mut chart: RollingWindowBuffer<i64> = RollingWindowBuffer::new(60_000);
    let polled = vec![device("a", 10_000), device("b", 20_000)];

    assert_eq!(sampler.maybe_sample(1_000, &polled, &mut chart), Some((2, None)));
    assert!(sampler.clock().initialized);
    assert_eq!(series(&chart), vec![(1_000, 20_000), (1_000, 10_000)]);

    assert_eq!(sampler.maybe_sample(2_000, &polled, &mut chart), Some((2, Some(15_000))));
    assert_eq!(series(&chart), vec![(2_000, 15_000), (1_000, 20_000), (1_000, 10_000)]);

    assert_eq!(sampler.maybe_sample(3_000, &polled, &mut chart), Some((2, Some(15_000))));
    assert_eq!(chart.len(), 4);
    assert!(chart.needs_redraw());
}

#[test]
fn an_empty_pass_keeps_the_previous_readings() {
    let mut sampler = Sampler::new(0, 1000);
    let mut chart: RollingWindowBuffer<i64> = RollingWindowBuffer::new(60_000);
    let polled = vec![device("a", 10_000), device("b", 20_000)];
    sampler.maybe_sample(1_000, &polled, &mut chart);
    chart.mark_drawn();
    let before = series(&chart);

    assert_eq!(sampler.maybe_sample(2_000, &Vec::new(), &mut chart), Some((0, None)));
    assert_eq!(sampler.battery_info().len(), 2);
    assert_eq!(sampler.battery_info()[0].name, "Battery a");
    assert_eq!(sampler.battery_info()[1].name, "Battery b");
    assert_eq!(series(&chart), before);
    assert!(!chart.needs_redraw());
    assert!(sampler.clock().initialized);
}

#[test]
fn an_empty_pass_still_resets_the_throttle() {
    let mut sampler = Sampler::new(0, 1000);
    let mut chart: RollingWindowBuffer<i64> = RollingWindowBuffer::new(60_000);
    assert_eq!(sampler.maybe_sample(1_000, &Vec::new(), &mut chart), Some((0, None)));
    assert_eq!(sampler.clock(), SamplingClock { last_sample_ms: 1_000, initialized: false });
    assert!(!sampler.should_update(1_999));
    assert_eq!(sampler.maybe_sample(1_999, &vec![device("a", 1)], &mut chart), None);
    assert!(chart.is_empty());
}

#[test]
fn empty_passes_before_the_first_device_leave_the_first_pass_pending() {
    let mut sampler = Sampler::new(0, 1000);
    let mut chart: RollingWindowBuffer<i64> = RollingWindowBuffer::new(60_000);
    sampler.maybe_sample(1_000, &Vec::new(), &mut chart);
    sampler.maybe_sample(2_000, &Vec::new(), &mut chart);
    assert!(sampler.battery_info().is_empty());
    let polled = vec![device("a", 4_000), device("b", 6_000), device("c", 8_000)];
    assert_eq!(sampler.maybe_sample(3_000, &polled, &mut chart), Some((3, None)));
    assert_eq!(series(&chart), vec![(3_000, 8_000), (3_000, 6_000), (3_000, 4_000)]);
}

#[test]
fn a_pass_that_finds_devices_replaces_the_readings_whole() {
    let mut sampler = Sampler::new(0, 1000);
    let mut chart: RollingWindowBuffer<i64> = RollingWindowBuffer::new(60_000);
    sampler.maybe_sample(1_000, &vec![device("a", 1), device("b", 2)], &mut chart);
    sampler.maybe_sample(2_000, &vec![device("c", 3)], &mut chart);
    assert_eq!(sampler.battery_info().len(), 1);
    assert_eq!(sampler.battery_info()[0].name, "Battery c");
    assert_eq!(sampler.battery_info()[0].energy_rate_mw, 3);
    assert_eq!(chart.newest_first(0).unwrap().value, 3);
}

#[test]
fn accepted_sample_times_never_go_back() {
    let mut sampler = Sampler::new(0, 100);
    let mut chart: RollingWindowBuffer<i64> = RollingWindowBuffer::new(1_000);
    let polled = vec![device("a", 1_000)];
    let mut last = sampler.clock().last_sample_ms;
    for now in [50, 100, 90, 150, 250, 200, 10, 350, 10_000, 9_000] {
        sampler.maybe_sample(now, &polled, &mut chart);
        assert!(sampler.clock().last_sample_ms >= last);
        last = sampler.clock().last_sample_ms;
    }
    assert_eq!(last, 10_000);
    assert_eq!(series(&chart), vec![(10_000, 1_000)]);
}

#[test]
fn the_sampled_series_stays_inside_its_window() {
    let mut sampler = Sampler::new(0, 1000);
    let mut chart: RollingWindowBuffer<i64> = RollingWindowBuffer::new(5_000);
    let polled = vec![device("a", 2_000), device("b", 4_000)];
    for tick in 0..2_000 {
        let now = tick * 20;
        sampler.maybe_sample(now, &polled, &mut chart);
        if let Some(newest) = chart.newest_timestamp() {
            assert!(newest - chart.oldest_timestamp().unwrap() <= 5_000);
        }
    }
    assert_eq!(chart.newest_timestamp(), Some(39_000));
    assert_eq!(chart.oldest_timestamp(), Some(34_000));
    assert_eq!(chart.len(), 6);
}

#[test]
fn mean_rate_is_none_without_readings() {
    assert_eq!(mean_rate(&Vec::new()), None);
}

#[test]
fn mean_rate_is_exact_where_the_sum_divides() {
    assert_eq!(mean_rate(&vec![info_with_rate(10_000), info_with_rate(20_000)]), Some(15_000));
    assert_eq!(mean_rate(&vec![info_with_rate(7)]), Some(7));
    assert_eq!(mean_rate(&vec![info_with_rate(-4), info_with_rate(4)]), Some(0));
}

#[test]
fn mean_rate_rounds_down() {
    assert_eq!(mean_rate(&vec![info_with_rate(1), info_with_rate(2)]), Some(1));
    assert_eq!(mean_rate(&vec![info_with_rate(-1), info_with_rate(-2)]), Some(-2));
    assert_eq!(mean_rate(&vec![info_with_rate(-1), info_with_rate(0)]), Some(-1));
    assert_eq!(
        mean_rate(&vec![info_with_rate(-7), info_with_rate(0), info_with_rate(0)]),
        Some(-3)
    );
}

#[test]
fn mean_rate_of_extreme_values_does_not_overflow() {
    assert_eq!(
        mean_rate(&vec![info_with_rate(i64::MAX), info_with_rate(i64::MAX)]),
        Some(i64::MAX)
    );
    assert_eq!(
        mean_rate(&vec![info_with_rate(i64::MIN), info_with_rate(i64::MIN)]),
        Some(i64::MIN)
    );
    assert_eq!(mean_rate(&vec![info_with_rate(i64::MIN), info_with_rate(i64::MAX)]), Some(-1));
}
