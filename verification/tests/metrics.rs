use performance_tracker::accumulate::{average_trials, Accumulator};
use performance_tracker::metric::{Metric, UnitClass};
use performance_tracker::metrics::LighthouseMetrics;

fn sample() -> LighthouseMetrics {
    let mut record = LighthouseMetrics::new();
    record.first_contentful_paint = 1_200_000_000_000;
    record.largest_contentful_paint = 2_500_500_000_000;
    record.cumulative_layout_shift = 50_000_000;
    record.performance_score = 85_000_000_000;
    record.total_byte_weight = 2_345_678_000_000_000;
    record.dom_size = 1_500_000_000_000;
    record
}

#[test]
fn new_record_is_all_zero() {
    let record = LighthouseMetrics::new();
    for i in 0..24 {
        let m = Metric::from_ordinal(i).unwrap();
        assert_eq!(record.get(m), 0);
    }
    assert_eq!(record, LighthouseMetrics::default());
}

#[test]
fn table_has_twenty_four_places() {
    for i in 0..24 {
        let m = Metric::from_ordinal(i).unwrap();
        assert_eq!(m.ordinal(), i);
    }
    assert_eq!(Metric::from_ordinal(24), None);
}

#[test]
fn set_changes_one_field_only() {
    let mut record = sample();
    record.set(Metric::DomSize, 7);
    assert_eq!(record.dom_size, 7);
    let mut expected = sample();
    expected.dom_size = 7;
    assert_eq!(record, expected);
}

#[test]
fn add_sums_each_field() {
    let mut total = sample();
    total.add(&sample());
    assert_eq!(total.first_contentful_paint, 2_400_000_000_000);
    assert_eq!(total.cumulative_layout_shift, 100_000_000);
    assert_eq!(total.performance_score, 170_000_000_000);
    assert_eq!(total.speed_index, 0);
}

#[test]
fn add_stops_at_the_ends_of_the_range() {
    let mut total = LighthouseMetrics::new();
    total.dom_size = i64::MAX;
    total.unused_css = i64::MIN;
    let mut other = LighthouseMetrics::new();
    other.dom_size = 1;
    other.unused_css = -1;
    total.add(&other);
    assert_eq!(total.dom_size, i64::MAX);
    assert_eq!(total.unused_css, i64::MIN);
}

#[test]
fn average_divides_each_field() {
    let mut total = sample();
    total.add(&sample());
    total.add(&sample());
    total.average(3);
    assert_eq!(total, sample());
}

#[test]
fn average_rounds_toward_zero() {
    let mut record = LighthouseMetrics::new();
    record.dom_size = 10;
    record.unused_css = -10;
    record.average(3);
    assert_eq!(record.dom_size, 3);
    assert_eq!(record.unused_css, -3);
}

#[test]
fn to_seconds_divides_durations_only() {
    let record = sample();
    let seconds = record.to_seconds();
    assert_eq!(seconds.first_contentful_paint, 1_200_000_000);
    assert_eq!(seconds.largest_contentful_paint, 2_500_500_000);
    assert_eq!(seconds.cumulative_layout_shift, 50_000_000);
    assert_eq!(seconds.performance_score, 85_000_000_000);
    assert_eq!(seconds.total_byte_weight, 2_345_678_000_000_000);
    assert_eq!(seconds.dom_size, 1_500_000_000_000);
    assert_eq!(record, sample());
}

#[test]
fn to_seconds_follows_the_unit_table() {
    let mut record = LighthouseMetrics::new();
    for i in 0..24 {
        record.set(Metric::from_ordinal(i).unwrap(), 5_000 + i as i64);
    }
    let seconds = record.to_seconds();
    let mut durations = 0;
    for i in 0..24 {
        let m = Metric::from_ordinal(i).unwrap();
        if m.unit() == UnitClass::Time {
            durations += 1;
            assert_eq!(seconds.get(m), 5);
        } else {
            assert_eq!(seconds.get(m), 5_000 + i as i64);
        }
    }
    assert_eq!(durations, 13);
}

#[test]
fn folding_one_record_many_times_averages_to_it() {
    for n in [1u32, 2, 3, 7, 1000] {
        let mut totals = Accumulator::new();
        for _ in 0..n {
            totals.fold(&sample());
        }
        assert_eq!(totals.successful_runs(), n as u64);
        assert_eq!(totals.finalize(), sample());
    }
}

#[test]
fn folding_records_at_the_end_of_the_range_is_exact() {
    let mut record = LighthouseMetrics::new();
    record.dom_size = i64::MAX;
    record.unused_css = i64::MIN;
    let mut totals = Accumulator::new();
    for _ in 0..5 {
        totals.fold(&record);
    }
    assert_eq!(totals.finalize(), record);
}

#[test]
fn finalize_takes_the_mean() {
    let mut a = LighthouseMetrics::new();
    a.speed_index = 1_000;
    let mut b = LighthouseMetrics::new();
    b.speed_index = 2_001;
    let mut totals = Accumulator::new();
    totals.fold(&a);
    totals.fold(&b);
    assert_eq!(totals.finalize().speed_index, 1_500);
}

#[test]
fn failed_trials_are_passed_over() {
    let trials = vec![None, Some(sample()), None, Some(sample())];
    assert_eq!(average_trials(&trials), Some(sample().to_seconds()));
}

#[test]
fn a_scenario_without_a_successful_trial_has_no_record() {
    assert_eq!(average_trials(&vec![None, None, None]), None);
    assert_eq!(average_trials(&Vec::new()), None);
}
