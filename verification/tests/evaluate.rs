use performance_tracker::evaluate::{
    classify, label, limits, offender_label, rating_name, Limits, Rating,
};
use performance_tracker::metric::Metric;
use performance_tracker::metrics::LighthouseMetrics;

#[test]
fn first_contentful_paint_at_the_limits() {
    let m = Metric::FirstContentfulPaint;
    assert_eq!(classify(m, 1_800_000_000), Some(Rating::Good));
    assert_eq!(classify(m, 1_800_000_100), Some(Rating::NeedsImprovement));
    assert_eq!(classify(m, 3_000_000_000), Some(Rating::NeedsImprovement));
    assert_eq!(classify(m, 3_000_000_100), Some(Rating::Poor));
    assert_eq!(classify(m, 1_800_000_001), Some(Rating::NeedsImprovement));
    assert_eq!(classify(m, 3_000_000_001), Some(Rating::Poor));
    assert_eq!(classify(m, 0), Some(Rating::Good));
    assert_eq!(classify(m, -5), Some(Rating::Good));
}

#[test]
fn every_rated_indicator_has_its_limits() {
    let cases = [
        (Metric::FirstContentfulPaint, 1_800_000_000, 3_000_000_000),
        (Metric::LargestContentfulPaint, 2_500_000_000, 4_000_000_000),
        (Metric::TimeToInteractive, 3_800_000_000, 7_300_000_000),
        (Metric::TotalBlockingTime, 200_000_000, 600_000_000),
        (Metric::CumulativeLayoutShift, 100_000_000, 250_000_000),
        (Metric::SpeedIndex, 3_400_000_000, 5_800_000_000),
    ];
    for (m, good, fair) in cases {
        assert_eq!(limits(m), Some(Limits { good, fair, higher_is_better: false }));
        assert_eq!(classify(m, good), Some(Rating::Good));
        assert_eq!(classify(m, good + 1), Some(Rating::NeedsImprovement));
        assert_eq!(classify(m, fair), Some(Rating::NeedsImprovement));
        assert_eq!(classify(m, fair + 1), Some(Rating::Poor));
    }
}

#[test]
fn a_higher_performance_score_is_better() {
    let m = Metric::PerformanceScore;
    assert_eq!(
        limits(m),
        Some(Limits { good: 90_000_000_000, fair: 50_000_000_000, higher_is_better: true })
    );
    assert_eq!(classify(m, 100_000_000_000), Some(Rating::Good));
    assert_eq!(classify(m, 90_000_000_000), Some(Rating::Good));
    assert_eq!(classify(m, 89_999_999_999), Some(Rating::NeedsImprovement));
    assert_eq!(classify(m, 50_000_000_000), Some(Rating::NeedsImprovement));
    assert_eq!(classify(m, 49_999_999_999), Some(Rating::Poor));
    assert_eq!(classify(m, 0), Some(Rating::Poor));
}

#[test]
fn other_indicators_are_not_rated() {
    let mut rated = 0;
    for i in 0..24 {
        let m = Metric::from_ordinal(i).unwrap();
        assert_eq!(limits(m).is_some(), classify(m, 0).is_some());
        if limits(m).is_some() {
            rated += 1;
        }
    }
    assert_eq!(rated, 7);
    assert_eq!(classify(Metric::DomSize, 0), None);
    assert_eq!(classify(Metric::TotalByteWeight, 1), None);
}

#[test]
fn names_of_ratings_and_indicators() {
    assert_eq!(rating_name(Rating::Good), "Good");
    assert_eq!(rating_name(Rating::NeedsImprovement), "Needs Improvement");
    assert_eq!(rating_name(Rating::Poor), "Poor");
    assert_eq!(label(Metric::PerformanceScore), "Performance Score");
    assert_eq!(label(Metric::FirstContentfulPaint), "FCP");
    assert_eq!(label(Metric::SpeedIndex), "SI");
    assert_eq!(label(Metric::DomSize), "dom_size");
    assert_eq!(offender_label(Metric::JavascriptBootupTime), "JS Bootup");
    assert_eq!(offender_label(Metric::TotalByteWeight), "Byte Weight");
    assert_eq!(offender_label(Metric::SpeedIndex), "speed_index");
}

#[test]
fn evaluate_reports_every_rated_indicator() {
    let mut record = LighthouseMetrics::new();
    record.performance_score = 85_000_000_000;
    record.first_contentful_paint = 1_200_000_000;
    record.largest_contentful_paint = 2_600_000_000;
    record.time_to_interactive = 7_300_000_001;
    record.total_blocking_time = 150_000_000;
    record.cumulative_layout_shift = 255_000_000;
    record.speed_index = 3_400_000_000;
    let evaluation = record.evaluate();
    assert_eq!(
        evaluation.report,
        "Performance Score: 85.00 (Needs Improvement)\n\
         FCP: 1.20s (Good)\n\
         LCP: 2.60s (Needs Improvement)\n\
         TTI: 7.30s (Poor)\n\
         TBT: 0.15s (Good)\n\
         CLS: 0.26 (Poor)\n\
         SI: 3.40s (Good)\n\
         Good: 3, Needs Improvement: 2, Poor: 2"
    );
    assert_eq!(evaluation.good_count, 3);
    assert_eq!(evaluation.needs_improvement_count, 2);
    assert_eq!(evaluation.poor_count, 2);
}

#[test]
fn evaluate_counts_add_up() {
    let record = LighthouseMetrics::new();
    let evaluation = record.evaluate();
    assert_eq!(evaluation.good_count, 6);
    assert_eq!(evaluation.needs_improvement_count, 0);
    assert_eq!(evaluation.poor_count, 1);
    assert!(evaluation.report.starts_with("Performance Score: 0.00 (Poor)\nFCP: 0.00s (Good)\n"));
    assert!(evaluation.report.ends_with("\nGood: 6, Needs Improvement: 0, Poor: 1"));
}

#[test]
fn top_offenders_are_sorted_strictly_descending() {
    let mut record = LighthouseMetrics::new();
    record.total_blocking_time = 300;
    record.time_to_interactive = 5_000;
    record.javascript_bootup_time = 1_200;
    record.dom_size = 800;
    record.total_byte_weight = 2_000_000;
    let offenders = record.top_offenders();
    assert_eq!(
        offenders,
        vec![
            ("Byte Weight", 2_000_000),
            ("TTI", 5_000),
            ("JS Bootup", 1_200),
            ("DOM Size", 800),
            ("TBT", 300),
        ]
    );
    for pair in offenders.windows(2) {
        assert!(pair[0].1 > pair[1].1);
    }
}

#[test]
fn top_offenders_with_equal_values_keep_their_listed_order() {
    let record = LighthouseMetrics::new();
    assert_eq!(
        record.top_offenders(),
        vec![("TBT", 0), ("TTI", 0), ("JS Bootup", 0), ("DOM Size", 0), ("Byte Weight", 0)]
    );
    let mut record = LighthouseMetrics::new();
    record.dom_size = 9;
    record.time_to_interactive = 9;
    record.total_byte_weight = -1;
    assert_eq!(
        record.top_offenders(),
        vec![("TTI", 9), ("DOM Size", 9), ("TBT", 0), ("JS Bootup", 0), ("Byte Weight", -1)]
    );
}

#[test]
fn top_offenders_ignore_the_other_indicators() {
    let mut record = LighthouseMetrics::new();
    record.speed_index = 1_000_000;
    record.unused_css = 1_000_000;
    let offenders = record.top_offenders();
    assert_eq!(offenders.len(), 5);
    assert!(offenders.iter().all(|(_, value)| *value == 0));
}
