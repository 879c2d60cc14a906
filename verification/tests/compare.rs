use performance_tracker::compare::{
    compare_to_baseline, find_baseline_score, render_summary, ScenarioMetrics, ScenarioResult,
};
use performance_tracker::metrics::LighthouseMetrics;

fn result(name: &str, score: i64) -> ScenarioResult {
    let mut metrics = LighthouseMetrics::new();
    metrics.performance_score = score;
    metrics.first_contentful_paint = 1_200_000_000;
    metrics.largest_contentful_paint = 2_345_000_000;
    metrics.time_to_interactive = 10_500_000_000;
    metrics.total_blocking_time = 150_000_000;
    ScenarioResult {
        name: name.to_string(),
        url: "https://example.com".to_string(),
        fetch_time: "2024-05-01T10:00:00+00:00".to_string(),
        metrics,
    }
}

fn names(rows: &[ScenarioMetrics]) -> Vec<&str> {
    rows.iter().map(|row| row.name.as_str()).collect()
}

#[test]
fn a_better_variant_ranks_above_the_baseline() {
    let results = vec![result("baseline", 80_000_000_000), result("variant", 92_000_000_000)];
    let rows = compare_to_baseline(&results, "baseline");
    assert_eq!(names(&rows), vec!["variant", "baseline"]);
    assert_eq!(rows[0].delta_perf, 12_000_000_000);
    assert_eq!(rows[1].delta_perf, 0);
    assert_eq!(rows[0].perf_score, 92_000_000_000);
    assert_eq!(rows[1].perf_score, 80_000_000_000);
    assert_eq!(names(&results.iter().map(|r| ScenarioMetrics {
        name: r.name.clone(), perf_score: 0, fcp: 0, lcp: 0, tti: 0, tbt: 0, delta_perf: 0,
    }).collect::<Vec<_>>()), vec!["baseline", "variant"]);
}

#[test]
fn rows_carry_the_four_durations() {
    let rows = compare_to_baseline(&vec![result("baseline", 80_000_000_000)], "baseline");
    assert_eq!(rows.len(), 1);
    assert_eq!(rows[0].fcp, 1_200_000_000);
    assert_eq!(rows[0].lcp, 2_345_000_000);
    assert_eq!(rows[0].tti, 10_500_000_000);
    assert_eq!(rows[0].tbt, 150_000_000);
}

#[test]
fn scenarios_are_ranked_from_most_improved_to_most_regressed() {
    let results = vec![
        result("baseline", 70_000_000_000),
        result("worse", 55_500_000_000),
        result("better", 90_000_000_000),
        result("same", 70_000_000_000),
        result("best", 99_000_000_000),
    ];
    let rows = compare_to_baseline(&results, "baseline");
    assert_eq!(names(&rows), vec!["best", "better", "baseline", "same", "worse"]);
    let deltas: Vec<i64> = rows.iter().map(|row| row.delta_perf).collect();
    assert_eq!(
        deltas,
        vec![29_000_000_000, 20_000_000_000, 0, 0, -14_500_000_000]
    );
}

#[test]
fn without_a_baseline_the_scores_are_compared_with_zero() {
    let results = vec![result("a", 10_000_000_000), result("b", 20_000_000_000)];
    assert_eq!(find_baseline_score(&results, "baseline"), 0);
    let rows = compare_to_baseline(&results, "baseline");
    assert_eq!(names(&rows), vec!["b", "a"]);
    assert_eq!(rows[0].delta_perf, 20_000_000_000);
    assert_eq!(rows[1].delta_perf, 10_000_000_000);
}

#[test]
fn the_last_scenario_of_the_name_is_the_baseline() {
    let results = vec![
        result("baseline", 10_000_000_000),
        result("x", 50_000_000_000),
        result("baseline", 30_000_000_000),
    ];
    assert_eq!(find_baseline_score(&results, "baseline"), 30_000_000_000);
    assert_eq!(find_baseline_score(&results, "x"), 50_000_000_000);
    assert_eq!(find_baseline_score(&Vec::new(), "x"), 0);
}

#[test]
fn differences_stop_at_the_ends_of_the_range() {
    let results = vec![result("baseline", i64::MIN), result("variant", i64::MAX)];
    let rows = compare_to_baseline(&results, "baseline");
    assert_eq!(rows[0].delta_perf, i64::MAX);
    assert_eq!(rows[1].delta_perf, 0);
}

#[test]
fn no_scenarios_give_no_rows() {
    assert!(compare_to_baseline(&Vec::new(), "baseline").is_empty());
}

#[test]
fn the_summary_is_a_table() {
    let results = vec![
        result("baseline", 80_000_000_000),
        result("no-header-footer", 92_340_000_000),
        result("no-tealium", 76_500_000_000),
    ];
    let rows = compare_to_baseline(&results, "baseline");
    assert_eq!(
        render_summary(&rows),
        "# Lighthouse Performance Summary\n\n\
         | Scenario           | Perf | \u{394}Perf | FCP   | LCP   | TTI   | TBT  |\n\
         |--------------------|------|-------|-------|-------|-------|------|\n\
         | no-header-footer   | 92.3 |  +12.3 | 1.20s | 2.35s | 10.50s | 0.15s |\n\
         | baseline           | 80.0 |   +0.0 | 1.20s | 2.35s | 10.50s | 0.15s |\n\
         | no-tealium         | 76.5 |   -3.5 | 1.20s | 2.35s | 10.50s | 0.15s |\n"
    );
}

#[test]
fn the_summary_of_no_rows_is_the_head() {
    assert_eq!(
        render_summary(&Vec::new()),
        "# Lighthouse Performance Summary\n\n\
         | Scenario           | Perf | \u{394}Perf | FCP   | LCP   | TTI   | TBT  |\n\
         |--------------------|------|-------|-------|-------|-------|------|\n"
    );
}

#[test]
fn summary_cells_match_the_formatting_of_floats() {
    let row = ScenarioMetrics {
        name: "s".to_string(),
        perf_score: 5_000_000_000,
        fcp: 0,
        lcp: 123_456_000_000,
        tti: 9_994_000_000,
        tbt: 9_996_000_000,
        delta_perf: -100_000_000_000,
    };
    let expected = format!(
        "| {:<18} | {:>4.1} | {:>+6.1} | {:>4.2}s | {:>4.2}s | {:>4.2}s | {:>4.2}s |\n",
        "s", 5.0f64, -100.0f64, 0.0f64, 123.456f64, 9.994f64, 9.996f64
    );
    let text = render_summary(&vec![row]);
    assert!(text.ends_with(&expected));
}
