use performance_tracker::metrics::LighthouseMetrics;
use performance_tracker::report::{
    brief_report, is_snapshot_name, list_local_reports, overview_line, snapshot_file_name,
    snapshot_scenario, summary_file_name, text_report, text_report_file_name,
};

#[test]
fn file_names_carry_the_date() {
    assert_eq!(text_report_file_name("2024-05-01"), "metrics_log_2024-05-01.txt");
    assert_eq!(summary_file_name("2024-05-01"), "summary_2024-05-01.md");
    assert_eq!(
        snapshot_file_name("no-tealium", "2024-05-01"),
        "lighthouse_report_no-tealium_2024-05-01.json"
    );
}

#[test]
fn a_snapshot_name_tells_its_scenario() {
    for label in ["baseline", "no-header-footer", "", "_", "a_b", "x.json", "\u{e9}"] {
        let name = snapshot_file_name(label, "2024-05-01");
        assert_eq!(snapshot_scenario(&name, "2024-05-01"), Some(label.to_string()));
    }
}

#[test]
fn other_files_are_no_snapshots_of_the_day() {
    let today = "2024-05-01";
    assert_eq!(snapshot_scenario("lighthouse_report_a_2024-04-30.json", today), None);
    assert_eq!(snapshot_scenario("report_a_2024-05-01.json", today), None);
    assert_eq!(snapshot_scenario("lighthouse_report_a_2024-05-01.json.bak", today), None);
    assert_eq!(snapshot_scenario("", today), None);
    assert_eq!(snapshot_scenario("summary_2024-05-01.md", today), None);
}

#[test]
fn a_snapshot_without_the_underscore_has_an_unknown_scenario() {
    assert_eq!(
        snapshot_scenario("lighthouse_report_2024-05-01.json", "2024-05-01"),
        Some("unknown".to_string())
    );
    assert_eq!(
        snapshot_scenario("lighthouse_report_a2024-05-01.json", "2024-05-01"),
        Some("unknown".to_string())
    );
}

#[test]
fn snapshots_are_known_by_their_name() {
    assert!(is_snapshot_name("lighthouse_report_baseline_2024-05-01.json"));
    assert!(is_snapshot_name("./old_lighthouse_report.txt"));
    assert!(is_snapshot_name("lighthouse_report"));
    assert!(!is_snapshot_name("lighthouse_repor"));
    assert!(!is_snapshot_name("lighthouse-report_x"));
    assert!(!is_snapshot_name(""));
}

#[test]
fn the_text_report_names_the_address_and_the_time() {
    let mut record = LighthouseMetrics::new();
    record.performance_score = 95_000_000_000;
    record.first_contentful_paint = 1_200_000_000;
    let text = text_report(&record, "https://example.com", "2024-05-01T10:00:00+00:00");
    assert_eq!(
        text,
        "URL: https://example.com\n\
         Fetch Time: 2024-05-01T10:00:00+00:00\n\
         Performance Score: 95.00 (Good)\n\
         FCP: 1.20s (Good)\n\
         LCP: 0.00s (Good)\n\
         TTI: 0.00s (Good)\n\
         TBT: 0.00s (Good)\n\
         CLS: 0.00 (Good)\n\
         SI: 0.00s (Good)\n\
         Good: 7, Needs Improvement: 0, Poor: 0\n"
    );
}

#[test]
fn the_overview_line_matches_the_formatting_of_floats() {
    let mut record = LighthouseMetrics::new();
    record.performance_score = 85_500_000_000;
    record.first_contentful_paint = 1_200_000_000;
    record.largest_contentful_paint = 2_345_000_000;
    record.time_to_interactive = 12_000_000_000;
    record.total_blocking_time = 150_000_000;
    let expected = format!(
        "{:<18} | Perf: {:>5.1} | FCP: {:>4.2}s | LCP: {:>4.2}s | TTI: {:>4.2}s | TBT: {:>4.2}s",
        "baseline", 85.5f64, 1.2f64, 2.345f64, 12.0f64, 0.15f64
    );
    assert_eq!(overview_line("baseline", &record), expected);
    assert_eq!(
        overview_line("baseline", &record),
        "baseline           | Perf:  85.5 | FCP: 1.20s | LCP: 2.35s | TTI: 12.00s | TBT: 0.15s"
    );
}

#[test]
fn the_brief_report_gives_the_address_unnamed() {
    let record = LighthouseMetrics::new();
    let text = brief_report(&record, "https://example.com", "now");
    assert!(text
        .starts_with("https://example.com\nFetch Time: now\nPerformance Score: 0.00 (Poor)\n"));
    assert!(text.ends_with("\nGood: 6, Needs Improvement: 0, Poor: 1\n"));
    assert_eq!(format!("URL: {}", text), text_report(&record, "https://example.com", "now"));
}

#[test]
fn snapshots_are_listed_in_their_order() {
    let names: Vec<String> = [
        "./summary.json",
        "./lighthouse_report_b_2024-05-01.json",
        "./notes.txt",
        "./lighthouse_report_a_2024-04-30.json",
        "./lighthouse_report",
    ]
    .iter()
    .map(|name| name.to_string())
    .collect();
    assert_eq!(
        list_local_reports(&names),
        vec![
            "./lighthouse_report_b_2024-05-01.json",
            "./lighthouse_report_a_2024-04-30.json",
            "./lighthouse_report",
        ]
    );
    assert!(list_local_reports(&Vec::new()).is_empty());
}
