use performance_tracker::audit::{extract_metrics, read_number, runner_arguments};
use performance_tracker::json::{Json, Member};
use performance_tracker::metric::Metric;
use performance_tracker::metrics::LighthouseMetrics;

fn object(members: Vec<(&str, Json)>) -> Json {
    Json::Object(
        members.into_iter().map(|(key, value)| Member { key: key.to_string(), value }).collect(),
    )
}

fn audit(value: Json) -> Json {
    object(vec![("id", Json::Text("x".to_string())), ("numericValue", value)])
}

fn document(score: Json, audits: Vec<(&str, Json)>) -> Json {
    object(vec![
        ("categories", object(vec![("performance", object(vec![("score", score)]))])),
        ("audits", object(audits)),
    ])
}

#[test]
fn an_empty_document_gives_zeros() {
    assert_eq!(extract_metrics(&object(Vec::new())), LighthouseMetrics::new());
    assert_eq!(extract_metrics(&Json::Null), LighthouseMetrics::new());
    assert_eq!(extract_metrics(&Json::Array(Vec::new())), LighthouseMetrics::new());
    assert_eq!(extract_metrics(&document(Json::Null, Vec::new())), LighthouseMetrics::new());
}

#[test]
fn the_score_is_scaled_to_a_hundred() {
    let record = extract_metrics(&document(Json::Decimal(850_000_000), Vec::new()));
    assert_eq!(record.performance_score, 85_000_000_000);
    let record = extract_metrics(&document(Json::Unsigned(1), Vec::new()));
    assert_eq!(record.performance_score, 100_000_000_000);
    let record = extract_metrics(&document(Json::Decimal(i64::MAX), Vec::new()));
    assert_eq!(record.performance_score, i64::MAX);
    let record = extract_metrics(&document(Json::Signed(-1), Vec::new()));
    assert_eq!(record.performance_score, -100_000_000_000);
}

#[test]
fn each_indicator_is_read_from_its_own_audit() {
    let ids = [
        "first-contentful-paint",
        "largest-contentful-paint",
        "interactive",
        "total-blocking-time",
        "cumulative-layout-shift",
        "speed-index",
        "performance",
        "first-meaningful-paint",
        "first-cpu-idle",
        "max-potential-fid",
        "estimated-input-latency",
        "server-response-time",
        "bootup-time",
        "total-byte-weight",
        "render-blocking-resources",
        "unused-javascript",
        "unused-css",
        "dom-size",
        "preconnect-to-required-origins",
        "uses-responsive-images",
        "uses-optimized-images",
        "mainthread-work-breakdown",
        "uses-rel-preload",
        "layout-shift-elements",
    ];
    let mut audits = Vec::new();
    for (i, id) in ids.iter().enumerate() {
        assert_eq!(Metric::from_ordinal(i).unwrap().audit_id(), *id);
        audits.push((*id, audit(Json::Decimal(1_000 + i as i64))));
    }
    let record = extract_metrics(&document(Json::Decimal(5), audits));
    for i in 0..24 {
        let m = Metric::from_ordinal(i).unwrap();
        if m == Metric::PerformanceScore {
            assert_eq!(record.get(m), 500);
        } else {
            assert_eq!(record.get(m), 1_000 + i as i64);
        }
    }
}

#[test]
fn an_audit_named_like_the_category_is_not_the_score() {
    let doc = document(Json::Null, vec![("performance", audit(Json::Decimal(7)))]);
    assert_eq!(extract_metrics(&doc).performance_score, 0);
}

#[test]
fn missing_and_non_numeric_values_are_zero() {
    let doc = document(
        Json::Decimal(900_000_000),
        vec![
            ("first-contentful-paint", audit(Json::Text("1200".to_string()))),
            ("largest-contentful-paint", audit(Json::Null)),
            ("interactive", object(vec![("score", Json::Unsigned(1))])),
            ("total-blocking-time", Json::Unsigned(5)),
            ("speed-index", audit(Json::Decimal(3_000_000_000_000))),
            ("not-an-indicator", audit(Json::Unsigned(1))),
            ("dom-size", audit(Json::Bool(true))),
            ("unused-css", audit(Json::Array(vec![Json::Unsigned(1)]))),
        ],
    );
    let mut expected = LighthouseMetrics::new();
    expected.performance_score = 90_000_000_000;
    expected.speed_index = 3_000_000_000_000;
    assert_eq!(extract_metrics(&doc), expected);
}

#[test]
fn whole_numbers_are_read_as_numbers() {
    let doc = document(
        Json::Null,
        vec![
            ("dom-size", audit(Json::Unsigned(1_500))),
            ("unused-css", audit(Json::Signed(-3))),
            ("total-byte-weight", audit(Json::Unsigned(u64::MAX))),
            ("unused-javascript", audit(Json::Signed(i64::MIN))),
            ("speed-index", audit(Json::Unsigned(9_223_372_036))),
            ("interactive", audit(Json::Unsigned(9_223_372_037))),
        ],
    );
    let record = extract_metrics(&doc);
    assert_eq!(record.dom_size, 1_500_000_000_000);
    assert_eq!(record.unused_css, -3_000_000_000);
    assert_eq!(record.total_byte_weight, i64::MAX);
    assert_eq!(record.unused_javascript, i64::MIN);
    assert_eq!(record.speed_index, 9_223_372_036_000_000_000);
    assert_eq!(record.time_to_interactive, i64::MAX);
}

#[test]
fn the_first_member_of_a_name_counts() {
    let doc = document(
        Json::Null,
        vec![("dom-size", audit(Json::Unsigned(1))), ("dom-size", audit(Json::Unsigned(2)))],
    );
    assert_eq!(read_number(&doc, "audits", "dom-size", "numericValue"), 1_000_000_000);
    assert_eq!(read_number(&doc, "audits", "dom-size", "id"), 0);
    assert_eq!(read_number(&doc, "audits", "speed-index", "numericValue"), 0);
    assert_eq!(read_number(&doc, "audit", "dom-size", "numericValue"), 0);
    assert_eq!(read_number(&doc, "", "", ""), 0);
}

#[test]
fn arguments_without_blocked_patterns() {
    assert_eq!(
        runner_arguments("https://example.com", &Vec::new()),
        vec![
            "https://example.com",
            "--output=json",
            "--output-path=stdout",
            "--quiet",
            "--window-size=1000,1000",
            "--preset=desktop",
            "--headless",
            "--only-categories=performance,accessibility,seo,best-practices",
            "--save-assets",
        ]
    );
}

#[test]
fn each_blocked_pattern_gets_its_option() {
    let blocked = vec!["*/header*".to_string(), "*/footer*".to_string()];
    let arguments = runner_arguments("https://example.com", &blocked);
    assert_eq!(arguments.len(), 13);
    assert_eq!(
        arguments[9..],
        ["--blocked-url-patterns", "*/header*", "--blocked-url-patterns", "*/footer*"]
    );
}
