use performance_tracker::json::{Json, Member};
use performance_tracker::trace::{
    longest_durations, read_task_duration, run_task_durations, to_milliseconds, top_task_durations,
};

fn object(members: Vec<(&str, Json)>) -> Json {
    Json::Object(
        members.into_iter().map(|(key, value)| Member { key: key.to_string(), value }).collect(),
    )
}

fn event(name: &str, dur: Json) -> Json {
    object(vec![
        ("name", Json::Text(name.to_string())),
        ("ph", Json::Text("X".to_string())),
        ("dur", dur),
    ])
}

fn trace(durations: &[u64]) -> Json {
    object(vec![(
        "traceEvents",
        Json::Array(durations.iter().map(|d| event("RunTask", Json::Unsigned(*d))).collect()),
    )])
}

#[test]
fn microseconds_become_milliseconds() {
    assert_eq!(to_milliseconds(0), 0);
    assert_eq!(to_milliseconds(1), 1_000_000);
    assert_eq!(to_milliseconds(1_500), 1_500_000_000);
    assert_eq!(to_milliseconds(9_223_372_036_854), 9_223_372_036_854_000_000);
    assert_eq!(to_milliseconds(9_223_372_036_855), i64::MAX);
    assert_eq!(to_milliseconds(u64::MAX), i64::MAX);
}

#[test]
fn a_task_has_the_name_and_a_whole_duration() {
    assert_eq!(read_task_duration(&event("RunTask", Json::Unsigned(2_000))), Some(2_000_000_000));
    assert_eq!(read_task_duration(&event("Paint", Json::Unsigned(2_000))), None);
    assert_eq!(read_task_duration(&event("runtask", Json::Unsigned(2_000))), None);
    assert_eq!(read_task_duration(&event("RunTask", Json::Decimal(2_000_000_000_000))), None);
    assert_eq!(read_task_duration(&event("RunTask", Json::Signed(-5))), None);
    assert_eq!(read_task_duration(&event("RunTask", Json::Null)), None);
    let without_duration = object(vec![("name", Json::Text("RunTask".to_string()))]);
    assert_eq!(read_task_duration(&without_duration), None);
    assert_eq!(read_task_duration(&object(vec![("dur", Json::Unsigned(1))])), None);
    assert_eq!(
        read_task_duration(&object(vec![("name", Json::Unsigned(1)), ("dur", Json::Unsigned(1))])),
        None
    );
    assert_eq!(read_task_duration(&Json::Null), None);
}

#[test]
fn only_tasks_with_a_duration_count() {
    let events = vec![
        event("RunTask", Json::Unsigned(2_000)),
        event("Paint", Json::Unsigned(9_000)),
        event("RunTask", Json::Null),
        Json::Unsigned(3),
        event("RunTask", Json::Unsigned(500)),
    ];
    assert_eq!(run_task_durations(&events), vec![2_000_000_000, 500_000_000]);
}

#[test]
fn the_five_longest_tasks_come_first() {
    assert_eq!(
        top_task_durations(&trace(&[300, 100, 700, 200, 600, 400, 500])),
        Some(vec![700_000_000, 600_000_000, 500_000_000, 400_000_000, 300_000_000])
    );
    assert_eq!(longest_durations(&vec![3, 1, 7, 2, 6, 4, 5, 7]), vec![7, 7, 6, 5, 4]);
}

#[test]
fn fewer_than_five_tasks_are_all_listed() {
    assert_eq!(top_task_durations(&trace(&[1, 3])), Some(vec![3_000_000, 1_000_000]));
    assert_eq!(top_task_durations(&trace(&[])), Some(Vec::new()));
    assert_eq!(longest_durations(&Vec::new()), Vec::<i64>::new());
}

#[test]
fn a_document_without_events_has_no_tasks() {
    assert_eq!(top_task_durations(&object(Vec::new())), None);
    assert_eq!(top_task_durations(&Json::Array(Vec::new())), None);
    assert_eq!(top_task_durations(&object(vec![("traceEvents", Json::Null)])), None);
    assert_eq!(top_task_durations(&object(vec![("traceEvents", object(Vec::new()))])), None);
}
