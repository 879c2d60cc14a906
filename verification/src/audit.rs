//! The audit document as far as this crate reads it, the record taken from
//! it, and the arguments with which the auditing tool is started.

use vstd::prelude::*;
use crate::fixed::{saturate, saturating_product};
use crate::json::Json;
use crate::metric::{Metric, METRIC_COUNT};
use crate::metrics::{lemma_same_fields, LighthouseMetrics};
use crate::text::texts;

verus! {

/// The number that `document` holds under `section`, `id` and `leaf`, one
/// inside the other, in billionths; zero where a member is missing on the way
/// or the value found is no number.
pub open spec fn reading(
    document: Json,
    section: Seq<char>,
    id: Seq<char>,
    leaf: Seq<char>,
) -> i64 {
    match document.spec_get(section) {
        Some(holder) => match holder.spec_get(id) {
            Some(item) => match item.spec_get(leaf) {
                Some(value) => match value.spec_number() {
                    Some(number) => number,
                    None => 0,
                },
                None => 0,
            },
            None => 0,
        },
        None => 0,
    }
}

/// What a record taken from `document` holds for `m`. The performance score
/// is the score of the performance category, a fraction of one, times a
/// hundred. Any other indicator is the numeric value of its audit.
pub open spec fn extracted_value(document: Json, m: Metric) -> int {
    if m == Metric::PerformanceScore {
        saturate(reading(document, "categories"@, m.spec_audit_id(), "score"@) * 100)
    } else {
        reading(document, "audits"@, m.spec_audit_id(), "numericValue"@) as int
    }
}

/// The record taken from `document`.
pub open spec fn extracted(document: Json) -> LighthouseMetrics {
    LighthouseMetrics::from_fn(|m: Metric| extracted_value(document, m))
}

/// The number that `document` holds under `section`, `id` and `leaf`, or
/// zero.
pub fn read_number(document: &Json, section: &str, id: &str, leaf: &str) -> (r: i64)
    ensures
        r == reading(*document, section@, id@, leaf@),
{
    let holder = match document.get(section) {
        Some(holder) => holder,
        None => {
            return 0;
        },
    };
    let item = match holder.get(id) {
        Some(item) => item,
        None => {
            return 0;
        },
    };
    let value = match item.get(leaf) {
        Some(value) => value,
        None => {
            return 0;
        },
    };
    match value.number() {
        Some(number) => number,
        None => 0,
    }
}

/// Takes the record from an audit document. Every indicator is read from its
/// own place, and what is not there, or is no number, is zero: this never
/// fails.
pub fn extract_metrics(document: &Json) -> (r: LighthouseMetrics)
    ensures
        r == extracted(*document),
        forall|m: Metric| r.spec_get(m) == extracted_value(*document, m),
{
    let mut out = LighthouseMetrics::new();
    let mut i: usize = 0;
    while i < METRIC_COUNT
        invariant
            i <= METRIC_COUNT,
            forall|m: Metric|
                m.index() < i ==> #[trigger] out.spec_get(m) == extracted_value(*document, m),
        decreases METRIC_COUNT - i,
    {
        if let Some(m) = Metric::from_ordinal(i) {
            proof {
                Metric::lemma_at_index(i as int);
            }
            let value: i64 = match m {
                Metric::PerformanceScore => saturating_product(
                    read_number(document, "categories", m.audit_id(), "score"),
                    100,
                ),
                _ => read_number(document, "audits", m.audit_id(), "numericValue"),
            };
            out.set(m, value);
        }
        i += 1;
    }
    proof {
        lemma_same_fields(out, extracted(*document));
    }
    out
}

/// The options with which the auditing tool is always started.
pub open spec fn fixed_options() -> Seq<Seq<char>> {
    seq![
        "--output=json"@,
        "--output-path=stdout"@,
        "--quiet"@,
        "--window-size=1000,1000"@,
        "--preset=desktop"@,
        "--headless"@,
        "--only-categories=performance,accessibility,seo,best-practices"@,
        "--save-assets"@,
    ]
}

/// For each pattern the option that blocks it and the pattern itself.
pub open spec fn blocking_options(patterns: Seq<Seq<char>>) -> Seq<Seq<char>>
    decreases patterns.len(),
{
    if patterns.len() == 0 {
        Seq::empty()
    } else {
        blocking_options(patterns.drop_last()).push("--blocked-url-patterns"@).push(patterns.last())
    }
}

/// The arguments of the auditing tool for one trial.
pub open spec fn spec_runner_arguments(url: Seq<char>, blocked: Seq<Seq<char>>) -> Seq<Seq<char>> {
    seq![url] + fixed_options() + blocking_options(blocked)
}

/// The arguments with which the auditing tool is started for one trial: the
/// address, the fixed options, and for each blocked pattern the option that
/// blocks it.
pub fn runner_arguments(url: &str, blocked: &Vec<String>) -> (r: Vec<String>)
    ensures
        texts(r@) == spec_runner_arguments(url@, texts(blocked@)),
{
    let mut arguments: Vec<String> = Vec::new();
    arguments.push(String::from_str(url));
    arguments.push(String::from_str("--output=json"));
    arguments.push(String::from_str("--output-path=stdout"));
    arguments.push(String::from_str("--quiet"));
    arguments.push(String::from_str("--window-size=1000,1000"));
    arguments.push(String::from_str("--preset=desktop"));
    arguments.push(String::from_str("--headless"));
    arguments.push(
        String::from_str("--only-categories=performance,accessibility,seo,best-practices"),
    );
    arguments.push(String::from_str("--save-assets"));
    assert(texts(arguments@) =~= seq![url@] + fixed_options());
    let mut i: usize = 0;
    while i < blocked.len()
        invariant
            i <= blocked.len(),
            texts(arguments@) == seq![url@] + fixed_options() + blocking_options(
                texts(blocked@).take(i as int),
            ),
        decreases blocked.len() - i,
    {
        let ghost before = texts(arguments@);
        arguments.push(String::from_str("--blocked-url-patterns"));
        arguments.push(blocked[i].clone());
        proof {
            let patterns = texts(blocked@);
            assert(patterns.take(i + 1).drop_last() =~= patterns.take(i as int));
            assert(patterns.take(i + 1).last() == blocked@[i as int]@);
            assert(texts(arguments@) =~= before.push("--blocked-url-patterns"@).push(
                blocked@[i as int]@,
            ));
            assert(texts(arguments@) =~= seq![url@] + fixed_options() + blocking_options(
                patterns.take(i + 1),
            ));
        }
        i += 1;
    }
    assert(texts(blocked@).take(blocked@.len() as int) =~= texts(blocked@));
    arguments
}

} // verus!
