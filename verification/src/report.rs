//! What is written for people to read, and the names of the files that a
//! run leaves behind.

use vstd::prelude::*;
use crate::evaluate::report_text;
use crate::metrics::LighthouseMetrics;
use crate::text::texts;
use crate::text::{
    begins_with, contains, decimal_text, ends_with, format_decimal, occurs_in, pad_end, pad_start,
    padded_end, padded_start,
};

verus! {

/// The text report on one scenario: the address, the time of the result, and
/// the evaluation of the record.
pub open spec fn spec_text_report(
    record: LighthouseMetrics,
    url: Seq<char>,
    fetch_time: Seq<char>,
) -> Seq<char> {
    "URL: "@ + url + "\nFetch Time: "@ + fetch_time + "\n"@ + report_text(record) + "\n"@
}

/// The text report in its shorter form, which gives the address without
/// naming it.
pub open spec fn spec_brief_report(
    record: LighthouseMetrics,
    url: Seq<char>,
    fetch_time: Seq<char>,
) -> Seq<char> {
    url + "\nFetch Time: "@ + fetch_time + "\n"@ + report_text(record) + "\n"@
}

/// The name of the file that keeps the text report of the day `date`.
pub open spec fn spec_text_report_file_name(date: Seq<char>) -> Seq<char> {
    "metrics_log_"@ + date + ".txt"@
}

/// The name of the file that keeps the summary of the day `date`.
pub open spec fn spec_summary_file_name(date: Seq<char>) -> Seq<char> {
    "summary_"@ + date + ".md"@
}

/// What every snapshot's name begins with.
pub open spec fn snapshot_prefix() -> Seq<char> {
    "lighthouse_report_"@
}

/// What the name of a snapshot of the day `date` ends with.
pub open spec fn snapshot_suffix(date: Seq<char>) -> Seq<char> {
    date + ".json"@
}

/// The name of the file that keeps the audit document of the scenario `label`
/// taken on the day `date`.
pub open spec fn spec_snapshot_file_name(label: Seq<char>, date: Seq<char>) -> Seq<char> {
    snapshot_prefix() + label + "_"@ + snapshot_suffix(date)
}

/// The scenario that a file's name stands for, where the file is a snapshot
/// of the day `date`: the name begins as every snapshot's does and ends with
/// the date. The scenario is what stands between, before an underscore; a name
/// without that underscore gives the scenario `unknown`.
pub open spec fn spec_snapshot_scenario(name: Seq<char>, date: Seq<char>) -> Option<Seq<char>> {
    if snapshot_prefix().is_prefix_of(name) && snapshot_suffix(date).is_suffix_of(name) {
        let rest = name.skip(snapshot_prefix().len() as int);
        let tail = "_"@ + snapshot_suffix(date);
        if tail.is_suffix_of(rest) {
            Some(rest.take(rest.len() - tail.len()))
        } else {
            Some("unknown"@)
        }
    } else {
        None
    }
}

/// One line on a scenario for the overview of the day's snapshots: the name at
/// least 18 characters wide, the score with one decimal, and four durations in
/// seconds with two.
pub open spec fn spec_overview_line(scenario: Seq<char>, record: LighthouseMetrics) -> Seq<char> {
    padded_end(scenario, 18) + " | Perf: "@ + padded_start(
        decimal_text(record.performance_score as int, 1, false),
        5,
    ) + " | FCP: "@ + padded_start(decimal_text(record.first_contentful_paint as int, 2, false), 4)
        + "s | LCP: "@ + padded_start(
        decimal_text(record.largest_contentful_paint as int, 2, false),
        4,
    ) + "s | TTI: "@ + padded_start(decimal_text(record.time_to_interactive as int, 2, false), 4)
        + "s | TBT: "@ + padded_start(decimal_text(record.total_blocking_time as int, 2, false), 4)
        + "s"@
}

/// The text report on one scenario, whose record has its durations in
/// seconds.
pub fn text_report(record: &LighthouseMetrics, url: &str, fetch_time: &str) -> (r: String)
    ensures
        r@ == spec_text_report(*record, url@, fetch_time@),
{
    let evaluation = record.evaluate();
    let mut out = String::from_str("URL: ");
    out.append(url);
    out.append("\nFetch Time: ");
    out.append(fetch_time);
    out.append("\n");
    out.append(evaluation.report.as_str());
    out.append("\n");
    out
}

/// The text report on one scenario in its shorter form.
pub fn brief_report(record: &LighthouseMetrics, url: &str, fetch_time: &str) -> (r: String)
    ensures
        r@ == spec_brief_report(*record, url@, fetch_time@),
{
    let evaluation = record.evaluate();
    let mut out = String::from_str(url);
    out.append("\nFetch Time: ");
    out.append(fetch_time);
    out.append("\n");
    out.append(evaluation.report.as_str());
    out.append("\n");
    out
}

/// The name of the file that keeps the text report of the day `date`.
pub fn text_report_file_name(date: &str) -> (r: String)
    ensures
        r@ == spec_text_report_file_name(date@),
{
    let mut out = String::from_str("metrics_log_");
    out.append(date);
    out.append(".txt");
    out
}

/// The name of the file that keeps the summary of the day `date`.
pub fn summary_file_name(date: &str) -> (r: String)
    ensures
        r@ == spec_summary_file_name(date@),
{
    let mut out = String::from_str("summary_");
    out.append(date);
    out.append(".md");
    out
}

/// The name of the file that keeps the audit document of the scenario `label`
/// taken on the day `date`.
pub fn snapshot_file_name(label: &str, date: &str) -> (r: String)
    ensures
        r@ == spec_snapshot_file_name(label@, date@),
{
    let mut out = String::from_str("lighthouse_report_");
    out.append(label);
    out.append("_");
    out.append(date);
    out.append(".json");
    assert(out@ =~= spec_snapshot_file_name(label@, date@));
    out
}

/// Whether a file's name marks it as a snapshot of an audit document.
pub fn is_snapshot_name(name: &str) -> (r: bool)
    ensures
        r == occurs_in("lighthouse_report"@, name@),
{
    contains(name, "lighthouse_report")
}

/// Those of `names` that mark a snapshot, in their order.
pub open spec fn snapshot_names(names: Seq<Seq<char>>) -> Seq<Seq<char>>
    decreases names.len(),
{
    if names.len() == 0 {
        Seq::empty()
    } else if occurs_in("lighthouse_report"@, names.last()) {
        snapshot_names(names.drop_last()).push(names.last())
    } else {
        snapshot_names(names.drop_last())
    }
}

/// The snapshots among the files named `names`, in their order.
pub fn list_local_reports(names: &Vec<String>) -> (r: Vec<String>)
    ensures
        texts(r@) == snapshot_names(texts(names@)),
{
    let mut found: Vec<String> = Vec::new();
    let mut i: usize = 0;
    while i < names.len()
        invariant
            i <= names.len(),
            texts(found@) == snapshot_names(texts(names@).take(i as int)),
        decreases names.len() - i,
    {
        proof {
            let all = texts(names@);
            assert(all.take(i + 1).drop_last() =~= all.take(i as int));
            assert(all.take(i + 1).last() == names@[i as int]@);
        }
        if is_snapshot_name(names[i].as_str()) {
            let ghost before = texts(found@);
            found.push(names[i].clone());
            assert(texts(found@) =~= before.push(names@[i as int]@));
        }
        i += 1;
    }
    assert(texts(names@).take(names@.len() as int) =~= texts(names@));
    found
}

/// The scenario that a file's name stands for, where the file is a snapshot
/// of the day `date`; `None` for any other file.
pub fn snapshot_scenario(name: &str, date: &str) -> (r: Option<String>)
    ensures
        (match r {
            Some(scenario) => Some(scenario@),
            None => None,
        }) == spec_snapshot_scenario(name@, date@),
{
    let mut suffix = String::from_str(date);
    suffix.append(".json");
    if !begins_with(name, "lighthouse_report_") || !ends_with(name, suffix.as_str()) {
        return None;
    }
    let mut tail = String::from_str("_");
    tail.append(suffix.as_str());
    let length: usize = name.unicode_len();
    let prefix_length: usize = "lighthouse_report_".unicode_len();
    let rest = name.substring_char(prefix_length, length);
    assert(rest@ =~= name@.skip(snapshot_prefix().len() as int));
    if ends_with(rest, tail.as_str()) {
        let rest_length: usize = rest.unicode_len();
        let tail_length: usize = tail.as_str().unicode_len();
        let scenario = rest.substring_char(0, rest_length - tail_length);
        assert(scenario@ =~= rest@.take(rest@.len() - tail@.len()));
        Some(String::from_str(scenario))
    } else {
        Some(String::from_str("unknown"))
    }
}

/// One line on a scenario for the overview of the day's snapshots; the record
/// has its durations in seconds.
pub fn overview_line(scenario: &str, record: &LighthouseMetrics) -> (r: String)
    ensures
        r@ == spec_overview_line(scenario@, *record),
{
    let score = pad_start(format_decimal(record.performance_score, 1, false).as_str(), 5);
    let fcp = pad_start(format_decimal(record.first_contentful_paint, 2, false).as_str(), 4);
    let lcp = pad_start(format_decimal(record.largest_contentful_paint, 2, false).as_str(), 4);
    let tti = pad_start(format_decimal(record.time_to_interactive, 2, false).as_str(), 4);
    let tbt = pad_start(format_decimal(record.total_blocking_time, 2, false).as_str(), 4);
    let mut out = pad_end(scenario, 18);
    out.append(" | Perf: ");
    out.append(score.as_str());
    out.append(" | FCP: ");
    out.append(fcp.as_str());
    out.append("s | LCP: ");
    out.append(lcp.as_str());
    out.append("s | TTI: ");
    out.append(tti.as_str());
    out.append("s | TBT: ");
    out.append(tbt.as_str());
    out.append("s");
    out
}

/// The name that a snapshot is given tells its scenario again.
pub proof fn lemma_snapshot_name_tells_scenario(label: Seq<char>, date: Seq<char>)
    ensures
        spec_snapshot_scenario(spec_snapshot_file_name(label, date), date) == Some(label),
{
    let name = spec_snapshot_file_name(label, date);
    let prefix = snapshot_prefix();
    let suffix = snapshot_suffix(date);
    let tail = "_"@ + suffix;
    let rest = name.skip(prefix.len() as int);
    assert(name =~= prefix + (label + tail));
    assert(name.subrange(0, prefix.len() as int) =~= prefix);
    assert(rest =~= label + tail);
    assert(name.subrange(name.len() - suffix.len(), name.len() as int) =~= suffix);
    assert(rest.subrange(rest.len() - tail.len(), rest.len() as int) =~= tail);
    assert(rest.take(rest.len() - tail.len()) =~= label);
}

} // verus!
