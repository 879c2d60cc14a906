//! Comparison of the scenarios of one run with the baseline: each scenario's
//! performance score less the baseline's, the scenarios ranked from the most
//! improved to the most regressed, and the ranking drawn up as a table.

use vstd::prelude::*;
use crate::fixed::{saturate, saturating_difference};
use crate::metrics::LighthouseMetrics;
use crate::rank::{
    descending_order, is_descending_order, lemma_descending_values, precedes,
    spec_descending_order,
};
use crate::text::{decimal_text, format_decimal, pad_end, pad_start, padded_end, padded_start};

verus! {

/// What one scenario came to: its name, the address audited, when the result
/// was taken, and the mean record of its trials with durations in seconds.
#[derive(Debug, PartialEq, Eq)]
pub struct ScenarioResult {
    pub name: String,
    pub url: String,
    pub fetch_time: String,
    pub metrics: LighthouseMetrics,
}

/// One row of the summary: a scenario's name, its performance score, four of
/// its durations in seconds, and its score less the baseline's.
#[derive(Debug, PartialEq, Eq)]
pub struct ScenarioMetrics {
    pub name: String,
    pub perf_score: i64,
    pub fcp: i64,
    pub lcp: i64,
    pub tti: i64,
    pub tbt: i64,
    pub delta_perf: i64,
}

/// The performance score of the baseline: that of the last scenario named
/// `baseline`, and zero where no scenario has that name.
pub open spec fn baseline_score(results: Seq<ScenarioResult>, baseline: Seq<char>) -> i64
    decreases results.len(),
{
    if results.len() == 0 {
        0
    } else if results.last().name@ == baseline {
        results.last().metrics.performance_score
    } else {
        baseline_score(results.drop_last(), baseline)
    }
}

/// A score less the baseline's, stopping at the ends of the range.
pub open spec fn delta(score: i64, base: i64) -> i64 {
    saturate(score - base) as i64
}

/// For each scenario its performance score less the baseline's.
pub open spec fn deltas(results: Seq<ScenarioResult>, baseline: Seq<char>) -> Seq<i64> {
    Seq::new(
        results.len(),
        |i: int| delta(results[i].metrics.performance_score, baseline_score(results, baseline)),
    )
}

/// `row` is the row of `result`, with `delta_perf` as its difference from the
/// baseline.
pub open spec fn is_row_of(row: ScenarioMetrics, result: ScenarioResult, delta_perf: i64) -> bool {
    &&& row.name@ == result.name@
    &&& row.perf_score == result.metrics.performance_score
    &&& row.fcp == result.metrics.first_contentful_paint
    &&& row.lcp == result.metrics.largest_contentful_paint
    &&& row.tti == result.metrics.time_to_interactive
    &&& row.tbt == result.metrics.total_blocking_time
    &&& row.delta_perf == delta_perf
}

/// `rows` are the rows of `results` from the greatest difference to the
/// least, scenarios with equal differences in the order of `results`.
pub open spec fn is_ranking_of(
    rows: Seq<ScenarioMetrics>,
    results: Seq<ScenarioResult>,
    baseline: Seq<char>,
) -> bool {
    let differences = deltas(results, baseline);
    let order = spec_descending_order(differences);
    &&& rows.len() == results.len()
    &&& forall|p: int|
        0 <= p < rows.len() ==> is_row_of(
            #[trigger] rows[p],
            results[order[p] as int],
            differences[order[p] as int],
        )
}

/// The performance score of the baseline among `results`.
pub fn find_baseline_score(results: &Vec<ScenarioResult>, baseline: &str) -> (r: i64)
    ensures
        r == baseline_score(results@, baseline@),
{
    let wanted = String::from_str(baseline);
    let mut base: i64 = 0;
    let mut i: usize = 0;
    while i < results.len()
        invariant
            i <= results.len(),
            wanted@ == baseline@,
            base == baseline_score(results@.take(i as int), baseline@),
        decreases results.len() - i,
    {
        proof {
            assert(results@.take(i + 1).drop_last() =~= results@.take(i as int));
        }
        if results[i].name == wanted {
            base = results[i].metrics.performance_score;
        }
        i += 1;
    }
    assert(results@.take(results@.len() as int) =~= results@);
    base
}

/// Ranks the scenarios of one run against the baseline. Each row holds its
/// scenario's score less the baseline's (zero for the baseline itself); the
/// rows go from the greatest difference to the least, and scenarios with equal
/// differences stay in the order of `results`. `results` is not changed.
pub fn compare_to_baseline(results: &Vec<ScenarioResult>, baseline: &str) -> (rows: Vec<
    ScenarioMetrics,
>)
    ensures
        is_ranking_of(rows@, results@, baseline@),
        forall|p: int, q: int|
            0 <= p < q < rows@.len() ==> rows@[p].delta_perf >= rows@[q].delta_perf,
{
    let base: i64 = find_baseline_score(results, baseline);
    let mut differences: Vec<i64> = Vec::new();
    let mut i: usize = 0;
    while i < results.len()
        invariant
            i <= results.len(),
            base == baseline_score(results@, baseline@),
            differences@.len() == i,
            forall|j: int|
                0 <= j < i ==> #[trigger] differences@[j] == delta(
                    results@[j].metrics.performance_score,
                    base,
                ),
        decreases results.len() - i,
    {
        differences.push(saturating_difference(results[i].metrics.performance_score, base));
        i += 1;
    }
    assert(differences@ =~= deltas(results@, baseline@));
    let order = descending_order(&differences);
    let mut rows: Vec<ScenarioMetrics> = Vec::new();
    let mut p: usize = 0;
    while p < order.len()
        invariant
            p <= order.len(),
            order@.len() == results@.len(),
            differences@ == deltas(results@, baseline@),
            is_descending_order(differences@, order@),
            order@ == spec_descending_order(differences@),
            rows@.len() == p,
            forall|j: int|
                0 <= j < p ==> is_row_of(
                    #[trigger] rows@[j],
                    results@[order@[j] as int],
                    differences@[order@[j] as int],
                ),
        decreases order.len() - p,
    {
        let place: usize = order[p];
        let result = &results[place];
        rows.push(
            ScenarioMetrics {
                name: result.name.clone(),
                perf_score: result.metrics.performance_score,
                fcp: result.metrics.first_contentful_paint,
                lcp: result.metrics.largest_contentful_paint,
                tti: result.metrics.time_to_interactive,
                tbt: result.metrics.total_blocking_time,
                delta_perf: differences[place],
            },
        );
        p += 1;
    }
    assert forall|a: int, b: int| 0 <= a < b < rows@.len() implies rows@[a].delta_perf
        >= rows@[b].delta_perf by {
        lemma_descending_values(differences@, order@, a, b);
    }
    rows
}

/// The head of the summary: its title and the head of the table.
pub open spec fn summary_head() -> Seq<char> {
    "# Lighthouse Performance Summary\n\n"@
        + "| Scenario           | Perf | \u{0394}Perf | FCP   | LCP   | TTI   | TBT  |\n"@
        + "|--------------------|------|-------|-------|-------|-------|------|\n"@
}

/// A duration in seconds as the table shows it: two decimals, at least four
/// characters wide, and an `s`.
pub open spec fn seconds_cell(value: i64) -> Seq<char> {
    padded_start(decimal_text(value as int, 2, false), 4) + "s"@
}

/// The table's line for `row`: the name at least 18 characters wide, the score
/// with one decimal, the difference with its sign and one decimal, and the
/// four durations.
pub open spec fn row_text(row: ScenarioMetrics) -> Seq<char> {
    "| "@ + padded_end(row.name@, 18) + " | "@ + padded_start(
        decimal_text(row.perf_score as int, 1, false),
        4,
    ) + " | "@ + padded_start(decimal_text(row.delta_perf as int, 1, true), 6) + " | "@
        + seconds_cell(row.fcp) + " | "@ + seconds_cell(row.lcp) + " | "@ + seconds_cell(row.tti)
        + " | "@ + seconds_cell(row.tbt) + " |\n"@
}

/// The lines of the first `n` rows.
pub open spec fn rows_text(rows: Seq<ScenarioMetrics>, n: nat) -> Seq<char>
    decreases n,
{
    if n == 0 {
        Seq::empty()
    } else {
        rows_text(rows, (n - 1) as nat) + row_text(rows[n - 1])
    }
}

/// The summary of a run: the head, then one line for each row.
pub open spec fn summary_text(rows: Seq<ScenarioMetrics>) -> Seq<char> {
    summary_head() + rows_text(rows, rows.len())
}

/// A duration in seconds as the table shows it.
fn seconds_cell_text(value: i64) -> (r: String)
    ensures
        r@ == seconds_cell(value),
{
    let mut cell = pad_start(format_decimal(value, 2, false).as_str(), 4);
    cell.append("s");
    cell
}

/// The table's line for `row`.
fn row_line(row: &ScenarioMetrics) -> (r: String)
    ensures
        r@ == row_text(*row),
{
    let name = pad_end(row.name.as_str(), 18);
    let score = pad_start(format_decimal(row.perf_score, 1, false).as_str(), 4);
    let difference = pad_start(format_decimal(row.delta_perf, 1, true).as_str(), 6);
    let fcp = seconds_cell_text(row.fcp);
    let lcp = seconds_cell_text(row.lcp);
    let tti = seconds_cell_text(row.tti);
    let tbt = seconds_cell_text(row.tbt);
    let mut out = String::from_str("| ");
    out.append(name.as_str());
    out.append(" | ");
    out.append(score.as_str());
    out.append(" | ");
    out.append(difference.as_str());
    out.append(" | ");
    out.append(fcp.as_str());
    out.append(" | ");
    out.append(lcp.as_str());
    out.append(" | ");
    out.append(tti.as_str());
    out.append(" | ");
    out.append(tbt.as_str());
    out.append(" |\n");
    out
}

/// Draws up the summary of a run: a title and a table with one line for each
/// row, in the order of `rows`.
pub fn render_summary(rows: &Vec<ScenarioMetrics>) -> (r: String)
    ensures
        r@ == summary_text(rows@),
{
    let mut body = String::new();
    let mut i: usize = 0;
    while i < rows.len()
        invariant
            i <= rows.len(),
            body@ == rows_text(rows@, i as nat),
        decreases rows.len() - i,
    {
        let line = row_line(&rows[i]);
        body.append(line.as_str());
        i += 1;
    }
    let mut out = String::from_str("# Lighthouse Performance Summary\n\n");
    out.append("| Scenario           | Perf | \u{0394}Perf | FCP   | LCP   | TTI   | TBT  |\n");
    out.append("|--------------------|------|-------|-------|-------|-------|------|\n");
    out.append(body.as_str());
    out
}

/// The baseline's own difference is zero. The baseline is the scenario that
/// bears the baseline's name, the last one where several do.
pub proof fn lemma_baseline_has_no_delta(results: Seq<ScenarioResult>, baseline: Seq<char>, i: int)
    requires
        0 <= i < results.len(),
        results[i].name@ == baseline,
        forall|j: int| i < j < results.len() ==> results[j].name@ != baseline,
    ensures
        baseline_score(results, baseline) == results[i].metrics.performance_score,
        deltas(results, baseline)[i] == 0,
    decreases results.len(),
{
    if i < results.len() - 1 {
        lemma_baseline_has_no_delta(results.drop_last(), baseline, i);
    }
}

/// A scenario whose difference from the baseline is greater than another's
/// stands above it in the ranking.
pub proof fn lemma_greater_delta_ranks_first(
    results: Seq<ScenarioResult>,
    baseline: Seq<char>,
    order: Seq<usize>,
    p: int,
    q: int,
)
    requires
        is_descending_order(deltas(results, baseline), order),
        0 <= p < order.len(),
        0 <= q < order.len(),
        deltas(results, baseline)[order[p] as int] > deltas(results, baseline)[order[q] as int],
    ensures
        p < q,
{
    if q < p {
        assert(precedes(deltas(results, baseline), order[q] as int, order[p] as int));
    }
}

} // verus!
