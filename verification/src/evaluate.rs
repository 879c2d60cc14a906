//! Evaluation of a record whose durations are in seconds: each core indicator
//! rated against its limits, the ratings counted and reported, and the five
//! tracked offenders ranked.

use vstd::prelude::*;
use crate::metric::{Metric, UnitClass};
use crate::metrics::LighthouseMetrics;
use crate::rank::{
    descending_order, is_descending_order, lemma_descending_order_exists, lemma_descending_values,
    spec_descending_order,
};
use crate::text::{append_digits, decimal_text, digits, format_decimal};

verus! {

/// How an indicator's value is judged.
#[derive(Clone, Copy, Debug, PartialEq, Eq, Structural)]
pub enum Rating {
    Good,
    NeedsImprovement,
    Poor,
}

/// The two limits of an indicator, in billionths of its unit. Where a lower
/// value is better, a value up to `good` is good and one up to `fair` needs
/// improvement; where a higher value is better, a value from `good` up is good
/// and one from `fair` up needs improvement. Every other value is poor.
#[derive(Clone, Copy, Debug, PartialEq, Eq, Structural)]
pub struct Limits {
    pub good: i64,
    pub fair: i64,
    pub higher_is_better: bool,
}

/// How many indicators are rated.
pub const RATED_COUNT: usize = 7;

/// How many indicators are tracked as offenders.
pub const OFFENDER_COUNT: usize = 5;

/// The limits of the rated indicators; the others have none.
pub open spec fn spec_limits(m: Metric) -> Option<Limits> {
    match m {
        Metric::FirstContentfulPaint => Some(
            Limits { good: 1_800_000_000, fair: 3_000_000_000, higher_is_better: false },
        ),
        Metric::LargestContentfulPaint => Some(
            Limits { good: 2_500_000_000, fair: 4_000_000_000, higher_is_better: false },
        ),
        Metric::TimeToInteractive => Some(
            Limits { good: 3_800_000_000, fair: 7_300_000_000, higher_is_better: false },
        ),
        Metric::TotalBlockingTime => Some(
            Limits { good: 200_000_000, fair: 600_000_000, higher_is_better: false },
        ),
        Metric::CumulativeLayoutShift => Some(
            Limits { good: 100_000_000, fair: 250_000_000, higher_is_better: false },
        ),
        Metric::SpeedIndex => Some(
            Limits { good: 3_400_000_000, fair: 5_800_000_000, higher_is_better: false },
        ),
        Metric::PerformanceScore => Some(
            Limits { good: 90_000_000_000, fair: 50_000_000_000, higher_is_better: true },
        ),
        _ => None,
    }
}

/// The rating of `value` under `limits`.
pub open spec fn rate(limits: Limits, value: i64) -> Rating {
    if limits.higher_is_better {
        if value >= limits.good {
            Rating::Good
        } else if value >= limits.fair {
            Rating::NeedsImprovement
        } else {
            Rating::Poor
        }
    } else {
        if value <= limits.good {
            Rating::Good
        } else if value <= limits.fair {
            Rating::NeedsImprovement
        } else {
            Rating::Poor
        }
    }
}

/// The rating of `value` as a value of `m`, where `m` is rated.
pub open spec fn spec_classify(m: Metric, value: i64) -> Option<Rating> {
    match spec_limits(m) {
        Some(limits) => Some(rate(limits, value)),
        None => None,
    }
}

/// The rated indicators, in the order of the report.
pub open spec fn rated() -> Seq<Metric> {
    seq![
        Metric::PerformanceScore,
        Metric::FirstContentfulPaint,
        Metric::LargestContentfulPaint,
        Metric::TimeToInteractive,
        Metric::TotalBlockingTime,
        Metric::CumulativeLayoutShift,
        Metric::SpeedIndex,
    ]
}

/// The name of a rated indicator in the report.
pub open spec fn spec_label(m: Metric) -> Seq<char> {
    match m {
        Metric::PerformanceScore => "Performance Score"@,
        Metric::FirstContentfulPaint => "FCP"@,
        Metric::LargestContentfulPaint => "LCP"@,
        Metric::TimeToInteractive => "TTI"@,
        Metric::TotalBlockingTime => "TBT"@,
        Metric::CumulativeLayoutShift => "CLS"@,
        Metric::SpeedIndex => "SI"@,
        _ => m.spec_name(),
    }
}

/// The words for a rating.
pub open spec fn spec_rating_name(rating: Rating) -> Seq<char> {
    match rating {
        Rating::Good => "Good"@,
        Rating::NeedsImprovement => "Needs Improvement"@,
        Rating::Poor => "Poor"@,
    }
}

/// What follows a value of `m` in the report: an `s` after a duration.
pub open spec fn unit_suffix(m: Metric) -> Seq<char> {
    if m.spec_unit() == UnitClass::Time {
        "s"@
    } else {
        ""@
    }
}

/// The rating that heads the report's line for `m`.
pub open spec fn rating_in(record: LighthouseMetrics, m: Metric) -> Rating {
    match spec_classify(m, record.spec_get(m)) {
        Some(rating) => rating,
        None => Rating::Poor,
    }
}

/// The report's line for the rated indicator `m`: its name, its value with two
/// decimals, and its rating in brackets.
pub open spec fn report_line(record: LighthouseMetrics, m: Metric) -> Seq<char> {
    spec_label(m) + ": "@ + decimal_text(record.spec_get(m) as int, 2, false) + unit_suffix(m)
        + " ("@ + spec_rating_name(rating_in(record, m)) + ")"@
}

/// The lines for the first `n` rated indicators, each ended by a line feed.
pub open spec fn report_lines(record: LighthouseMetrics, n: nat) -> Seq<char>
    decreases n,
{
    if n == 0 {
        Seq::empty()
    } else {
        report_lines(record, (n - 1) as nat) + report_line(record, rated()[n - 1]) + "\n"@
    }
}

/// How many of the first `n` rated indicators of `record` are rated `rating`.
pub open spec fn tally(record: LighthouseMetrics, rating: Rating, n: nat) -> nat
    decreases n,
{
    if n == 0 {
        0
    } else {
        let m = rated()[n - 1];
        tally(record, rating, (n - 1) as nat) + if rating_in(record, m) == rating {
            1nat
        } else {
            0nat
        }
    }
}

/// The last line of the report: the three counts.
pub open spec fn tally_line(good: nat, fair: nat, poor: nat) -> Seq<char> {
    "Good: "@ + digits(good) + ", Needs Improvement: "@ + digits(fair) + ", Poor: "@ + digits(poor)
}

/// The report on `record`: one line for each rated indicator, then the counts.
pub open spec fn report_text(record: LighthouseMetrics) -> Seq<char> {
    report_lines(record, RATED_COUNT as nat) + tally_line(
        tally(record, Rating::Good, RATED_COUNT as nat),
        tally(record, Rating::NeedsImprovement, RATED_COUNT as nat),
        tally(record, Rating::Poor, RATED_COUNT as nat),
    )
}

/// The tracked offenders, in the order in which they are listed before
/// ranking.
pub open spec fn offenders() -> Seq<Metric> {
    seq![
        Metric::TotalBlockingTime,
        Metric::TimeToInteractive,
        Metric::JavascriptBootupTime,
        Metric::DomSize,
        Metric::TotalByteWeight,
    ]
}

/// The name under which an offender is listed.
pub open spec fn spec_offender_label(m: Metric) -> Seq<char> {
    match m {
        Metric::TotalBlockingTime => "TBT"@,
        Metric::TimeToInteractive => "TTI"@,
        Metric::JavascriptBootupTime => "JS Bootup"@,
        Metric::DomSize => "DOM Size"@,
        Metric::TotalByteWeight => "Byte Weight"@,
        _ => m.spec_name(),
    }
}

/// The values of the tracked offenders, in their listed order.
pub open spec fn offender_values(record: LighthouseMetrics) -> Seq<i64> {
    Seq::new(OFFENDER_COUNT as nat, |i: int| record.spec_get(offenders()[i]))
}

/// The tracked offenders of `record` from the greatest value to the least,
/// each with its name; equal values stay in their listed order.
pub open spec fn ranked_offenders(record: LighthouseMetrics) -> Seq<(Seq<char>, i64)> {
    let values = offender_values(record);
    let order = spec_descending_order(values);
    Seq::new(
        OFFENDER_COUNT as nat,
        |p: int| (spec_offender_label(offenders()[order[p] as int]), values[order[p] as int]),
    )
}

/// What an evaluation says of a record.
#[derive(Debug, PartialEq, Eq)]
pub struct Evaluation {
    /// The report, one line for each rated indicator and one for the counts.
    pub report: String,
    /// How many rated indicators are good.
    pub good_count: usize,
    /// How many need improvement.
    pub needs_improvement_count: usize,
    /// How many are poor.
    pub poor_count: usize,
}

/// The limits of `m`, if it is rated.
#[verifier::when_used_as_spec(spec_limits)]
pub fn limits(m: Metric) -> (r: Option<Limits>)
    ensures
        r == spec_limits(m),
{
    match m {
        Metric::FirstContentfulPaint => Some(
            Limits { good: 1_800_000_000, fair: 3_000_000_000, higher_is_better: false },
        ),
        Metric::LargestContentfulPaint => Some(
            Limits { good: 2_500_000_000, fair: 4_000_000_000, higher_is_better: false },
        ),
        Metric::TimeToInteractive => Some(
            Limits { good: 3_800_000_000, fair: 7_300_000_000, higher_is_better: false },
        ),
        Metric::TotalBlockingTime => Some(
            Limits { good: 200_000_000, fair: 600_000_000, higher_is_better: false },
        ),
        Metric::CumulativeLayoutShift => Some(
            Limits { good: 100_000_000, fair: 250_000_000, higher_is_better: false },
        ),
        Metric::SpeedIndex => Some(
            Limits { good: 3_400_000_000, fair: 5_800_000_000, higher_is_better: false },
        ),
        Metric::PerformanceScore => Some(
            Limits { good: 90_000_000_000, fair: 50_000_000_000, higher_is_better: true },
        ),
        _ => None,
    }
}

/// The rating of `value` as a value of `m`: `None` where `m` is not rated.
#[verifier::when_used_as_spec(spec_classify)]
pub fn classify(m: Metric, value: i64) -> (r: Option<Rating>)
    ensures
        r == spec_classify(m, value),
{
    match limits(m) {
        Some(limits) => {
            let (within_good, within_fair) = if limits.higher_is_better {
                (value >= limits.good, value >= limits.fair)
            } else {
                (value <= limits.good, value <= limits.fair)
            };
            if within_good {
                Some(Rating::Good)
            } else if within_fair {
                Some(Rating::NeedsImprovement)
            } else {
                Some(Rating::Poor)
            }
        },
        None => None,
    }
}

/// The words for a rating.
pub fn rating_name(rating: Rating) -> (r: &'static str)
    ensures
        r@ == spec_rating_name(rating),
{
    match rating {
        Rating::Good => "Good",
        Rating::NeedsImprovement => "Needs Improvement",
        Rating::Poor => "Poor",
    }
}

/// The name of a rated indicator in the report.
pub fn label(m: Metric) -> (r: &'static str)
    ensures
        r@ == spec_label(m),
{
    match m {
        Metric::PerformanceScore => "Performance Score",
        Metric::FirstContentfulPaint => "FCP",
        Metric::LargestContentfulPaint => "LCP",
        Metric::TimeToInteractive => "TTI",
        Metric::TotalBlockingTime => "TBT",
        Metric::CumulativeLayoutShift => "CLS",
        Metric::SpeedIndex => "SI",
        _ => m.name(),
    }
}

/// The name under which an offender is listed.
pub fn offender_label(m: Metric) -> (r: &'static str)
    ensures
        r@ == spec_offender_label(m),
{
    match m {
        Metric::TotalBlockingTime => "TBT",
        Metric::TimeToInteractive => "TTI",
        Metric::JavascriptBootupTime => "JS Bootup",
        Metric::DomSize => "DOM Size",
        Metric::TotalByteWeight => "Byte Weight",
        _ => m.name(),
    }
}

/// The rated indicator at place `i` of the report.
fn rated_at(i: usize) -> (m: Metric)
    requires
        i < RATED_COUNT,
    ensures
        m == rated()[i as int],
        spec_limits(m) is Some,
{
    match i {
        0 => Metric::PerformanceScore,
        1 => Metric::FirstContentfulPaint,
        2 => Metric::LargestContentfulPaint,
        3 => Metric::TimeToInteractive,
        4 => Metric::TotalBlockingTime,
        5 => Metric::CumulativeLayoutShift,
        _ => Metric::SpeedIndex,
    }
}

/// The tracked offender at place `i` of the list.
fn offender_at(i: usize) -> (m: Metric)
    requires
        i < OFFENDER_COUNT,
    ensures
        m == offenders()[i as int],
{
    match i {
        0 => Metric::TotalBlockingTime,
        1 => Metric::TimeToInteractive,
        2 => Metric::JavascriptBootupTime,
        3 => Metric::DomSize,
        _ => Metric::TotalByteWeight,
    }
}

/// The last line of the report.
fn tally_line_text(good: usize, fair: usize, poor: usize) -> (r: String)
    ensures
        r@ == tally_line(good as nat, fair as nat, poor as nat),
{
    let mut out = String::from_str("Good: ");
    append_digits(&mut out, good as u64);
    out.append(", Needs Improvement: ");
    append_digits(&mut out, fair as u64);
    out.append(", Poor: ");
    append_digits(&mut out, poor as u64);
    out
}

/// The report's line for `m`.
fn report_line_text(record: &LighthouseMetrics, m: Metric, rating: Rating) -> (r: String)
    requires
        rating == rating_in(*record, m),
    ensures
        r@ == report_line(*record, m),
{
    let value = format_decimal(record.get(m), 2, false);
    let suffix = match m.unit() {
        UnitClass::Time => "s",
        _ => "",
    };
    let mut out = String::from_str(label(m));
    out.append(": ");
    out.append(value.as_str());
    out.append(suffix);
    out.append(" (");
    out.append(rating_name(rating));
    out.append(")");
    out
}

impl LighthouseMetrics {
    /// Rates the core indicators of this record, whose durations are in
    /// seconds, counts the ratings and writes the report.
    pub fn evaluate(&self) -> (r: Evaluation)
        ensures
            r.report@ == report_text(*self),
            r.good_count == tally(*self, Rating::Good, RATED_COUNT as nat),
            r.needs_improvement_count == tally(*self, Rating::NeedsImprovement, RATED_COUNT as nat),
            r.poor_count == tally(*self, Rating::Poor, RATED_COUNT as nat),
            r.good_count + r.needs_improvement_count + r.poor_count == RATED_COUNT,
    {
        let mut report = String::new();
        let mut good: usize = 0;
        let mut fair: usize = 0;
        let mut poor: usize = 0;
        let mut i: usize = 0;
        while i < RATED_COUNT
            invariant
                i <= RATED_COUNT,
                report@ == report_lines(*self, i as nat),
                good == tally(*self, Rating::Good, i as nat),
                fair == tally(*self, Rating::NeedsImprovement, i as nat),
                poor == tally(*self, Rating::Poor, i as nat),
                good + fair + poor == i,
            decreases RATED_COUNT - i,
        {
            let m = rated_at(i);
            let value: i64 = self.get(m);
            let rating = match classify(m, value) {
                Some(rating) => rating,
                None => Rating::Poor,
            };
            let line = report_line_text(self, m, rating);
            report.append(line.as_str());
            report.append("\n");
            match rating {
                Rating::Good => {
                    good += 1;
                },
                Rating::NeedsImprovement => {
                    fair += 1;
                },
                Rating::Poor => {
                    poor += 1;
                },
            }
            i += 1;
        }
        let counts = tally_line_text(good, fair, poor);
        report.append(counts.as_str());
        Evaluation { report, good_count: good, needs_improvement_count: fair, poor_count: poor }
    }

    /// The five tracked offenders with their values, from the greatest value
    /// to the least; equal values stay in their listed order. All five are
    /// listed, whatever their values.
    pub fn top_offenders(&self) -> (r: Vec<(&'static str, i64)>)
        ensures
            r@.len() == OFFENDER_COUNT,
            forall|p: int|
                0 <= p < OFFENDER_COUNT ==> ((#[trigger] r@[p]).0@, r@[p].1) == ranked_offenders(
                    *self,
                )[p],
            forall|p: int, q: int| 0 <= p < q < OFFENDER_COUNT ==> r@[p].1 >= r@[q].1,
    {
        let mut values: Vec<i64> = Vec::new();
        let mut i: usize = 0;
        while i < OFFENDER_COUNT
            invariant
                i <= OFFENDER_COUNT,
                values@.len() == i,
                forall|j: int| 0 <= j < i ==> values@[j] == self.spec_get(offenders()[j]),
            decreases OFFENDER_COUNT - i,
        {
            values.push(self.get(offender_at(i)));
            i += 1;
        }
        assert(values@ =~= offender_values(*self));
        let order = descending_order(&values);
        let mut ranked: Vec<(&'static str, i64)> = Vec::new();
        let mut p: usize = 0;
        while p < OFFENDER_COUNT
            invariant
                p <= OFFENDER_COUNT,
                ranked@.len() == p,
                values@ == offender_values(*self),
                is_descending_order(values@, order@),
                order@ == spec_descending_order(values@),
                forall|j: int|
                    0 <= j < p ==> ((#[trigger] ranked@[j]).0@, ranked@[j].1) == ranked_offenders(
                        *self,
                    )[j],
                forall|j: int|
                    0 <= j < p ==> (#[trigger] ranked@[j]).1 == values@[order@[j] as int],
            decreases OFFENDER_COUNT - p,
        {
            let place: usize = order[p];
            ranked.push((offender_label(offender_at(place)), values[place]));
            p += 1;
        }
        assert forall|a: int, b: int| 0 <= a < b < OFFENDER_COUNT implies ranked@[a].1
            >= ranked@[b].1 by {
            lemma_descending_values(values@, order@, a, b);
        }
        ranked
    }
}

/// Where no two of the tracked offenders have the same value, their values
/// fall from each place of the ranking to the next.
pub proof fn lemma_distinct_offenders_fall(record: LighthouseMetrics, p: int, q: int)
    requires
        forall|i: int, j: int|
            0 <= i < j < OFFENDER_COUNT ==> offender_values(record)[i] != offender_values(
                record,
            )[j],
        0 <= p < q < OFFENDER_COUNT,
    ensures
        ranked_offenders(record).len() == OFFENDER_COUNT,
        ranked_offenders(record)[p].1 > ranked_offenders(record)[q].1,
{
    let values = offender_values(record);
    lemma_descending_order_exists(values);
    lemma_descending_values(values, spec_descending_order(values), p, q);
}

/// Every rated indicator gets one of the three ratings, so the three counts
/// add up to the number of rated indicators.
pub proof fn lemma_tallies_cover(record: LighthouseMetrics, n: nat)
    ensures
        tally(record, Rating::Good, n) + tally(record, Rating::NeedsImprovement, n) + tally(
            record,
            Rating::Poor,
            n,
        ) == n,
    decreases n,
{
    if n > 0 {
        lemma_tallies_cover(record, (n - 1) as nat);
    }
}

/// A value at a limit is within it: for an indicator where lower is better,
/// the good limit itself is rated good and anything above it is not; the fair
/// limit itself needs improvement and anything above it is poor.
pub proof fn lemma_limits_are_inclusive(limits: Limits, value: i64)
    requires
        !limits.higher_is_better,
        limits.good <= limits.fair,
    ensures
        rate(limits, value) == Rating::Good <==> value <= limits.good,
        rate(limits, value) == Rating::NeedsImprovement <==> limits.good < value <= limits.fair,
        rate(limits, value) == Rating::Poor <==> value > limits.fair,
{
}

} // verus!
