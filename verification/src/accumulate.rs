//! Accumulation over the trials of one scenario: the records of the trials
//! that succeeded are summed, and their mean is taken at the end.
//!
//! The sums are kept wider than the values, so that no number of trials that
//! can be counted makes a sum leave its range: the mean of records is exact
//! up to the rounding of the one division.

use vstd::prelude::*;
use crate::fixed::{lemma_quotient_of_multiple, quotient};
use crate::metric::{Metric, METRIC_COUNT};
use crate::metrics::{lemma_from_fn_get, lemma_same_fields, LighthouseMetrics};

verus! {

/// What an accumulator has taken in: for each place of the table the sum of
/// the values folded in, and the number of records.
pub struct Totals {
    pub sums: Seq<int>,
    pub runs: nat,
}

impl Totals {
    /// Nothing taken in yet.
    pub open spec fn empty() -> Totals {
        Totals { sums: Seq::new(METRIC_COUNT as nat, |k: int| 0int), runs: 0 }
    }

    /// These totals with `record` taken in.
    pub open spec fn fold(self, record: LighthouseMetrics) -> Totals {
        Totals {
            sums: Seq::new(
                METRIC_COUNT as nat,
                |k: int| self.sums[k] + record.spec_get(Metric::at(k)),
            ),
            runs: self.runs + 1,
        }
    }

    /// These totals with `record` taken in `n` times.
    pub open spec fn fold_times(self, record: LighthouseMetrics, n: nat) -> Totals
        decreases n,
    {
        if n == 0 {
            self
        } else {
            self.fold_times(record, (n - 1) as nat).fold(record)
        }
    }

    /// These totals with `records` taken in, one after the other.
    pub open spec fn fold_all(self, records: Seq<LighthouseMetrics>) -> Totals
        decreases records.len(),
    {
        if records.len() == 0 {
            self
        } else {
            self.fold_all(records.drop_last()).fold(records.last())
        }
    }

    /// The mean of what was taken in: each sum divided by the number of
    /// records, rounded toward zero.
    pub open spec fn mean(self) -> LighthouseMetrics
        recommends
            self.runs >= 1,
    {
        LighthouseMetrics::from_fn(|m: Metric| quotient(self.sums[m.index()], self.runs as int))
    }

    /// Each sum lies between the least and the greatest that `runs` values
    /// can add up to.
    pub open spec fn within_range(self) -> bool {
        &&& self.sums.len() == METRIC_COUNT
        &&& forall|k: int|
            0 <= k < METRIC_COUNT ==> self.runs * i64::MIN <= #[trigger] self.sums[k] <= self.runs
                * i64::MAX
    }
}

/// The running sums of one scenario's successful trials.
pub struct Accumulator {
    sums: Vec<i128>,
    runs: u64,
}

impl View for Accumulator {
    type V = Totals;

    /// What the accumulator has taken in.
    closed spec fn view(&self) -> Totals {
        Totals { sums: self.sums@.map_values(|s: i128| s as int), runs: self.runs as nat }
    }
}

impl Accumulator {
    /// There is a sum for every indicator, and every sum is one that the
    /// number of records taken in can add up to.
    #[verifier::type_invariant]
    closed spec fn well_formed(&self) -> bool {
        self@.within_range()
    }

    /// An accumulator that has taken in nothing.
    pub fn new() -> (r: Self)
        ensures
            r@ == Totals::empty(),
    {
        let mut sums: Vec<i128> = Vec::new();
        let mut k: usize = 0;
        while k < METRIC_COUNT
            invariant
                k <= METRIC_COUNT,
                sums@.len() == k,
                forall|j: int| 0 <= j < k ==> sums@[j] == 0,
            decreases METRIC_COUNT - k,
        {
            sums.push(0);
            k += 1;
        }
        let r = Accumulator { sums, runs: 0 };
        assert(r@.sums =~= Totals::empty().sums);
        r
    }

    /// How many records were taken in.
    pub fn successful_runs(&self) -> (r: u64)
        ensures
            r == self@.runs,
    {
        self.runs
    }

    /// Takes in the record of one successful trial: adds each of its values
    /// to the sum of its indicator, and counts the trial.
    pub fn fold(&mut self, record: &LighthouseMetrics)
        requires
            old(self)@.runs < u64::MAX,
        ensures
            final(self)@ == old(self)@.fold(*record),
    {
        proof {
            use_type_invariant(&*self);
        }
        let mut sums: Vec<i128> = Vec::new();
        let mut k: usize = 0;
        while k < METRIC_COUNT
            invariant
                k <= METRIC_COUNT,
                self@.within_range(),
                self.sums@.len() == METRIC_COUNT,
                self.runs < u64::MAX,
                sums@.len() == k,
                forall|j: int|
                    0 <= j < k ==> #[trigger] sums@[j] == self.sums@[j] + record.spec_get(
                        Metric::at(j),
                    ),
            decreases METRIC_COUNT - k,
        {
            if let Some(m) = Metric::from_ordinal(k) {
                let sum: i128 = self.sums[k];
                let value: i64 = record.get(m);
                assert(self.runs * i64::MIN <= self@.sums[k as int] <= self.runs * i64::MAX);
                assert(-0x7fff_ffff_ffff_ffff_8000_0000_0000_0000 <= self.runs * i64::MIN
                    && self.runs * i64::MAX <= 0x7fff_ffff_ffff_ffff_8000_0000_0000_0000)
                    by (nonlinear_arith)
                    requires
                        0 <= self.runs < 0xffff_ffff_ffff_ffff,
                ;
                sums.push(sum + value as i128);
            }
            k += 1;
        }
        let ghost before = self@;
        let runs: u64 = self.runs + 1;
        proof {
            let after = Totals { sums: sums@.map_values(|s: i128| s as int), runs: runs as nat };
            assert(after.sums =~= before.fold(*record).sums);
            assert forall|j: int| 0 <= j < METRIC_COUNT implies after.runs * i64::MIN
                <= #[trigger] after.sums[j] <= after.runs * i64::MAX by {
                let v = record.spec_get(Metric::at(j)) as int;
                let r = before.runs as int;
                assert(r * i64::MIN <= before.sums[j] <= r * i64::MAX);
                assert((r + 1) * i64::MIN == r * i64::MIN + i64::MIN && (r + 1) * i64::MAX == r
                    * i64::MAX + i64::MAX) by (nonlinear_arith);
            }
        }
        *self = Accumulator { sums, runs };
    }

    /// The mean of the records taken in. There must be one at least: a
    /// scenario without a successful trial has no mean.
    pub fn finalize(self) -> (r: LighthouseMetrics)
        requires
            self@.runs >= 1,
        ensures
            r == self@.mean(),
    {
        proof {
            use_type_invariant(&self);
        }
        let mut out = LighthouseMetrics::new();
        let mut k: usize = 0;
        while k < METRIC_COUNT
            invariant
                k <= METRIC_COUNT,
                self@.within_range(),
                self.sums@.len() == METRIC_COUNT,
                self.runs >= 1,
                forall|m: Metric|
                    m.index() < k ==> #[trigger] out.spec_get(m) == quotient(
                        self@.sums[m.index()],
                        self@.runs as int,
                    ),
            decreases METRIC_COUNT - k,
        {
            if let Some(m) = Metric::from_ordinal(k) {
                proof {
                    Metric::lemma_at_index(k as int);
                    lemma_mean_within_range(self@.sums[k as int], self.runs as int);
                }
                let mean: i128 = self.sums[k] / (self.runs as i128);
                out.set(m, mean as i64);
            }
            k += 1;
        }
        proof {
            lemma_same_fields(out, self@.mean());
        }
        out
    }
}

/// The records of the trials that succeeded, in the order of the trials. A
/// failed trial is `None`.
pub open spec fn successes(trials: Seq<Option<LighthouseMetrics>>) -> Seq<LighthouseMetrics>
    decreases trials.len(),
{
    if trials.len() == 0 {
        Seq::empty()
    } else {
        match trials.last() {
            Some(record) => successes(trials.drop_last()).push(record),
            None => successes(trials.drop_last()),
        }
    }
}

/// What the trials of one scenario come to: nothing where none succeeded,
/// else the mean of the successful trials' records with its durations in
/// seconds.
pub open spec fn scenario_outcome(trials: Seq<Option<LighthouseMetrics>>) -> Option<
    LighthouseMetrics,
> {
    let records = successes(trials);
    if records.len() == 0 {
        None
    } else {
        Some(Totals::empty().fold_all(records).mean().in_seconds())
    }
}

/// Takes in the records of the trials that succeeded and passes over those
/// that failed. Where no trial succeeded the scenario has failed and there is
/// no record; else the record is the mean, with its durations in seconds.
pub fn average_trials(trials: &Vec<Option<LighthouseMetrics>>) -> (r: Option<LighthouseMetrics>)
    ensures
        r == scenario_outcome(trials@),
{
    let mut totals = Accumulator::new();
    let mut i: usize = 0;
    while i < trials.len()
        invariant
            i <= trials.len(),
            totals@ == Totals::empty().fold_all(successes(trials@.take(i as int))),
            totals@.runs == successes(trials@.take(i as int)).len(),
            totals@.runs <= i,
        decreases trials.len() - i,
    {
        proof {
            assert(trials@.take(i + 1).drop_last() =~= trials@.take(i as int));
            assert(trials@.take(i + 1).last() == trials@[i as int]);
        }
        match &trials[i] {
            Some(record) => {
                proof {
                    let before = successes(trials@.take(i as int));
                    assert(before.push(*record).drop_last() =~= before);
                }
                totals.fold(record);
            },
            None => {},
        }
        i += 1;
    }
    assert(trials@.take(trials@.len() as int) =~= trials@);
    if totals.successful_runs() == 0 {
        None
    } else {
        Some(totals.finalize().to_seconds())
    }
}

/// The mean of `runs` values of type `i64` is a value of type `i64`.
pub proof fn lemma_mean_within_range(sum: int, runs: int)
    requires
        runs >= 1,
        runs * i64::MIN <= sum <= runs * i64::MAX,
    ensures
        i64::MIN <= quotient(sum, runs) <= i64::MAX,
{
    if sum >= 0 {
        assert(0 <= sum / runs <= 0x7fff_ffff_ffff_ffff) by (nonlinear_arith)
            requires
                runs >= 1,
                0 <= sum <= runs * 0x7fff_ffff_ffff_ffff,
        ;
    } else {
        assert(0 <= (-sum) / runs <= 0x8000_0000_0000_0000) by (nonlinear_arith)
            requires
                runs >= 1,
                0 <= -sum <= runs * 0x8000_0000_0000_0000,
        ;
    }
}

/// After the same record was taken in `n` times, each sum is `n` times the
/// record's value.
pub proof fn lemma_fold_times(record: LighthouseMetrics, n: nat)
    ensures
        Totals::empty().fold_times(record, n).runs == n,
        Totals::empty().fold_times(record, n).sums.len() == METRIC_COUNT,
        forall|k: int|
            0 <= k < METRIC_COUNT ==> #[trigger] Totals::empty().fold_times(record, n).sums[k] == n
                * record.spec_get(Metric::at(k)),
    decreases n,
{
    let now = Totals::empty().fold_times(record, n);
    if n == 0 {
        assert(now == Totals::empty());
        assert forall|k: int| 0 <= k < METRIC_COUNT implies #[trigger] now.sums[k] == n
            * record.spec_get(Metric::at(k)) by {
            let v = record.spec_get(Metric::at(k)) as int;
            assert(n * v == 0) by (nonlinear_arith)
                requires
                    n == 0,
            ;
        }
    } else {
        lemma_fold_times(record, (n - 1) as nat);
        let before = Totals::empty().fold_times(record, (n - 1) as nat);
        assert(now == before.fold(record));
        assert forall|k: int| 0 <= k < METRIC_COUNT implies #[trigger] now.sums[k] == n
            * record.spec_get(Metric::at(k)) by {
            let v = record.spec_get(Metric::at(k)) as int;
            assert(before.sums[k] == (n - 1) * v);
            assert((n - 1) * v + v == n * v) by (nonlinear_arith);
        }
    }
}

/// The mean of one record taken in any number of times is that record.
pub proof fn lemma_mean_of_repeats(record: LighthouseMetrics, n: nat)
    requires
        n >= 1,
    ensures
        Totals::empty().fold_times(record, n).mean() == record,
{
    lemma_fold_times(record, n);
    let totals = Totals::empty().fold_times(record, n);
    let f = |m: Metric| quotient(totals.sums[m.index()], totals.runs as int);
    assert forall|m: Metric| totals.mean().spec_get(m) == record.spec_get(m) by {
        m.lemma_index_at();
        lemma_from_fn_get(f, m);
        lemma_quotient_of_multiple(record.spec_get(m) as int, n as int);
        assert(totals.sums[m.index()] == n * record.spec_get(Metric::at(m.index())));
    }
    lemma_same_fields(totals.mean(), record);
}

/// Taking in `n` copies of one record, one after the other, is taking it in
/// `n` times.
pub proof fn lemma_fold_all_of_repeats(totals: Totals, record: LighthouseMetrics, n: nat)
    ensures
        totals.fold_all(Seq::new(n, |i: int| record)) == totals.fold_times(record, n),
    decreases n,
{
    if n > 0 {
        let copies = Seq::new(n, |i: int| record);
        assert(copies.drop_last() =~= Seq::new((n - 1) as nat, |i: int| record));
        lemma_fold_all_of_repeats(totals, record, (n - 1) as nat);
    }
}

/// Where every trial succeeds, the records of the successful trials are the
/// records of the trials.
pub proof fn lemma_successes_of_repeats(record: LighthouseMetrics, n: nat)
    ensures
        successes(Seq::new(n, |i: int| Some(record))) == Seq::new(n, |i: int| record),
    decreases n,
{
    let trials = Seq::new(n, |i: int| Some(record));
    if n > 0 {
        assert(trials.drop_last() =~= Seq::new((n - 1) as nat, |i: int| Some(record)));
        lemma_successes_of_repeats(record, (n - 1) as nat);
        assert(Seq::new((n - 1) as nat, |i: int| record).push(record) =~= Seq::new(
            n,
            |i: int| record,
        ));
    } else {
        assert(successes(trials) =~= Seq::new(n, |i: int| record));
    }
}

/// Trials that all succeed with the same record come to that record, with
/// its durations in seconds, however many they are.
pub proof fn lemma_identical_trials(record: LighthouseMetrics, n: nat)
    requires
        n >= 1,
    ensures
        scenario_outcome(Seq::new(n, |i: int| Some(record))) == Some(record.in_seconds()),
{
    lemma_successes_of_repeats(record, n);
    lemma_fold_all_of_repeats(Totals::empty(), record, n);
    lemma_mean_of_repeats(record, n);
}

/// The order in which two records are taken in makes no difference.
pub proof fn lemma_fold_commutes(totals: Totals, a: LighthouseMetrics, b: LighthouseMetrics)
    ensures
        totals.fold(a).fold(b) == totals.fold(b).fold(a),
{
    assert(totals.fold(a).fold(b).sums =~= totals.fold(b).fold(a).sums);
}

/// Taking in a record last instead of in its place makes no difference.
pub proof fn lemma_fold_all_moves_last(totals: Totals, records: Seq<LighthouseMetrics>, j: int)
    requires
        0 <= j < records.len(),
    ensures
        totals.fold_all(records) == totals.fold_all(records.remove(j)).fold(records[j]),
    decreases records.len(),
{
    let earlier = records.drop_last();
    if j == records.len() - 1 {
        assert(records.remove(j) =~= earlier);
    } else {
        lemma_fold_all_moves_last(totals, earlier, j);
        let rest = earlier.remove(j);
        assert(records.remove(j) =~= rest.push(records.last()));
        assert(rest.push(records.last()).drop_last() =~= rest);
        lemma_fold_commutes(totals.fold_all(rest), records[j], records.last());
    }
}

/// The same records give the same totals in whatever order they are taken
/// in.
pub proof fn lemma_fold_all_any_order(
    totals: Totals,
    a: Seq<LighthouseMetrics>,
    b: Seq<LighthouseMetrics>,
)
    requires
        a.to_multiset() == b.to_multiset(),
    ensures
        totals.fold_all(a) == totals.fold_all(b),
    decreases a.len(),
{
    broadcast use vstd::multiset::group_multiset_axioms;

    a.to_multiset_ensures();
    b.to_multiset_ensures();
    if a.len() > 0 {
        let last = a.last();
        let earlier = a.drop_last();
        earlier.to_multiset_ensures();
        assert(a =~= earlier.push(last));
        assert(a.to_multiset() =~= earlier.to_multiset().insert(last));
        assert(b.to_multiset().count(last) > 0);
        assert(b.contains(last));
        let j = choose|j: int| 0 <= j < b.len() && b[j] == last;
        let rest = b.remove(j);
        assert(rest.to_multiset() =~= b.to_multiset().remove(last));
        assert(rest.to_multiset() =~= earlier.to_multiset());
        lemma_fold_all_any_order(totals, earlier, rest);
        lemma_fold_all_moves_last(totals, b, j);
    }
}

} // verus!
