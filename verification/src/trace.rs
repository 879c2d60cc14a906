//! The longest tasks of a browser trace.

use vstd::prelude::*;
use crate::fixed::saturate;
use crate::json::Json;
use crate::rank::{descending_order, is_descending_order, spec_descending_order};
use crate::text::same_text;

verus! {

/// How many durations are listed at most.
pub const LONGEST_COUNT: usize = 5;

/// A duration of `dur` microseconds in billionths of a millisecond.
pub open spec fn milliseconds(dur: u64) -> i64 {
    saturate(dur * 1_000_000) as i64
}

/// The duration of `event` in billionths of a millisecond, where the event is
/// a task that the main thread ran: its name is `RunTask`, and its duration
/// is a whole number of microseconds.
pub open spec fn task_duration(event: Json) -> Option<i64> {
    match event.spec_get("name"@) {
        Some(name) => if name.spec_text() == Some("RunTask"@) {
            match event.spec_get("dur"@) {
                Some(dur) => match dur.spec_unsigned() {
                    Some(microseconds) => Some(milliseconds(microseconds)),
                    None => None,
                },
                None => None,
            }
        } else {
            None
        },
        None => None,
    }
}

/// The durations of the tasks among `events`, in the order of the events.
pub open spec fn task_durations(events: Seq<Json>) -> Seq<i64>
    decreases events.len(),
{
    if events.len() == 0 {
        Seq::empty()
    } else {
        let before = task_durations(events.drop_last());
        match task_duration(events.last()) {
            Some(duration) => before.push(duration),
            None => before,
        }
    }
}

/// The events of a trace document: the items of its member `traceEvents`,
/// where that is an array.
pub open spec fn trace_events(document: Json) -> Option<Seq<Json>> {
    match document.spec_get("traceEvents"@) {
        Some(list) => list.spec_items(),
        None => None,
    }
}

/// The longest tasks of a trace document, where it has events.
pub open spec fn longest_tasks(document: Json) -> Option<Seq<i64>> {
    match trace_events(document) {
        Some(events) => Some(longest(task_durations(events))),
        None => None,
    }
}

/// The first `LONGEST_COUNT` of `durations` from the longest down; all of
/// them where there are fewer.
pub open spec fn longest(durations: Seq<i64>) -> Seq<i64> {
    let order = spec_descending_order(durations);
    Seq::new(
        if durations.len() < LONGEST_COUNT {
            durations.len()
        } else {
            LONGEST_COUNT as nat
        },
        |p: int| durations[order[p] as int],
    )
}

/// A duration of `dur` microseconds in billionths of a millisecond.
#[verifier::when_used_as_spec(milliseconds)]
pub fn to_milliseconds(dur: u64) -> (r: i64)
    ensures
        r == milliseconds(dur),
{
    if dur > 9_223_372_036_854 {
        i64::MAX
    } else {
        (dur * 1_000_000) as i64
    }
}

/// The duration of `event`, where it is a task that the main thread ran.
pub fn read_task_duration(event: &Json) -> (r: Option<i64>)
    ensures
        r == task_duration(*event),
{
    let name = match event.get("name") {
        Some(name) => name,
        None => {
            return None;
        },
    };
    let is_task = match name.text() {
        Some(text) => same_text(text, "RunTask"),
        None => false,
    };
    if !is_task {
        return None;
    }
    match event.get("dur") {
        Some(dur) => match dur.unsigned() {
            Some(microseconds) => Some(to_milliseconds(microseconds)),
            None => None,
        },
        None => None,
    }
}

/// The durations of the tasks among `events`, in the order of the events.
pub fn run_task_durations(events: &Vec<Json>) -> (r: Vec<i64>)
    ensures
        r@ == task_durations(events@),
{
    let mut durations: Vec<i64> = Vec::new();
    let mut i: usize = 0;
    while i < events.len()
        invariant
            i <= events.len(),
            durations@ == task_durations(events@.take(i as int)),
        decreases events.len() - i,
    {
        proof {
            assert(events@.take(i + 1).drop_last() =~= events@.take(i as int));
        }
        match read_task_duration(&events[i]) {
            Some(duration) => {
                durations.push(duration);
            },
            None => {},
        }
        i += 1;
    }
    assert(events@.take(events@.len() as int) =~= events@);
    durations
}

/// The five longest of `durations`, from the longest down; all of them where
/// there are fewer.
pub fn longest_durations(durations: &Vec<i64>) -> (r: Vec<i64>)
    ensures
        r@ == longest(durations@),
{
    let order = descending_order(durations);
    let count: usize = if durations.len() < LONGEST_COUNT {
        durations.len()
    } else {
        LONGEST_COUNT
    };
    let mut top: Vec<i64> = Vec::new();
    let mut p: usize = 0;
    while p < count
        invariant
            p <= count <= durations@.len(),
            is_descending_order(durations@, order@),
            top@.len() == p,
            forall|j: int| 0 <= j < p ==> #[trigger] top@[j] == durations@[order@[j] as int],
        decreases count - p,
    {
        top.push(durations[order[p]]);
        p += 1;
    }
    assert(top@ =~= longest(durations@));
    top
}

/// The five longest tasks that the main thread ran according to a trace
/// document, from the longest down, in billionths of a millisecond; nothing
/// for a document without events.
pub fn top_task_durations(document: &Json) -> (r: Option<Vec<i64>>)
    ensures
        (match r {
            Some(durations) => Some(durations@),
            None => None,
        }) == longest_tasks(*document),
{
    let list = match document.get("traceEvents") {
        Some(list) => list,
        None => {
            return None;
        },
    };
    match list.items() {
        Some(events) => {
            let durations = run_task_durations(events);
            Some(longest_durations(&durations))
        },
        None => None,
    }
}

} // verus!
