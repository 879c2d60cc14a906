//! The ledger: the results of all runs, one after the other, kept as one JSON
//! array. An entry is only ever added at the end. A ledger that cannot be read
//! as an array of JSON values counts as empty, so what it held is lost with
//! the next entry.
//!
//! Nothing here touches a file: the caller hands over the text of the ledger
//! and gets the new text back. The caller reads, changes and writes the file
//! without a lock, so there must be one writer at a time.
//!
//! This module writes the new entry in JSON and leaves the reading and
//! writing of whole documents to `serde_json`, whose results it names and does
//! not describe.

use vstd::prelude::*;
use serde_json::Value;
use crate::metric::{Metric, METRIC_COUNT};
use crate::metrics::LighthouseMetrics;
use crate::text::{decimal_text, format_decimal};

verus! {

/// `serde_json::Value`, a JSON value. Nothing is known of what one holds.
#[verifier::external_type_specification]
#[verifier::external_body]
pub struct ExValue(serde_json::Value);

/// `serde_json::Error`, the error that `serde_json` reports. Nothing is known
/// of what one holds.
#[verifier::external_type_specification]
#[verifier::external_body]
pub struct ExError(serde_json::Error);

/// What `serde_json::from_str` makes of `text` when an array of JSON values is
/// asked for: the values of the array, or nothing where it reports an error.
pub uninterp spec fn parsed_entries(text: Seq<char>) -> Option<Seq<Value>>;

/// What `serde_json::from_str` makes of `text` when one JSON value is asked
/// for: the value, or nothing where it reports an error.
pub uninterp spec fn parsed_value(text: Seq<char>) -> Option<Value>;

/// The text that `serde_json::to_string_pretty` writes for an array of
/// `entries`, or nothing where it reports an error.
pub uninterp spec fn pretty_text(entries: Seq<Value>) -> Option<Seq<char>>;

/// The JSON string that `serde_json::to_string` writes for `text`, with its
/// quotes and escapes, or nothing where it reports an error.
pub uninterp spec fn quoted_text(text: Seq<char>) -> Option<Seq<char>>;

/// Calls `serde_json::from_str` for a vector of values. The contract claims
/// only that the outcome is a function of the text: it gives the outcome its
/// name.
#[verifier::external_body]
fn parse_entries(text: &str) -> (r: Result<Vec<Value>, serde_json::Error>)
    ensures
        parsed_entries(text@) == (match r {
            Ok(entries) => Some(entries@),
            Err(_) => None,
        }),
{
    serde_json::from_str::<Vec<Value>>(text)
}

/// Calls `serde_json::from_str` for one value. The contract claims only that
/// the outcome is a function of the text: it gives the outcome its name.
#[verifier::external_body]
fn parse_value(text: &str) -> (r: Result<Value, serde_json::Error>)
    ensures
        parsed_value(text@) == (match r {
            Ok(value) => Some(value),
            Err(_) => None,
        }),
{
    serde_json::from_str::<Value>(text)
}

/// Calls `serde_json::to_string_pretty` on a vector of values. The contract
/// claims only that the outcome is a function of the values: it gives the
/// outcome its name.
#[verifier::external_body]
fn write_pretty(entries: &Vec<Value>) -> (r: Result<String, serde_json::Error>)
    ensures
        pretty_text(entries@) == (match r {
            Ok(text) => Some(text@),
            Err(_) => None,
        }),
{
    serde_json::to_string_pretty(entries)
}

/// Calls `serde_json::to_string` on a string slice. The contract claims only
/// that the outcome is a function of the text: it gives the outcome its name.
#[verifier::external_body]
fn quote(text: &str) -> (r: Result<String, serde_json::Error>)
    ensures
        quoted_text(text@) == (match r {
            Ok(quoted) => Some(quoted@),
            Err(_) => None,
        }),
{
    serde_json::to_string(text)
}

/// One result as the ledger keeps it: the scenario's name, the address
/// audited, the time of the result, and the record.
#[derive(Debug, PartialEq, Eq)]
pub struct LedgerEntry {
    pub scenario: String,
    pub url: String,
    pub fetch_time: String,
    pub metrics: LighthouseMetrics,
}

/// Why an entry could not be added.
#[derive(Clone, Copy, Debug, PartialEq, Eq, Structural)]
pub enum LedgerError {
    /// The entry could not be written as a JSON value.
    Encode,
    /// The ledger with the new entry could not be written.
    Serialize,
}

impl LedgerError {
    /// What went wrong, in words.
    pub open spec fn spec_message(self) -> Seq<char> {
        match self {
            LedgerError::Encode => "the entry could not be written as a JSON value"@,
            LedgerError::Serialize => "the ledger could not be written as JSON"@,
        }
    }

    /// What went wrong, in words.
    pub fn message(self) -> (r: &'static str)
        ensures
            r@ == self.spec_message(),
    {
        match self {
            LedgerError::Encode => "the entry could not be written as a JSON value",
            LedgerError::Serialize => "the ledger could not be written as JSON",
        }
    }
}

/// The indicator `m` of `record` as a member of a JSON object: its name in
/// quotes, a colon, and its value with nine decimals.
pub open spec fn member_json(record: LighthouseMetrics, m: Metric) -> Seq<char> {
    "\""@ + m.spec_name() + "\":"@ + decimal_text(record.spec_get(m) as int, 9, false)
}

/// The first `n` indicators of `record` as members of a JSON object, with
/// commas between them.
pub open spec fn members_json(record: LighthouseMetrics, n: nat) -> Seq<char>
    decreases n,
{
    if n == 0 {
        Seq::empty()
    } else if n == 1 {
        member_json(record, Metric::at(0))
    } else {
        members_json(record, (n - 1) as nat) + ","@ + member_json(record, Metric::at(n - 1))
    }
}

/// An entry in JSON: an object with the scenario's name, the address and the
/// time, each given as a JSON string, and the record as an object of its own.
pub open spec fn entry_json(
    scenario: Seq<char>,
    url: Seq<char>,
    fetch_time: Seq<char>,
    record: LighthouseMetrics,
) -> Seq<char> {
    "{\"scenario\":"@ + scenario + ",\"url\":"@ + url + ",\"fetch_time\":"@ + fetch_time
        + ",\"metrics\":{"@ + members_json(record, METRIC_COUNT as nat) + "}}"@
}

/// The JSON text of the entry for one result, where its three strings can be
/// written as JSON strings.
pub open spec fn entry_text(
    scenario: Seq<char>,
    url: Seq<char>,
    fetch_time: Seq<char>,
    record: LighthouseMetrics,
) -> Option<Seq<char>> {
    match (quoted_text(scenario), quoted_text(url), quoted_text(fetch_time)) {
        (Some(scenario), Some(url), Some(fetch_time)) => Some(
            entry_json(scenario, url, fetch_time, record),
        ),
        _ => None,
    }
}

/// The text that an optional string slice holds.
pub open spec fn text_of(existing: Option<&str>) -> Option<Seq<char>> {
    match existing {
        Some(text) => Some(text@),
        None => None,
    }
}

/// The entries that an optional vector holds.
pub open spec fn entries_of(prior: Option<Vec<Value>>) -> Option<Seq<Value>> {
    match prior {
        Some(entries) => Some(entries@),
        None => None,
    }
}

/// What is read of a ledger: its entries, or nothing where there is no ledger
/// (`None`) or its text is no array of JSON values.
pub open spec fn read(existing: Option<Seq<char>>) -> Option<Seq<Value>> {
    match existing {
        Some(text) => parsed_entries(text),
        None => None,
    }
}

/// The ledger `prior` with `entry` added at its end; a ledger of which nothing
/// was read (`None`) counts as empty.
pub open spec fn extended(prior: Option<Seq<Value>>, entry: Value) -> Seq<Value> {
    match prior {
        Some(entries) => entries.push(entry),
        None => seq![entry],
    }
}

/// The text of the ledger `existing` once the entry whose JSON text is
/// `entry` is added: the entries it held, then the new one, written out whole.
/// Without a text for the entry, or where that text is no JSON value, the
/// entry cannot be encoded.
pub open spec fn appended_text(existing: Option<Seq<char>>, entry: Option<Seq<char>>) -> Result<
    Seq<char>,
    LedgerError,
> {
    match entry {
        None => Err(LedgerError::Encode),
        Some(text) => match parsed_value(text) {
            None => Err(LedgerError::Encode),
            Some(value) => match pretty_text(extended(read(existing), value)) {
                Some(out) => Ok(out),
                None => Err(LedgerError::Serialize),
            },
        },
    }
}

/// The text that an outcome holds.
pub open spec fn outcome_text(outcome: Result<String, LedgerError>) -> Result<
    Seq<char>,
    LedgerError,
> {
    match outcome {
        Ok(text) => Ok(text@),
        Err(error) => Err(error),
    }
}

/// The indicator `m` of `record` as a member of a JSON object.
fn member_text(record: &LighthouseMetrics, m: Metric) -> (r: String)
    ensures
        r@ == member_json(*record, m),
{
    let value = format_decimal(record.get(m), 9, false);
    let mut out = String::from_str("\"");
    out.append(m.name());
    out.append("\":");
    out.append(value.as_str());
    out
}

/// Writes the indicators of `record` as the members of a JSON object, in the
/// order of the table.
pub fn encode_members(record: &LighthouseMetrics) -> (r: String)
    ensures
        r@ == members_json(*record, METRIC_COUNT as nat),
{
    let mut out = String::new();
    let mut i: usize = 0;
    while i < METRIC_COUNT
        invariant
            i <= METRIC_COUNT,
            out@ == members_json(*record, i as nat),
        decreases METRIC_COUNT - i,
    {
        if let Some(m) = Metric::from_ordinal(i) {
            let member = member_text(record, m);
            if i > 0 {
                out.append(",");
            }
            out.append(member.as_str());
            assert(out@ =~= members_json(*record, (i + 1) as nat));
        }
        i += 1;
    }
    out
}

/// Writes an entry in JSON from its three strings, each already a JSON string
/// with its quotes, and its record.
pub fn encode_entry(scenario: &str, url: &str, fetch_time: &str, record: &LighthouseMetrics) -> (r:
    String)
    ensures
        r@ == entry_json(scenario@, url@, fetch_time@, *record),
{
    let members = encode_members(record);
    let mut out = String::from_str("{\"scenario\":");
    out.append(scenario);
    out.append(",\"url\":");
    out.append(url);
    out.append(",\"fetch_time\":");
    out.append(fetch_time);
    out.append(",\"metrics\":{");
    out.append(members.as_str());
    out.append("}}");
    out
}

/// Adds `entry` at the end of the ledger `prior`, where `None` is a ledger of
/// which nothing was read: it counts as empty. Every entry that was there
/// stays, in its place.
pub fn extend_ledger(prior: Option<Vec<Value>>, entry: Value) -> (r: Vec<Value>)
    ensures
        r@ == extended(entries_of(prior), entry),
{
    let mut entries = match prior {
        Some(entries) => entries,
        None => Vec::new(),
    };
    entries.push(entry);
    entries
}

/// Reads the whole ledger whose text is `existing`; `None` is a ledger that
/// does not exist yet. Where there is no ledger, or its text is no array of
/// JSON values, there are no entries to keep, and no error: the result is
/// `None`.
pub fn read_entries(existing: Option<&str>) -> (r: Option<Vec<Value>>)
    ensures
        entries_of(r) == read(text_of(existing)),
{
    match existing {
        Some(text) => match parse_entries(text) {
            Ok(entries) => Some(entries),
            Err(_) => None,
        },
        None => None,
    }
}

/// Adds `entry` to the ledger whose text is `existing` (`None`: there is no
/// ledger yet) and writes the whole ledger out again: the entries that were
/// read, in their order, then the new one.
pub fn append_entry(existing: Option<&str>, entry: &LedgerEntry) -> (r: Result<String, LedgerError>)
    ensures
        outcome_text(r) == appended_text(
            text_of(existing),
            entry_text(entry.scenario@, entry.url@, entry.fetch_time@, entry.metrics),
        ),
{
    update_summary(
        existing,
        entry.scenario.as_str(),
        entry.url.as_str(),
        entry.fetch_time.as_str(),
        &entry.metrics,
    )
}

/// Brings the summary of all runs up to date with one scenario's result: the
/// text of the ledger `existing` (`None`: there is no ledger yet) with an
/// entry for the result added at its end.
pub fn update_summary(
    existing: Option<&str>,
    scenario: &str,
    url: &str,
    fetch_time: &str,
    metrics: &LighthouseMetrics,
) -> (r: Result<String, LedgerError>)
    ensures
        outcome_text(r) == appended_text(
            text_of(existing),
            entry_text(scenario@, url@, fetch_time@, *metrics),
        ),
{
    let scenario = match quote(scenario) {
        Ok(quoted) => quoted,
        Err(_) => {
            return Err(LedgerError::Encode);
        },
    };
    let url = match quote(url) {
        Ok(quoted) => quoted,
        Err(_) => {
            return Err(LedgerError::Encode);
        },
    };
    let fetch_time = match quote(fetch_time) {
        Ok(quoted) => quoted,
        Err(_) => {
            return Err(LedgerError::Encode);
        },
    };
    let text = encode_entry(scenario.as_str(), url.as_str(), fetch_time.as_str(), metrics);
    let value = match parse_value(text.as_str()) {
        Ok(value) => value,
        Err(_) => {
            return Err(LedgerError::Encode);
        },
    };
    let entries = extend_ledger(read_entries(existing), value);
    match write_pretty(&entries) {
        Ok(out) => Ok(out),
        Err(_) => Err(LedgerError::Serialize),
    }
}

/// Adds an entry for one scenario's result to the summary of all runs: the
/// same as `update_summary`.
pub fn append_to_summary_json(
    existing: Option<&str>,
    scenario: &str,
    url: &str,
    fetch_time: &str,
    metrics: &LighthouseMetrics,
) -> (r: Result<String, LedgerError>)
    ensures
        outcome_text(r) == appended_text(
            text_of(existing),
            entry_text(scenario@, url@, fetch_time@, *metrics),
        ),
{
    update_summary(existing, scenario, url, fetch_time, metrics)
}

/// A ledger that is not there and a ledger of which nothing can be read both
/// hold one entry after the first is added: what an unreadable ledger held is
/// not kept.
pub proof fn lemma_first_entry(text: Seq<char>, entry: Value)
    ensures
        extended(read(None), entry) == seq![entry],
        parsed_entries(text) is None ==> extended(read(Some(text)), entry) == seq![entry],
{
}

/// Adding an entry makes the ledger one entry longer, keeps every entry that
/// was read in its place, and puts the new entry last.
pub proof fn lemma_append_keeps_entries(prior: Seq<Value>, entry: Value)
    ensures
        extended(Some(prior), entry).len() == prior.len() + 1,
        forall|i: int| 0 <= i < prior.len() ==> extended(Some(prior), entry)[i] == prior[i],
        extended(Some(prior), entry).last() == entry,
{
}

} // verus!
