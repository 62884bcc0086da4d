//! The per-series arrival counter kept in the key/value store, the decision
//! taken inside each watched transaction, and the dispatch that follows.

use vstd::prelude::*;
use crate::decimal::{parse_u32, parsed_u32};

verus! {

/// A series progress record as read from the store.
#[derive(Debug, Clone, Copy, PartialEq, Eq, Structural)]
pub struct SeriesProgress {
    /// `fileCounter`: instances received so far.
    pub file_counter: u32,
    /// `NumberOfSeriesRelatedInstances`: instances expected in all.
    pub expected: u32,
}

/// The order of a received file within its series.
#[derive(Debug, Clone, PartialEq, Eq)]
pub enum FileStatus {
    /// The file is the last of its series.
    Last,
    /// More files of the series are yet to come.
    NotLast,
    /// Whether the file is the last cannot be known: the record is missing
    /// or corrupt.
    Exception(String),
}

/// What the transaction queues against the series key.
#[derive(Debug, Clone, PartialEq, Eq)]
pub enum StoreWrite {
    /// Delete the key: the series is complete.
    Delete,
    /// Write `fileCounter` and `lastUpdate`.
    Update { file_counter: u32, last_update: String },
    /// Queue nothing.
    Keep,
}

/// The outcome of one transaction attempt.
#[derive(Debug, Clone, PartialEq, Eq)]
pub struct Step {
    pub write: StoreWrite,
    pub status: FileStatus,
}

/// What the tracker does once the transaction is settled.
#[derive(Debug, Clone, Copy, PartialEq, Eq, Structural)]
pub enum Dispatch {
    /// Repack every file of the directory.
    RepackAll,
    /// Repack nothing: the series is still in progress.
    Nothing,
    /// Repack the one received file.
    RepackOne,
}

/// The verdict of one delivery, abstracted from messages.
#[derive(Debug, Clone, Copy, PartialEq, Eq, Structural)]
pub enum Verdict {
    /// The delivery completes its series.
    Last,
    /// The series is still in progress.
    NotLast,
    /// The record is missing or corrupt.
    Failed,
}

/// The verdict of a delivery on the record `entry` (`None`: no record).
pub open spec fn verdict_of(entry: Option<SeriesProgress>) -> Verdict {
    match entry {
        None => Verdict::Failed,
        Some(p) => if p.file_counter + 1 == p.expected {
            Verdict::Last
        } else if p.file_counter + 1 < p.expected {
            Verdict::NotLast
        } else {
            Verdict::Failed
        },
    }
}

/// The record that a delivery leaves in the store. A counter that cannot
/// grow within 32 bits is left as it is.
pub open spec fn entry_after(entry: Option<SeriesProgress>) -> Option<SeriesProgress> {
    match entry {
        None => None,
        Some(p) => if p.file_counter + 1 == p.expected {
            None
        } else if p.file_counter + 1 > u32::MAX {
            Some(p)
        } else {
            Some(SeriesProgress { file_counter: (p.file_counter + 1) as u32, expected: p.expected })
        },
    }
}

/// The record after `k` deliveries, each committed in turn.
pub open spec fn after_deliveries(entry: Option<SeriesProgress>, k: nat) -> Option<
    SeriesProgress,
>
    decreases k,
{
    if k == 0 {
        entry
    } else {
        entry_after(after_deliveries(entry, (k - 1) as nat))
    }
}

/// The record that the series query writes before reception: nothing
/// received yet out of `n`.
pub open spec fn fresh(n: u32) -> Option<SeriesProgress> {
    Some(SeriesProgress { file_counter: 0, expected: n })
}

/// The dispatch that a verdict calls for.
pub open spec fn dispatch_of_verdict(v: Verdict) -> Dispatch {
    match v {
        Verdict::Last => Dispatch::RepackAll,
        Verdict::NotLast => Dispatch::Nothing,
        Verdict::Failed => Dispatch::RepackOne,
    }
}

pub open spec fn series_prefix() -> Seq<char> {
    seq!['s', 'e', 'r', 'i', 'e', 's', ':']
}

pub open spec fn too_many_prefix() -> Seq<char> {
    "received too many files for series; key="@
}

pub open spec fn missing_prefix() -> Seq<char> {
    "no progress record for series; key="@
}

/// `status` is what a delivery on `entry` reports under the key `key`.
pub open spec fn status_matches(status: FileStatus, entry: Option<SeriesProgress>, key: Seq<char>) -> bool {
    match status {
        FileStatus::Last => verdict_of(entry) == Verdict::Last,
        FileStatus::NotLast => verdict_of(entry) == Verdict::NotLast,
        FileStatus::Exception(m) => verdict_of(entry) == Verdict::Failed && m@ == (if entry is None {
            missing_prefix() + key
        } else {
            too_many_prefix() + key
        }),
    }
}

/// `write` is what a delivery on `entry` queues, with `now` as the time.
pub open spec fn write_matches(write: StoreWrite, entry: Option<SeriesProgress>, now: Seq<char>) -> bool {
    match write {
        StoreWrite::Delete => entry is Some && entry_after(entry) is None,
        StoreWrite::Update { file_counter, last_update } => entry is Some && entry_after(entry)
            == Some(SeriesProgress { file_counter, expected: entry->0.expected })
            && entry_after(entry) != entry && last_update@ == now,
        StoreWrite::Keep => entry_after(entry) == entry,
    }
}

pub open spec fn result_of_status(s: FileStatus) -> Result<bool, String> {
    match s {
        FileStatus::Last => Ok(true),
        FileStatus::NotLast => Ok(false),
        FileStatus::Exception(e) => Err(e),
    }
}

pub open spec fn dispatch_of(outcome: Result<bool, String>) -> Dispatch {
    match outcome {
        Ok(true) => Dispatch::RepackAll,
        Ok(false) => Dispatch::Nothing,
        Err(_) => Dispatch::RepackOne,
    }
}

/// The store key of a series: `series:<SeriesInstanceUID>`.
pub fn series_key_of(uid: &str) -> (r: String)
    ensures
        r@ == series_prefix() + uid@,
{
    proof {
        reveal_strlit("series:");
    }
    let mut key = String::from_str("series:");
    assert(key@ =~= series_prefix());
    key.append(uid);
    key
}

fn message_with_key(prefix: &str, key: &String) -> (r: String)
    ensures
        r@ == prefix@ + key@,
{
    let mut m = String::from_str(prefix);
    m.append(key.as_str());
    m
}

/// The decision taken inside the watched transaction of one delivery:
/// `entry` is the record read at `key` (`None` where there is none or it
/// cannot be read), `now` the time of the delivery.
pub fn decide(entry: Option<SeriesProgress>, key: &String, now: &String) -> (r: Step)
    ensures
        status_matches(r.status, entry, key@),
        write_matches(r.write, entry, now@),
{
    match entry {
        None => {
            let m = message_with_key("no progress record for series; key=", key);
            Step { write: StoreWrite::Keep, status: FileStatus::Exception(m) }
        },
        Some(p) => {
            if p.file_counter == u32::MAX {
                let m = message_with_key("received too many files for series; key=", key);
                Step { write: StoreWrite::Keep, status: FileStatus::Exception(m) }
            } else {
                let new_count = p.file_counter + 1;
                if new_count == p.expected {
                    Step { write: StoreWrite::Delete, status: FileStatus::Last }
                } else {
                    let write = StoreWrite::Update { file_counter: new_count, last_update: now.clone() };
                    if new_count < p.expected {
                        Step { write, status: FileStatus::NotLast }
                    } else {
                        let m = message_with_key("received too many files for series; key=", key);
                        Step { write, status: FileStatus::Exception(m) }
                    }
                }
            }
        },
    }
}

pub open spec fn clock_prefix() -> Seq<char> {
    "cannot read the current time; key="@
}

/// Relies on time::OffsetDateTime::now_utc, which reads the system clock,
/// and on OffsetDateTime::format with Iso8601::DEFAULT, for the timestamp
/// of a delivery. The text depends on the moment of the call: nothing is
/// stated of it. `None` where the formatting fails.
#[verifier::external_body]
fn now_iso8601() -> (r: Option<String>) {
    time::OffsetDateTime::now_utc().format(&time::format_description::well_known::Iso8601::DEFAULT).ok()
}

/// The decision of one delivery at the current time. The clock is read
/// only where the counter is to be written: a missing record, the last
/// delivery and a counter that cannot grow get the step of `decide` at
/// once. Where a write is due and the clock gives a timestamp, the step is
/// that of `decide` at some time `now`; where it gives none, the delivery
/// fails safe and the store is left as it is.
pub fn decide_now(entry: Option<SeriesProgress>, key: &String) -> (r: Step)
    ensures
        (entry_after(entry) is None || entry_after(entry) == entry) ==> (status_matches(
            r.status,
            entry,
            key@,
        ) && write_matches(r.write, entry, Seq::<char>::empty())),
        (status_matches(r.status, entry, key@) && exists|now: Seq<char>|
            write_matches(r.write, entry, now)) || (r.write is Keep && (r.status
            matches FileStatus::Exception(m) && m@ == clock_prefix() + key@)),
{
    let needs_time = match entry {
        Some(p) => p.file_counter < u32::MAX && p.file_counter + 1 != p.expected,
        None => false,
    };
    if !needs_time {
        let none = String::new();
        let step = decide(entry, key, &none);
        assert(write_matches(step.write, entry, none@));
        return step;
    }
    match now_iso8601() {
        Some(now) => {
            let step = decide(entry, key, &now);
            assert(write_matches(step.write, entry, now@));
            step
        },
        None => {
            let m = message_with_key("cannot read the current time; key=", key);
            Step { write: StoreWrite::Keep, status: FileStatus::Exception(m) }
        },
    }
}

/// The progress record from the text of its two counter fields; `None`
/// where a field is absent or not the text of a 32-bit unsigned integer.
pub fn parse_progress(file_counter: Option<&str>, expected: Option<&str>) -> (r: Option<SeriesProgress>)
    ensures
        r == (match (file_counter, expected) {
            (Some(f), Some(e)) => match (parsed_u32(f@), parsed_u32(e@)) {
                (Some(fc), Some(ex)) => Some(SeriesProgress { file_counter: fc, expected: ex }),
                _ => None,
            },
            _ => None,
        }),
{
    match (file_counter, expected) {
        (Some(f), Some(e)) => match (parse_u32(f), parse_u32(e)) {
            (Some(fc), Some(ex)) => Some(SeriesProgress { file_counter: fc, expected: ex }),
            _ => None,
        },
        _ => None,
    }
}

impl FileStatus {
    /// `Ok(true)` for the last file, `Ok(false)` for another, and the
    /// message as an error where the order cannot be known.
    pub fn into_result(self) -> (r: Result<bool, String>)
        ensures
            r == result_of_status(self),
    {
        match self {
            FileStatus::Last => Ok(true),
            FileStatus::NotLast => Ok(false),
            FileStatus::Exception(e) => Err(e),
        }
    }
}

/// What follows a delivery whose tracking ended in `outcome`: the whole
/// directory for the last file, nothing for another, and the one file
/// whenever tracking failed, for whatever reason.
pub fn dispatch_for(outcome: &Result<bool, String>) -> (r: Dispatch)
    ensures
        r == dispatch_of(*outcome),
{
    match outcome {
        Ok(true) => Dispatch::RepackAll,
        Ok(false) => Dispatch::Nothing,
        Err(_) => Dispatch::RepackOne,
    }
}

/// The store URL setting as found in the environment.
#[derive(Debug, Clone, PartialEq, Eq)]
pub enum UrlSetting {
    /// Not set.
    Unset,
    /// Set to valid text.
    Text(String),
    /// Set, but not valid text.
    NotText,
}

/// Why no store URL can be had.
#[derive(Debug, Clone, Copy, PartialEq, Eq, Structural)]
pub enum UrlError {
    /// The setting is present but not valid text.
    NotUnicode,
}

pub open spec fn default_redis_url() -> Seq<char> {
    "redis://127.0.0.1/"@
}

/// The store URL: the setting where it is text, the local default where it
/// is unset, and an error where it is not text.
pub fn get_redis_url(setting: UrlSetting) -> (r: Result<String, UrlError>)
    ensures
        setting is Unset ==> (r matches Ok(u) && u@ == default_redis_url()),
        setting matches UrlSetting::Text(t) ==> r == Ok::<String, UrlError>(t),
        setting is NotText ==> r == Err::<String, UrlError>(UrlError::NotUnicode),
{
    match setting {
        UrlSetting::Unset => {
            proof {
                reveal_strlit("redis://127.0.0.1/");
            }
            Ok(String::from_str("redis://127.0.0.1/"))
        },
        UrlSetting::Text(t) => Ok(t),
        UrlSetting::NotText => Err(UrlError::NotUnicode),
    }
}

proof fn lemma_counts_up(n: u32, k: nat)
    requires
        k < n,
    ensures
        after_deliveries(fresh(n), k) == Some(SeriesProgress { file_counter: k as u32, expected: n }),
    decreases k,
{
    if k > 0 {
        lemma_counts_up(n, (k - 1) as nat);
    }
}

/// Of the `n` deliveries of a series that expects `n` instances, committed
/// one after another, exactly one, the last, has the verdict `Last`; none
/// fails; and after the last the key is gone.
pub proof fn law_one_last_per_series(n: u32)
    requires
        n >= 1,
    ensures
        forall|k: nat|
            k < n ==> (verdict_of(#[trigger] after_deliveries(fresh(n), k)) == Verdict::Last <==> k
                == n - 1),
        forall|k: nat| k < n ==> verdict_of(#[trigger] after_deliveries(fresh(n), k)) != Verdict::Failed,
        after_deliveries(fresh(n), n as nat) is None,
{
    assert forall|k: nat| k < n implies {
        &&& (verdict_of(#[trigger] after_deliveries(fresh(n), k)) == Verdict::Last <==> k == n - 1)
        &&& verdict_of(after_deliveries(fresh(n), k)) != Verdict::Failed
    } by {
        lemma_counts_up(n, k);
    }
    lemma_counts_up(n, (n - 1) as nat);
}

/// Each committed delivery before the last raises `fileCounter` by exactly
/// one: after `k` of them it reads `k`, no value skipped or repeated.
pub proof fn law_counter_steps_by_one(n: u32, k: nat)
    requires
        k + 1 < n,
    ensures
        after_deliveries(fresh(n), k) matches Some(p) && p.file_counter == k,
        after_deliveries(fresh(n), k + 1) matches Some(q) && q.file_counter == k + 1,
        after_deliveries(fresh(n), k + 1)->0.file_counter == after_deliveries(fresh(n), k)->0.file_counter + 1,
{
    lemma_counts_up(n, k);
    lemma_counts_up(n, k + 1);
}

/// Once the last delivery has deleted the key it stays absent, and every
/// further delivery on the series fails over to repacking its one file.
pub proof fn law_absent_after_last(n: u32, j: nat)
    requires
        n >= 1,
        j >= n,
    ensures
        after_deliveries(fresh(n), j) is None,
        verdict_of(after_deliveries(fresh(n), j)) == Verdict::Failed,
        dispatch_of_verdict(verdict_of(after_deliveries(fresh(n), j))) == Dispatch::RepackOne,
    decreases j,
{
    if j == n {
        law_one_last_per_series(n);
    } else {
        law_absent_after_last(n, (j - 1) as nat);
    }
}

/// The dispatch that follows a delivery is the one its verdict calls for:
/// a failed delivery, whatever the cause, repacks its one file.
pub proof fn law_dispatch_follows_verdict(status: FileStatus, entry: Option<SeriesProgress>, key: Seq<char>)
    requires
        status_matches(status, entry, key),
    ensures
        dispatch_of(result_of_status(status)) == dispatch_of_verdict(verdict_of(entry)),
{
}

} // verus!
