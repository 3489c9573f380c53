//! The rows of the table: one record per commit that was built and measured.

use crate::commit::{Commit, CommitView};
use crate::text::{decimal, decimal_spec};
use vstd::prelude::*;

verus! {

/// The RFC 3339 text, in UTC, of the instant `seconds` after 1970-01-01T00:00:00Z
/// as `chrono` writes it, or `None` where `chrono` has no date for it.
pub uninterp spec fn rfc3339_utc(seconds: i64) -> Option<Seq<char>>;

/// Builds the instant with `chrono::DateTime::from_timestamp` (no fraction of
/// a second) and writes it with `DateTime::to_rfc3339`. Trusted: the text is
/// decided by `seconds` alone, which is what `rfc3339_utc` names; `None` comes
/// back exactly where `from_timestamp` gives none.
#[verifier::external_body]
fn render_utc(seconds: i64) -> (r: Option<String>)
    ensures
        rfc3339_utc(seconds) == (match r {
            Some(text) => Some(text@),
            None => None,
        }),
{
    match chrono::DateTime::from_timestamp(seconds, 0) {
        Some(instant) => Some(instant.to_rfc3339()),
        None => None,
    }
}

/// The timestamp of a commit made at `seconds`. A time before the epoch has
/// none, nor one beyond the dates that can be written.
pub open spec fn timestamp_spec(seconds: i64) -> Option<Seq<char>> {
    if seconds < 0 {
        None
    } else {
        rfc3339_utc(seconds)
    }
}

/// Turns what `chrono` wrote for `seconds` into the timestamp of a record.
pub fn timestamp_from(seconds: i64, rendered: Option<String>) -> (r: Option<String>)
    ensures
        seconds < 0 ==> r is None,
        seconds >= 0 ==> r == rendered,
{
    if seconds < 0 {
        None
    } else {
        rendered
    }
}

/// Writes the time of a commit as a timestamp.
pub fn timestamp(seconds: i64) -> (r: Option<String>)
    ensures
        match timestamp_spec(seconds) {
            Some(text) => r matches Some(written) && written@ == text,
            None => r is None,
        },
{
    timestamp_from(seconds, render_utc(seconds))
}

/// One row of the table.
#[derive(Debug, PartialEq, Eq)]
pub struct Record {
    /// The commit time in seconds since the epoch.
    pub seconds: i64,
    /// The same time as text.
    pub timestamp: String,
    /// The full identifier of the commit.
    pub commit: String,
    /// The number of pages of the document at that commit.
    pub pages: u32,
}

/// A record as plain values.
pub struct RecordView {
    pub seconds: i64,
    pub timestamp: Seq<char>,
    pub commit: Seq<char>,
    pub pages: u32,
}

impl View for Record {
    type V = RecordView;

    open spec fn view(&self) -> RecordView {
        RecordView {
            seconds: self.seconds,
            timestamp: self.timestamp@,
            commit: self.commit@,
            pages: self.pages,
        }
    }
}

/// The record of `commit` with `pages` pages, where its time has a timestamp.
pub open spec fn record_spec(commit: CommitView, pages: u32) -> Option<RecordView> {
    match timestamp_spec(commit.seconds) {
        Some(text) => Some(
            RecordView { seconds: commit.seconds, timestamp: text, commit: commit.id, pages },
        ),
        None => None,
    }
}

/// The first line of the table.
pub open spec fn header_spec() -> Seq<char> {
    "Timestamp,Commit Hash,Page Count\n"@
}

/// The line of a record: timestamp, identifier and page count, separated by
/// commas and closed by a line feed.
pub open spec fn row_spec(record: RecordView) -> Seq<char> {
    record.timestamp + ","@ + record.commit + ","@ + decimal_spec(record.pages as nat) + "\n"@
}

/// The first line of the table, line feed included.
pub fn header() -> (r: String)
    ensures
        r@ == header_spec(),
{
    String::from_str("Timestamp,Commit Hash,Page Count\n")
}

impl Record {
    /// The record of a commit whose document has `pages` pages.
    pub fn of(commit: &Commit, pages: u32) -> (r: Option<Record>)
        ensures
            match record_spec(commit@, pages) {
                Some(record) => r matches Some(made) && made@ == record,
                None => r is None,
            },
    {
        match timestamp(commit.seconds()) {
            Some(text) => Some(
                Record {
                    seconds: commit.seconds(),
                    timestamp: text,
                    commit: String::from_str(commit.id()),
                    pages,
                },
            ),
            None => None,
        }
    }

    /// The line of this record, line feed included.
    pub fn row(&self) -> (r: String)
        ensures
            r@ == row_spec(self@),
    {
        let mut line = self.timestamp.clone();
        line.append(",");
        line.append(self.commit.as_str());
        line.append(",");
        let count = decimal(self.pages as u64);
        line.append(count.as_str());
        line.append("\n");
        line
    }
}

impl Clone for Record {
    fn clone(&self) -> (r: Record)
        ensures
            r@ == self@,
    {
        Record {
            seconds: self.seconds,
            timestamp: self.timestamp.clone(),
            commit: self.commit.clone(),
            pages: self.pages,
        }
    }
}

} // verus!
