//! A commit as the remote reports it, and the test of its age.

use crate::clock::{is_within, utc_now, window_length, window_nanos, Timestamp};
use vstd::prelude::*;

verus! {

/// The latest commit on the tracked branch.
#[derive(Debug, Clone, PartialEq, Eq)]
pub struct Commit {
    /// The commit's identifier.
    pub id: String,
    /// When it was committed.
    pub committed_date: Timestamp,
}

/// A commit as contracts see it.
pub struct CommitView {
    pub id: Seq<char>,
    pub committed_date: Timestamp,
}

impl View for Commit {
    type V = CommitView;

    open spec fn view(&self) -> CommitView {
        CommitView { id: self.id@, committed_date: self.committed_date }
    }
}

impl CommitView {
    /// Whether the commit is, at `now`, less than `weeks` weeks old.
    pub open spec fn recent_at(self, now: Timestamp, weeks: int) -> bool {
        is_within(self.committed_date, now, weeks)
    }
}

impl Commit {
    /// Whether the commit is, at `now`, less than `weeks` weeks old.
    pub fn is_recent_at(&self, now: Timestamp, weeks: i64) -> (recent: bool)
        ensures
            recent == self@.recent_at(now, weeks as int),
    {
        self.committed_date.nanos_until(now) < window_length(weeks)
    }

    /// Whether the commit is less than `weeks` weeks old by the system clock.
    /// The answer is the one that `is_recent_at` gives for the instant at
    /// which the clock was read.
    pub fn is_recent(&self, weeks: i64) -> (recent: bool)
        ensures
            exists|now: Timestamp| recent == #[trigger] self@.recent_at(now, weeks as int),
    {
        let now = utc_now();
        self.is_recent_at(now, weeks)
    }
}

/// A commit is recent exactly when the time since it was made is strictly
/// shorter than the window; at an age of exactly the window, or more, it is
/// not.
pub proof fn lemma_recent_iff_younger_than_window(commit: CommitView, now: Timestamp, weeks: int)
    ensures
        commit.recent_at(now, weeks) <==> now.as_nanos() - commit.committed_date.as_nanos()
            < window_nanos(weeks),
        now.as_nanos() - commit.committed_date.as_nanos() == window_nanos(weeks)
            ==> !commit.recent_at(now, weeks),
        now.as_nanos() - commit.committed_date.as_nanos() > window_nanos(weeks)
            ==> !commit.recent_at(now, weeks),
{
}

} // verus!
