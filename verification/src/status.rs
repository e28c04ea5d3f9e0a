//! The lifecycle status of a task record, and its canonical text form.

use vstd::prelude::*;
use crate::text::{lower_eq, region_lower_eq, spec_trim, trim_bounds};

verus! {

/// Lifecycle status of one task record.
#[derive(Clone, Copy, PartialEq, Eq, Structural, Debug)]
pub enum TaskStatus {
    Pending,
    InProgress,
    InReview,
    Done,
    Blocked,
    Unknown,
}

impl TaskStatus {
    /// The canonical token written into a task document for this status.
    pub open spec fn spec_token(self) -> Seq<char> {
        match self {
            TaskStatus::Pending => "pending"@,
            TaskStatus::InProgress => "in-progress"@,
            TaskStatus::InReview => "in-review"@,
            TaskStatus::Done => "done"@,
            TaskStatus::Blocked => "blocked"@,
            TaskStatus::Unknown => "unknown"@,
        }
    }

    /// The status a piece of marker text denotes: the text is trimmed and
    /// compared with each canonical token, ignoring ASCII case. Anything
    /// else reads as `Unknown`.
    pub open spec fn spec_of_text(s: Seq<char>) -> TaskStatus {
        let t = spec_trim(s);
        if lower_eq(t, "pending"@) {
            TaskStatus::Pending
        } else if lower_eq(t, "in-progress"@) {
            TaskStatus::InProgress
        } else if lower_eq(t, "in-review"@) {
            TaskStatus::InReview
        } else if lower_eq(t, "done"@) {
            TaskStatus::Done
        } else if lower_eq(t, "blocked"@) {
            TaskStatus::Blocked
        } else {
            TaskStatus::Unknown
        }
    }

    /// Reads a status from marker text.
    pub fn from_str(s: &str) -> (r: TaskStatus)
        ensures
            r == TaskStatus::spec_of_text(s@),
    {
        let (lo, hi) = trim_bounds(s);
        if region_lower_eq(s, lo, hi, "pending") {
            TaskStatus::Pending
        } else if region_lower_eq(s, lo, hi, "in-progress") {
            TaskStatus::InProgress
        } else if region_lower_eq(s, lo, hi, "in-review") {
            TaskStatus::InReview
        } else if region_lower_eq(s, lo, hi, "done") {
            TaskStatus::Done
        } else if region_lower_eq(s, lo, hi, "blocked") {
            TaskStatus::Blocked
        } else {
            TaskStatus::Unknown
        }
    }

    /// The canonical token for this status.
    pub fn as_str(self) -> (r: &'static str)
        ensures
            r@ == self.spec_token(),
    {
        match self {
            TaskStatus::Pending => "pending",
            TaskStatus::InProgress => "in-progress",
            TaskStatus::InReview => "in-review",
            TaskStatus::Done => "done",
            TaskStatus::Blocked => "blocked",
            TaskStatus::Unknown => "unknown",
        }
    }
}

} // verus!
