//! What the issue tracker hands to the daemon: issues, comments, and failures.
//!
//! The tracker client itself lives outside this library. It fetches, and
//! gives the library what it fetched as plain values; a failed call arrives
//! as a `TrackerError` and never stops a cycle.

use vstd::prelude::*;

verus! {

/// An issue that carries the trigger label.
#[derive(Debug)]
pub struct Issue {
    /// The issue's number.
    pub number: u64,
    /// The issue's title.
    pub title: String,
}

/// A comment observed on an issue or pull request.
#[derive(Debug)]
pub struct Comment {
    /// The issue or pull request the comment belongs to.
    pub issue_number: u64,
    /// Login of the comment's author.
    pub author: String,
    /// The comment's text.
    pub body: String,
    /// When the comment was written, in seconds.
    pub created_at: u64,
}

impl Clone for Comment {
    fn clone(&self) -> (copy: Comment)
        ensures
            copy == *self,
    {
        Comment {
            issue_number: self.issue_number,
            author: self.author.clone(),
            body: self.body.clone(),
            created_at: self.created_at,
        }
    }
}

/// A failed call to the issue tracker.
#[derive(Debug)]
pub struct TrackerError {
    /// What the tracker reported.
    pub message: String,
}

} // verus!
