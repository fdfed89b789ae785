//! Records of finished downloads.

use vstd::prelude::*;

verus! {

/// One finished download as listed in the history view.
pub struct HistoryEntry {
    pub id: i64,
    pub filename: Option<String>,
    pub filepath: Option<String>,
    pub platform: Option<String>,
    pub template_name: Option<String>,
    pub url: String,
    pub started_at: Option<String>,
    pub finished_at: Option<String>,
    pub duration_ms: Option<i64>,
    pub size_bytes: Option<i64>,
    pub status: String,
    /// The shell-quoted invocation; absent on rows from before it was kept.
    pub command: Option<String>,
}

/// What the job runner hands over when a download reaches a terminal state.
pub struct NewEntry {
    pub filename: Option<String>,
    pub filepath: Option<String>,
    pub platform: Option<String>,
    pub template_name: Option<String>,
    pub url: String,
    pub started_at: String,
    pub finished_at: String,
    pub duration_ms: i64,
    pub size_bytes: Option<i64>,
    pub status: String,
    pub command: Option<String>,
}

/// The default page of the history list.
pub const DEFAULT_HISTORY_LIMIT: i64 = 500;

/// The page of history to list: 500 rows from the newest unless asked otherwise.
pub fn history_page(limit: Option<i64>, offset: Option<i64>) -> (r: (i64, i64))
    ensures
        r.0 == match limit {
            Some(l) => l,
            None => 500i64,
        },
        r.1 == match offset {
            Some(o) => o,
            None => 0i64,
        },
{
    (
        match limit {
            Some(l) => l,
            None => DEFAULT_HISTORY_LIMIT,
        },
        match offset {
            Some(o) => o,
            None => 0,
        },
    )
}

} // verus!
