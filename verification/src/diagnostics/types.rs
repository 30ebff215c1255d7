//! Diagnostic results.

use vstd::prelude::*;

use crate::text::{opt_chars, owned};

verus! {

/// Outcome of one diagnostic step.
#[derive(Debug, Clone, Copy, PartialEq, Eq, Structural)]
pub enum CheckStatus {
    /// Already healthy; nothing done.
    Healthy,
    /// A problem was found and fixed.
    Repaired,
    /// A real problem only the user can fix (BIOS dump, antivirus exception).
    NeedsUser,
    /// A fix was tried and failed.
    Failed,
    /// Skipped because a prerequisite is missing.
    Skipped,
}

/// One row of the diagnostics report.
#[derive(Debug, Clone)]
pub struct CheckResult {
    /// Short id such as `mesh` or `sunshine`.
    pub id: String,
    /// Title shown in the row.
    pub title: String,
    pub status: CheckStatus,
    /// What was found or what to do.
    pub message: String,
    /// A path worth showing verbatim.
    pub action_path: Option<String>,
    /// A "learn more" link.
    pub action_url: Option<String>,
}

/// The row has exactly these fields and no action path or URL.
pub open spec fn plain_row(r: CheckResult, id: Seq<char>, title: Seq<char>, status: CheckStatus, message: Seq<char>) -> bool {
    &&& r.id@ == id
    &&& r.title@ == title
    &&& r.status == status
    &&& r.message@ == message
    &&& r.action_path is None
    &&& r.action_url is None
}

fn row(id: &str, title: &str, status: CheckStatus, message: &str) -> (r: CheckResult)
    ensures
        plain_row(r, id@, title@, status, message@),
{
    CheckResult {
        id: owned(id),
        title: owned(title),
        status,
        message: owned(message),
        action_path: None,
        action_url: None,
    }
}

impl CheckResult {
    /// A healthy step.
    pub fn ok(id: &str, title: &str, message: &str) -> (r: Self)
        ensures
            plain_row(r, id@, title@, CheckStatus::Healthy, message@),
    {
        row(id, title, CheckStatus::Healthy, message)
    }

    /// A step that fixed what it found.
    pub fn repaired(id: &str, title: &str, message: &str) -> (r: Self)
        ensures
            plain_row(r, id@, title@, CheckStatus::Repaired, message@),
    {
        row(id, title, CheckStatus::Repaired, message)
    }

    /// A step that needs the user.
    pub fn needs_user(id: &str, title: &str, message: &str) -> (r: Self)
        ensures
            plain_row(r, id@, title@, CheckStatus::NeedsUser, message@),
    {
        row(id, title, CheckStatus::NeedsUser, message)
    }

    /// A step whose fix failed.
    pub fn failed(id: &str, title: &str, message: &str) -> (r: Self)
        ensures
            plain_row(r, id@, title@, CheckStatus::Failed, message@),
    {
        row(id, title, CheckStatus::Failed, message)
    }

    /// A skipped step.
    pub fn skipped(id: &str, title: &str, message: &str) -> (r: Self)
        ensures
            plain_row(r, id@, title@, CheckStatus::Skipped, message@),
    {
        row(id, title, CheckStatus::Skipped, message)
    }

    /// The same row with a path to show.
    pub fn with_path(self, p: &str) -> (r: Self)
        ensures
            r.id == self.id,
            r.title == self.title,
            r.status == self.status,
            r.message == self.message,
            opt_chars(r.action_path) == Some(p@),
            r.action_url == self.action_url,
    {
        let mut s = self;
        s.action_path = Some(owned(p));
        s
    }

    /// The same row with a link to show.
    pub fn with_url(self, u: &str) -> (r: Self)
        ensures
            r.id == self.id,
            r.title == self.title,
            r.status == self.status,
            r.message == self.message,
            r.action_path == self.action_path,
            opt_chars(r.action_url) == Some(u@),
    {
        let mut s = self;
        s.action_url = Some(owned(u));
        s
    }
}

/// The whole report.
#[derive(Debug, Clone)]
pub struct DiagnosticsReport {
    pub checks: Vec<CheckResult>,
    pub elapsed_ms: u64,
    pub repaired_count: usize,
    pub needs_user_count: usize,
    pub failed_count: usize,
}

/// How many rows have the status.
pub open spec fn count_status(rows: Seq<CheckResult>, s: CheckStatus) -> nat
    decreases rows.len(),
{
    if rows.len() == 0 {
        0
    } else {
        count_status(rows.drop_last(), s) + if rows.last().status == s {
            1nat
        } else {
            0nat
        }
    }
}

pub proof fn lemma_count_status_bound(rows: Seq<CheckResult>, s: CheckStatus)
    ensures
        count_status(rows, s) <= rows.len(),
    decreases rows.len(),
{
    if rows.len() > 0 {
        lemma_count_status_bound(rows.drop_last(), s);
    }
}

/// Assemble the report, counting the repaired, needs-user and failed rows.
pub fn summarize(checks: Vec<CheckResult>, elapsed_ms: u64) -> (r: DiagnosticsReport)
    ensures
        r.checks == checks,
        r.elapsed_ms == elapsed_ms,
        r.repaired_count == count_status(checks@, CheckStatus::Repaired),
        r.needs_user_count == count_status(checks@, CheckStatus::NeedsUser),
        r.failed_count == count_status(checks@, CheckStatus::Failed),
{
    let mut repaired: usize = 0;
    let mut needs_user: usize = 0;
    let mut failed: usize = 0;
    let mut i: usize = 0;
    while i < checks.len()
        invariant
            i <= checks@.len(),
            repaired == count_status(checks@.take(i as int), CheckStatus::Repaired),
            needs_user == count_status(checks@.take(i as int), CheckStatus::NeedsUser),
            failed == count_status(checks@.take(i as int), CheckStatus::Failed),
        decreases checks.len() - i,
    {
        proof {
            assert(checks@.take(i + 1).drop_last() =~= checks@.take(i as int));
            lemma_count_status_bound(checks@.take(i as int), CheckStatus::Repaired);
            lemma_count_status_bound(checks@.take(i as int), CheckStatus::NeedsUser);
            lemma_count_status_bound(checks@.take(i as int), CheckStatus::Failed);
        }
        match checks[i].status {
            CheckStatus::Repaired => {
                repaired += 1;
            },
            CheckStatus::NeedsUser => {
                needs_user += 1;
            },
            CheckStatus::Failed => {
                failed += 1;
            },
            _ => {},
        }
        i += 1;
    }
    assert(checks@.take(checks@.len() as int) =~= checks@);
    DiagnosticsReport {
        checks,
        elapsed_ms,
        repaired_count: repaired,
        needs_user_count: needs_user,
        failed_count: failed,
    }
}

/// Each status is counted at most once per row: the three counts never
/// exceed the number of rows.
pub proof fn lemma_report_counts(rows: Seq<CheckResult>)
    ensures
        count_status(rows, CheckStatus::Repaired) + count_status(rows, CheckStatus::NeedsUser)
            + count_status(rows, CheckStatus::Failed) <= rows.len(),
    decreases rows.len(),
{
    if rows.len() > 0 {
        lemma_report_counts(rows.drop_last());
    }
}

} // verus!
