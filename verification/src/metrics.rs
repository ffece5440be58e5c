//! The metrics registry: two monotonically increasing, process-lifetime
//! counters and the pull-format text they are rendered to.
//!
//! The policy pinned down here: every accepted submission increments
//! `submissions_total` once, and every rejected request — failed
//! authentication, malformed body, or a spool failure — increments
//! `errors_total` once.

use crate::text::{dec_rep, u64_to_string};
use vstd::prelude::*;
use vstd::string::*;

verus! {

/// The two counters. They reset on restart and are never persisted.
pub struct Metrics {
    pub submissions: u64,
    pub errors: u64,
}

impl Metrics {
    /// A fresh registry: both counters zero.
    pub fn new() -> (m: Metrics)
        ensures
            m.submissions == 0,
            m.errors == 0,
    {
        Metrics { submissions: 0, errors: 0 }
    }

    /// Counts one accepted submission; the error counter is untouched.
    pub fn record_submission(&mut self)
        requires
            old(self).submissions < u64::MAX,
        ensures
            final(self).submissions == old(self).submissions + 1,
            final(self).errors == old(self).errors,
    {
        self.submissions = self.submissions + 1;
    }

    /// Counts one rejected request; the submission counter is untouched.
    pub fn record_error(&mut self)
        requires
            old(self).errors < u64::MAX,
        ensures
            final(self).errors == old(self).errors + 1,
            final(self).submissions == old(self).submissions,
    {
        self.errors = self.errors + 1;
    }
}

/// How one request ended.
pub enum RequestOutcome {
    /// The payload was spooled and answered `ok`.
    Accepted,
    /// The request failed authentication.
    AuthRejected,
    /// The request was rejected for another reason (malformed body, bad
    /// identifier, spool failure).
    OtherRejected,
}

/// The accepted submissions in a request history.
pub open spec fn accepted_count(h: Seq<RequestOutcome>) -> nat
    decreases h.len(),
{
    if h.len() == 0 {
        0
    } else {
        accepted_count(h.drop_last()) + if h.last() is Accepted {
            1nat
        } else {
            0nat
        }
    }
}

/// The failed authentications in a request history.
pub open spec fn auth_failure_count(h: Seq<RequestOutcome>) -> nat
    decreases h.len(),
{
    if h.len() == 0 {
        0
    } else {
        auth_failure_count(h.drop_last()) + if h.last() is AuthRejected {
            1nat
        } else {
            0nat
        }
    }
}

/// What `submissions_total` shows after a request history: one per
/// accepted submission.
pub open spec fn submissions_total(h: Seq<RequestOutcome>) -> nat {
    accepted_count(h)
}

/// What `errors_total` shows after a request history: one per rejected
/// request of either kind.
pub open spec fn errors_total(h: Seq<RequestOutcome>) -> nat
    decreases h.len(),
{
    if h.len() == 0 {
        0
    } else {
        errors_total(h.drop_last()) + if h.last() is Accepted {
            0nat
        } else {
            1nat
        }
    }
}

/// Counter monotonicity: after any request history with `n` accepted
/// submissions and `m` failed authentications, the registry shows
/// `submissions_total == n` and `errors_total >= m`, and the two counters
/// together account for every request exactly once.
pub proof fn lemma_counter_totals(h: Seq<RequestOutcome>)
    ensures
        submissions_total(h) == accepted_count(h),
        errors_total(h) >= auth_failure_count(h),
        submissions_total(h) + errors_total(h) == h.len(),
    decreases h.len(),
{
    if h.len() > 0 {
        lemma_counter_totals(h.drop_last());
    }
}

/// The pull-format text of the registry: both counters and the live gauge
/// of complete entries in the spool directory.
pub open spec fn metrics_text(submissions: nat, errors: nat, json_files: nat) -> Seq<char> {
    "# HELP kcdb_submissions_total Total number of submissions received\n"@
        + "# TYPE kcdb_submissions_total counter\n"@ + "kcdb_submissions_total "@ + dec_rep(
        submissions,
    ) + "\n"@ + "# HELP kcdb_errors_total Total number of errors encountered\n"@
        + "# TYPE kcdb_errors_total counter\n"@ + "kcdb_errors_total "@ + dec_rep(errors) + "\n"@
        + "# HELP kcdb_json_files_total Total number of JSON files in the spool directory\n"@
        + "# TYPE kcdb_json_files_total gauge\n"@ + "kcdb_json_files_total "@ + dec_rep(json_files)
        + "\n"@
}

/// Renders the registry. `json_files` is the point-in-time count of files
/// under the final-name pattern in the spool directory, taken by the
/// caller; it is a best-effort gauge, not synchronized with writers.
pub fn submission_metrics(submissions: u64, errors: u64, json_files: u64) -> (s: String)
    ensures
        s@ == metrics_text(submissions as nat, errors as nat, json_files as nat),
{
    let mut s = String::new();
    s.append("# HELP kcdb_submissions_total Total number of submissions received\n");
    s.append("# TYPE kcdb_submissions_total counter\n");
    s.append("kcdb_submissions_total ");
    let n1 = u64_to_string(submissions);
    s.append(n1.as_str());
    s.append("\n");
    s.append("# HELP kcdb_errors_total Total number of errors encountered\n");
    s.append("# TYPE kcdb_errors_total counter\n");
    s.append("kcdb_errors_total ");
    let n2 = u64_to_string(errors);
    s.append(n2.as_str());
    s.append("\n");
    s.append("# HELP kcdb_json_files_total Total number of JSON files in the spool directory\n");
    s.append("# TYPE kcdb_json_files_total gauge\n");
    s.append("kcdb_json_files_total ");
    let n3 = u64_to_string(json_files);
    s.append(n3.as_str());
    s.append("\n");
    proof {
        assert(s@ =~= metrics_text(submissions as nat, errors as nat, json_files as nat));
    }
    s
}

} // verus!
