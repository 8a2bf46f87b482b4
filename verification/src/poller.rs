//! The polling state machine that drives one asynchronous job to a terminal
//! state. Each observed snapshot yields one action: keep waiting, download
//! the result, or report the failure or cancellation. Once a terminal
//! snapshot has been observed the poller is finished and can observe nothing
//! more, so exactly one terminal outcome is ever emitted.

use vstd::prelude::*;

use crate::error::CliError;
use crate::job::JobSnapshot;
use crate::job::JobStatus;

verus! {

/// What the caller must do after one poll.
#[derive(Debug)]
pub enum PollAction {
    /// The job is still queued or processing: sleep and poll again.
    Wait,
    /// The job completed: fetch the result bytes.
    Download,
    /// The job failed: report this error and stop.
    ReportFailure(CliError),
    /// The job was cancelled: report this error and stop.
    ReportCancelled(CliError),
}

/// The failure message surfaced for a failed job: the remote message, or a
/// placeholder when the remote supplied none.
pub open spec fn failure_text(error_message: Option<String>) -> Seq<char> {
    "Screenshot job failed: "@ + match error_message {
        Some(m) => m@,
        None => "Unknown error"@,
    }
}

/// The error reported when a job ends in failure.
pub fn failure_error(job: &JobSnapshot) -> (e: CliError)
    ensures
        e matches CliError::Other(m) && m@ == failure_text(job.error_message),
{
    let detail = match &job.error_message {
        Some(m) => String::from_str("Screenshot job failed: ").concat(m.as_str()),
        None => String::from_str("Screenshot job failed: ").concat("Unknown error"),
    };
    CliError::Other(detail)
}

/// The error reported when a job ends cancelled.
pub fn cancelled_error() -> (e: CliError)
    ensures
        e matches CliError::Other(m) && m@ == "Screenshot job was cancelled"@,
{
    CliError::Other(String::from_str("Screenshot job was cancelled"))
}

/// Whether the action is one of the three terminal outcomes.
pub open spec fn is_terminal_action(a: PollAction) -> bool {
    !(a is Wait)
}

/// The action owed for a snapshot: wait on a non-terminal status, otherwise
/// the one outcome that the terminal status dictates.
pub open spec fn action_for(job: JobSnapshot, a: PollAction) -> bool {
    &&& a is Wait <==> !job.status.is_terminal_spec()
    &&& a is Download <==> job.status is Completed
    &&& (a matches PollAction::ReportFailure(e) ==> job.status is Failed && (e
        matches CliError::Other(m) && m@ == failure_text(job.error_message)))
    &&& (job.status is Failed ==> a is ReportFailure)
    &&& (a matches PollAction::ReportCancelled(e) ==> job.status is Cancelled && (e
        matches CliError::Other(m) && m@ == "Screenshot job was cancelled"@))
    &&& (job.status is Cancelled ==> a is ReportCancelled)
}

/// Drives a single job: counts the polls made and refuses to observe
/// anything after a terminal outcome was emitted.
#[derive(Debug, Clone, Copy)]
pub struct JobStatusPoller {
    /// Snapshots observed so far.
    pub polls: u64,
    /// Whether a terminal outcome has been emitted.
    pub finished: bool,
}

impl JobStatusPoller {
    /// A poller that has observed nothing.
    pub fn new() -> (r: Self)
        ensures
            r.polls == 0,
            !r.finished,
    {
        JobStatusPoller { polls: 0, finished: false }
    }

    /// Observes one fetched snapshot and says what to do next. May only be
    /// called while the poller is not finished: after a terminal outcome the
    /// job is never polled again.
    pub fn observe(&mut self, job: &JobSnapshot) -> (r: PollAction)
        requires
            !old(self).finished,
            old(self).polls < u64::MAX,
        ensures
            final(self).polls == old(self).polls + 1,
            final(self).finished == job.status.is_terminal_spec(),
            action_for(*job, r),
    {
        self.polls = self.polls + 1;
        match job.status {
            JobStatus::Completed => {
                self.finished = true;
                PollAction::Download
            },
            JobStatus::Failed => {
                self.finished = true;
                PollAction::ReportFailure(failure_error(job))
            },
            JobStatus::Cancelled => {
                self.finished = true;
                PollAction::ReportCancelled(cancelled_error())
            },
            _ => PollAction::Wait,
        }
    }
}

/// The index of the first terminal status in the sequence.
pub open spec fn first_terminal(s: Seq<JobStatus>) -> int
    decreases s.len(),
{
    if s.len() == 0 {
        0
    } else if s[0].is_terminal_spec() {
        0
    } else {
        1 + first_terminal(s.drop_first())
    }
}

proof fn lemma_first_terminal(s: Seq<JobStatus>, i: int)
    requires
        0 <= i < s.len(),
        forall|j: int| 0 <= j < i ==> !s[j].is_terminal_spec(),
        s[i].is_terminal_spec(),
    ensures
        first_terminal(s) == i,
    decreases i,
{
    if i > 0 {
        let t = s.drop_first();
        assert(forall|j: int| 0 <= j < i - 1 ==> t[j] == s[j + 1] && !t[j].is_terminal_spec());
        assert(t[i - 1] == s[i]);
        lemma_first_terminal(t, i - 1);
    }
}

/// One finished run of the poller over a snapshot sequence.
pub struct PollRun {
    /// How many snapshots were observed before stopping.
    pub polls: usize,
    /// The one terminal action that was emitted.
    pub outcome: PollAction,
}

/// For every snapshot sequence that reaches a terminal state, the poller
/// emits exactly one terminal outcome — the one owed to the first terminal
/// snapshot — and polls exactly up to that snapshot, never past it. On a
/// sequence with no terminal snapshot, every snapshot is polled and no
/// outcome is emitted.
pub fn drive_poller(snapshots: &Vec<JobSnapshot>) -> (r: Option<PollRun>)
    ensures
        r is Some <==> exists|i: int|
            0 <= i < snapshots@.len() && snapshots@[i].status.is_terminal_spec(),
        r matches Some(run) ==> {
            let k = first_terminal(snapshots@.map_values(|j: JobSnapshot| j.status));
            &&& 0 <= k < snapshots@.len()
            &&& run.polls == k + 1
            &&& snapshots@[k].status.is_terminal_spec()
            &&& forall|j: int| 0 <= j < k ==> !snapshots@[j].status.is_terminal_spec()
            &&& action_for(snapshots@[k], run.outcome)
            &&& is_terminal_action(run.outcome)
        },
{
    let mut poller = JobStatusPoller::new();
    let n = snapshots.len();
    let mut i: usize = 0;
    while i < n
        invariant
            n == snapshots@.len(),
            i <= n,
            !poller.finished,
            poller.polls == i,
            forall|j: int| 0 <= j < i ==> !snapshots@[j].status.is_terminal_spec(),
        decreases n - i,
    {
        let action = poller.observe(&snapshots[i]);
        if poller.finished {
            proof {
                let statuses = snapshots@.map_values(|j: JobSnapshot| j.status);
                assert(statuses.len() == snapshots@.len());
                assert(statuses[i as int] == snapshots@[i as int].status);
                assert(forall|j: int|
                    0 <= j < i ==> statuses[j] == snapshots@[j].status
                        && !statuses[j].is_terminal_spec());
                lemma_first_terminal(statuses, i as int);
            }
            return Some(PollRun { polls: i + 1, outcome: action });
        }
        i = i + 1;
    }
    None
}

} // verus!
