//! The client-side model of a remote screenshot job: its status vocabulary
//! and the read-only snapshot fetched on every poll. The remote service owns
//! the job; the client only re-fetches and reads.

use vstd::prelude::*;

use crate::error::CliError;
use crate::error::CliResult;

verus! {

/// The status of a remote job. `Completed`, `Failed` and `Cancelled` are
/// terminal; a job never leaves a terminal state.
#[derive(Debug, Clone, Copy, PartialEq, Eq, Structural)]
pub enum JobStatus {
    Queued,
    Processing,
    Completed,
    Failed,
    Cancelled,
}

impl JobStatus {
    /// Whether the status is terminal.
    pub open spec fn is_terminal_spec(self) -> bool {
        self is Completed || self is Failed || self is Cancelled
    }

    /// Whether the status is terminal.
    pub fn is_terminal(&self) -> (r: bool)
        ensures
            r == self.is_terminal_spec(),
    {
        match self {
            JobStatus::Completed | JobStatus::Failed | JobStatus::Cancelled => true,
            _ => false,
        }
    }

    /// The status name as the inspection commands print it.
    pub open spec fn name_text(self) -> Seq<char> {
        match self {
            JobStatus::Queued => "Queued"@,
            JobStatus::Processing => "Processing"@,
            JobStatus::Completed => "Completed"@,
            JobStatus::Failed => "Failed"@,
            JobStatus::Cancelled => "Cancelled"@,
        }
    }

    /// The status name as the inspection commands print it.
    pub fn name(&self) -> (r: &'static str)
        ensures
            r@ == self.name_text(),
    {
        match self {
            JobStatus::Queued => "Queued",
            JobStatus::Processing => "Processing",
            JobStatus::Completed => "Completed",
            JobStatus::Failed => "Failed",
            JobStatus::Cancelled => "Cancelled",
        }
    }

    /// The one-character marker shown beside a job in listings.
    pub open spec fn icon_text(self) -> Seq<char> {
        match self {
            JobStatus::Completed => "✓"@,
            JobStatus::Failed => "✗"@,
            JobStatus::Cancelled => "⊘"@,
            JobStatus::Processing => "⟳"@,
            JobStatus::Queued => "○"@,
        }
    }

    /// The one-character marker shown beside a job in listings.
    pub fn icon(&self) -> (r: &'static str)
        ensures
            r@ == self.icon_text(),
    {
        match self {
            JobStatus::Completed => "✓",
            JobStatus::Failed => "✗",
            JobStatus::Cancelled => "⊘",
            JobStatus::Processing => "⟳",
            JobStatus::Queued => "○",
        }
    }

    /// The color name used when a status is rendered.
    pub open spec fn color_text(self) -> Seq<char> {
        match self {
            JobStatus::Completed => "green"@,
            JobStatus::Failed => "red"@,
            JobStatus::Cancelled => "yellow"@,
            JobStatus::Processing => "cyan"@,
            JobStatus::Queued => "white"@,
        }
    }

    /// The color name used when a status is rendered.
    pub fn color(&self) -> (r: &'static str)
        ensures
            r@ == self.color_text(),
    {
        match self {
            JobStatus::Completed => "green",
            JobStatus::Failed => "red",
            JobStatus::Cancelled => "yellow",
            JobStatus::Processing => "cyan",
            JobStatus::Queued => "white",
        }
    }
}

/// A read-only snapshot of a remote job, as plain values.
#[derive(Debug, Clone)]
pub struct JobSnapshot {
    pub id: String,
    pub status: JobStatus,
    pub url: Option<String>,
    pub result_url: Option<String>,
    pub error_code: Option<String>,
    pub error_message: Option<String>,
    pub created_at: Option<String>,
    pub started_at: Option<String>,
    pub completed_at: Option<String>,
    pub expires_at: Option<String>,
}

/// Decides whether a job's result may be downloaded: only a completed job
/// has one; any other status is reported with its name.
pub fn result_available(status: JobStatus) -> (r: CliResult<()>)
    ensures
        r is Ok <==> status is Completed,
        r matches Err(e) ==> e matches CliError::Other(m) && m@
            == "Job is not completed. Current status: "@ + status.name_text(),
{
    match status {
        JobStatus::Completed => Ok(()),
        _ => Err(
            CliError::Other(
                String::from_str("Job is not completed. Current status: ").concat(status.name()),
            ),
        ),
    }
}

} // verus!
