//! Jobs as the application reports them.

use crate::application::models::JobId;
use crate::infrastructure::database::JobStatus;
use crate::time::Timestamp;
use vstd::prelude::*;

verus! {

/// Job model with domain types.
#[derive(Debug, Clone, PartialEq)]
pub struct Job {
    pub id: JobId,
    pub playlist_id: String,
    pub status: JobStatus,
    pub created_at: Timestamp,
    pub completed_at: Option<Timestamp>,
    pub front_pdf_path: Option<String>,
    pub back_pdf_path: Option<String>,
}

impl Job {
    /// `Job <id> for playlist <playlist>`.
    pub fn display_name(&self) -> (r: String)
        ensures
            r@ == "Job "@ + self.id@ + " for playlist "@ + self.playlist_id@,
    {
        let mut s = String::from_str("Job ");
        s.append(self.id.as_str());
        s.append(" for playlist ");
        s.append(self.playlist_id.as_str());
        s
    }

    /// Whether the job is completed.
    pub fn is_completed(&self) -> (r: bool)
        ensures
            r == (self.status == JobStatus::Completed),
    {
        matches!(self.status, JobStatus::Completed)
    }

    /// Whether the job is processing.
    pub fn is_processing(&self) -> (r: bool)
        ensures
            r == (self.status == JobStatus::Processing),
    {
        matches!(self.status, JobStatus::Processing)
    }

    /// Whether the job failed.
    pub fn is_failed(&self) -> (r: bool)
        ensures
            r == (self.status == JobStatus::Failed),
    {
        matches!(self.status, JobStatus::Failed)
    }

    /// Whether the job is pending.
    pub fn is_pending(&self) -> (r: bool)
        ensures
            r == (self.status == JobStatus::Pending),
    {
        matches!(self.status, JobStatus::Pending)
    }
}

} // verus!
