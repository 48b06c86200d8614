//! The decisions of the background job processor: which status a run leaves, what a
//! PDF job needs before it starts, and which stored PDF a request gets.

use crate::application::models::{JobId, PdfSide, PlaylistId};
use crate::domain::errors::{DomainError, DomainResult};
use crate::infrastructure::database::{status_debug_text, Job, JobStatus};
use vstd::prelude::*;

verus! {

/// The status a job is left in after its work: completed when the work succeeded,
/// failed when it returned an error.
pub fn status_after_run(outcome: &DomainResult<()>) -> (r: JobStatus)
    ensures
        r == (if outcome is Ok { JobStatus::Completed } else { JobStatus::Failed }),
{
    match outcome {
        Ok(_) => JobStatus::Completed,
        Err(_) => JobStatus::Failed,
    }
}

/// Whether a stored job is completed.
pub fn job_is_completed(job: &Job) -> (r: bool)
    ensures
        r == (job.status == JobStatus::Completed),
{
    match job.status {
        JobStatus::Completed => true,
        _ => false,
    }
}

/// Whether a PDF job may start: refused when its playlist was not found
/// (`track_count` is `None`) or has no tracks.
pub fn check_pdf_job_input(playlist_id: &PlaylistId, track_count: Option<usize>) -> (r: DomainResult<()>)
    ensures
        match track_count {
            None => (r matches Err(DomainError::PlaylistNotFound(m)) && m@ == playlist_id.0@),
            Some(n) => if n == 0 {
                (r matches Err(DomainError::BusinessRuleViolation(m))
                    && m@ == "Cannot generate PDFs for empty playlist"@)
            } else {
                r is Ok
            },
        },
{
    match track_count {
        None => Err(DomainError::PlaylistNotFound(String::from_str(playlist_id.as_str()))),
        Some(n) => {
            if n == 0 {
                Err(DomainError::BusinessRuleViolation(String::from_str("Cannot generate PDFs for empty playlist")))
            } else {
                Ok(())
            }
        },
    }
}

/// The stored path of one side's PDF, if the job has one.
pub open spec fn side_path(side: PdfSide, job: Job) -> Option<String> {
    match side {
        PdfSide::Front => job.front_pdf_path,
        PdfSide::Back => job.back_pdf_path,
    }
}

/// A request for the front PDF is answered from the job's front path and a request for
/// the back PDF from its back path, never from the other side's.
pub proof fn lemma_side_path_picks_that_side(job: Job)
    ensures
        side_path(PdfSide::Front, job) == job.front_pdf_path,
        side_path(PdfSide::Back, job) == job.back_pdf_path,
{
}

/// How `Debug` writes each side.
pub open spec fn side_debug_text(side: PdfSide) -> Seq<char> {
    match side {
        PdfSide::Front => "Front"@,
        PdfSide::Back => "Back"@,
    }
}

/// The message for a job that is not completed yet.
pub open spec fn not_completed_message(job_id: Seq<char>, status: JobStatus) -> Seq<char> {
    "Job "@ + job_id + " is not completed (status: "@ + status_debug_text(status) + ")"@
}

/// The path of the PDF of one side of a job's cards: refused while the job is not
/// completed, and when the completed job has no PDF of that side.
pub fn job_pdf_path(job_id: &JobId, side: PdfSide, job: &Job) -> (r: DomainResult<String>)
    ensures
        job.status != JobStatus::Completed ==> (r matches Err(DomainError::BusinessRuleViolation(m))
            && m@ == not_completed_message(job_id@, job.status)),
        job.status == JobStatus::Completed ==> match side_path(side, *job) {
            Some(p) => (r matches Ok(q) && q@ == p@),
            None => (r matches Err(DomainError::PdfNotFound(m))
                && m@ == side_debug_text(side) + " PDF for job "@ + job_id@),
        },
        job.status == JobStatus::Completed && side == PdfSide::Front ==> match job.front_pdf_path {
            Some(p) => (r matches Ok(q) && q@ == p@),
            None => r is Err,
        },
        job.status == JobStatus::Completed && side == PdfSide::Back ==> match job.back_pdf_path {
            Some(p) => (r matches Ok(q) && q@ == p@),
            None => r is Err,
        },
{
    if !job_is_completed(job) {
        let mut m = String::from_str("Job ");
        m.append(job_id.as_str());
        m.append(" is not completed (status: ");
        m.append(job.status.debug_text());
        m.append(")");
        proof {
            reveal_strlit("Job ");
            reveal_strlit(" is not completed (status: ");
            reveal_strlit(")");
        }
        return Err(DomainError::BusinessRuleViolation(m));
    }
    let path = match side {
        PdfSide::Front => &job.front_pdf_path,
        PdfSide::Back => &job.back_pdf_path,
    };
    match path {
        Some(p) => Ok(p.clone()),
        None => {
            let mut m = String::from_str(side.name());
            m.append(" PDF for job ");
            m.append(job_id.as_str());
            Err(DomainError::PdfNotFound(m))
        },
    }
}

} // verus!
