//! PDF jobs sent to the background worker, and what their outcome records.

use crate::infrastructure::database::JobStatus;
use vstd::prelude::*;

verus! {

/// A job handed to the background worker: the job and the playlist to make PDFs of.
#[derive(Debug, Clone)]
pub struct JobMessage {
    pub job_id: String,
    pub playlist_id: String,
}

/// What a PDF job records when its work ends: the paths of the front and back PDFs when
/// they were made, and the job's final status.
#[derive(Debug)]
pub struct PdfJobRecord {
    pub pdf_paths: Option<(String, String)>,
    pub status: JobStatus,
}

/// The record of a PDF job's outcome: both paths and `Completed` when the PDFs were made,
/// no paths and `Failed` when making them failed.
pub fn record_pdf_outcome(outcome: Result<(String, String), String>) -> (r: PdfJobRecord)
    ensures
        match outcome {
            Ok(paths) => r.status == JobStatus::Completed && r.pdf_paths == Some(paths),
            Err(_) => r.status == JobStatus::Failed && r.pdf_paths is None,
        },
{
    match outcome {
        Ok(paths) => PdfJobRecord { pdf_paths: Some(paths), status: JobStatus::Completed },
        Err(_) => PdfJobRecord { pdf_paths: None, status: JobStatus::Failed },
    }
}

} // verus!
