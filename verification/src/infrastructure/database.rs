//! Rows of the SQLite store, as plain values.

use crate::time::Timestamp;
use vstd::prelude::*;

verus! {

/// A stored playlist.
#[derive(Debug)]
pub struct Playlist {
    pub id: i64,
    pub spotify_id: String,
    pub name: String,
    pub created_at: Timestamp,
    pub updated_at: Timestamp,
}

/// A stored job.
#[derive(Debug)]
pub struct Job {
    pub id: i64,
    pub playlist_id: i64,
    pub status: JobStatus,
    pub front_pdf_path: Option<String>,
    pub back_pdf_path: Option<String>,
    pub created_at: Timestamp,
    pub completed_at: Option<Timestamp>,
}

/// The state of a stored job.
#[derive(Debug, Clone, Copy, PartialEq, Eq, Structural)]
pub enum JobStatus {
    Pending,
    Processing,
    Completed,
    Failed,
}

/// A stored track.
#[derive(Debug)]
pub struct Track {
    pub id: i64,
    pub playlist_id: i64,
    pub title: String,
    pub artist: String,
    pub year: String,
    pub spotify_url: String,
    pub position: i32,
}

/// A track to store.
#[derive(Debug)]
pub struct NewTrack {
    pub playlist_id: i64,
    pub title: String,
    pub artist: String,
    pub year: String,
    pub spotify_url: String,
    pub position: i32,
}

/// How `Debug` writes each status.
pub open spec fn status_debug_text(s: JobStatus) -> Seq<char> {
    match s {
        JobStatus::Pending => "Pending"@,
        JobStatus::Processing => "Processing"@,
        JobStatus::Completed => "Completed"@,
        JobStatus::Failed => "Failed"@,
    }
}

impl JobStatus {
    /// The status as `Debug` writes it.
    pub fn debug_text(&self) -> (r: &'static str)
        ensures
            r@ == status_debug_text(*self),
    {
        match self {
            JobStatus::Pending => "Pending",
            JobStatus::Processing => "Processing",
            JobStatus::Completed => "Completed",
            JobStatus::Failed => "Failed",
        }
    }

    /// The text that a status update compares with `'completed'`: `completed` for a
    /// completed job, `other` for any other.
    pub fn completion_marker(&self) -> (r: &'static str)
        ensures
            r@ == (if *self == JobStatus::Completed { "completed"@ } else { "other"@ }),
    {
        match self {
            JobStatus::Completed => "completed",
            _ => "other",
        }
    }
}

} // verus!
