//! Kinds of background jobs.

use crate::application::models::PlaylistId;
use vstd::prelude::*;

verus! {

/// Types of jobs that can be created.
#[derive(Debug, Clone, PartialEq, Eq)]
pub enum JobType {
    /// Generate PDFs for a playlist
    GeneratePlaylistPdf {
        /// The playlist ID to generate PDFs for
        id: PlaylistId,
    },
}

impl JobType {
    /// The job type's name.
    pub fn as_str(&self) -> (r: &'static str)
        ensures
            r@ == "generate_playlist_pdf"@,
    {
        match self {
            JobType::GeneratePlaylistPdf { .. } => "generate_playlist_pdf",
        }
    }

    /// The playlist the job is for.
    pub fn playlist_id(&self) -> (r: Option<&PlaylistId>)
        ensures
            match self {
                JobType::GeneratePlaylistPdf { id } => r == Some(id),
            },
    {
        match self {
            JobType::GeneratePlaylistPdf { id } => Some(id),
        }
    }

    /// Whether the job is for the given playlist.
    pub fn is_for_playlist(&self, playlist_id: &PlaylistId) -> (r: bool)
        ensures
            match self {
                JobType::GeneratePlaylistPdf { id } => r == (id@ == playlist_id@),
            },
    {
        match self {
            JobType::GeneratePlaylistPdf { id } => id.0 == playlist_id.0,
        }
    }

    /// The job type as text, as its `Display` form writes it.
    pub fn to_string(&self) -> (r: String)
        ensures
            match self {
                JobType::GeneratePlaylistPdf { id } => r@ == "GeneratePlaylistPdf("@ + id@ + ")"@,
            },
    {
        match self {
            JobType::GeneratePlaylistPdf { id } => {
                let mut s = String::from_str("GeneratePlaylistPdf(");
                s.append(id.as_str());
                s.append(")");
                s
            },
        }
    }
}

} // verus!
