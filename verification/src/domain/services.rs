//! Business rules on playlists and jobs.

use crate::application::models::job::{is_job_id_text, JobIdError};
use crate::application::models::playlist::{
    is_playlist_id_text, playlist_id_parse, track_is_valid, PlaylistIdError,
};
use crate::application::models::{JobId, JobType, Playlist, PlaylistId, Track};
use crate::domain::errors::{DomainError, DomainResult};
use crate::ids::uuid_parse;
use crate::text::{chars_of, decimal_text, trim, trim_chars, u64_to_string};
use vstd::prelude::*;

verus! {

/// The largest playlist that cards are generated for.
pub const MAX_PDF_TRACKS: usize = 1000;

/// What `validate_playlist` answers: the ID must be valid, the name not blank and every
/// track valid; the first rule broken decides the error.
pub open spec fn playlist_validation_holds(p: Playlist, r: DomainResult<()>) -> bool {
    if !is_playlist_id_text(p.id@) {
        r matches Err(DomainError::InvalidPlaylistId(s)) && s@ == p.id@
    } else if trim(p.name@).len() == 0 {
        r matches Err(DomainError::ValidationError(s)) && s@ == "Playlist name cannot be empty"@
    } else if exists|i: int| 0 <= i < p.tracks@.len() && !track_is_valid(#[trigger] p.tracks@[i]) {
        exists|i: int|
            0 <= i < p.tracks@.len() && !track_is_valid(#[trigger] p.tracks@[i])
                && (forall|j: int| 0 <= j < i ==> track_is_valid(#[trigger] p.tracks@[j]))
                && (r matches Err(DomainError::ValidationError(s))
                && s@ == "Track at index "@ + decimal_text(i as nat) + " is invalid"@)
    } else {
        r is Ok
    }
}

/// A playlist passes validation.
pub open spec fn playlist_is_valid(p: Playlist) -> bool {
    &&& is_playlist_id_text(p.id@)
    &&& trim(p.name@).len() > 0
    &&& forall|i: int| 0 <= i < p.tracks@.len() ==> track_is_valid(#[trigger] p.tracks@[i])
}

/// What `can_generate_pdfs` answers: validation first, then the playlist must hold at least
/// one and at most `MAX_PDF_TRACKS` tracks.
pub open spec fn pdf_generation_allowed_holds(p: Playlist, r: DomainResult<()>) -> bool {
    if !playlist_is_valid(p) {
        playlist_validation_holds(p, r)
    } else if p.tracks@.len() == 0 {
        r matches Err(DomainError::BusinessRuleViolation(s)) && s@ == "Cannot generate PDFs for empty playlist"@
    } else if p.tracks@.len() > MAX_PDF_TRACKS {
        r matches Err(DomainError::BusinessRuleViolation(s))
            && s@ == "Playlist too large for PDF generation (max 1000 tracks)"@
    } else {
        r is Ok
    }
}

/// A playlist that cards may be generated for is valid and holds at least one and at
/// most `MAX_PDF_TRACKS` tracks.
pub proof fn lemma_pdf_generation_allowed(p: Playlist, r: DomainResult<()>)
    requires
        pdf_generation_allowed_holds(p, r),
        r is Ok,
    ensures
        playlist_is_valid(p),
        1 <= p.tracks@.len() <= MAX_PDF_TRACKS,
        forall|i: int| 0 <= i < p.tracks@.len() ==> {
            &&& (#[trigger] p.tracks@[i]).title@.len() > 0
            &&& p.tracks@[i].artist@.len() > 0
            &&& p.tracks@[i].spotify_url@.len() > 0
        },
{
}

/// A playlist passes validation only when every one of its tracks has a title, an
/// artist and a Spotify link: a track without a link (a local file) fails it.
pub proof fn lemma_valid_playlist_tracks_complete(p: Playlist, r: DomainResult<()>)
    requires
        playlist_validation_holds(p, r),
        r is Ok,
    ensures
        forall|i: int| 0 <= i < p.tracks@.len() ==> {
            &&& (#[trigger] p.tracks@[i]).title@.len() > 0
            &&& p.tracks@[i].artist@.len() > 0
            &&& p.tracks@[i].spotify_url@.len() > 0
        },
{
    if exists|i: int| 0 <= i < p.tracks@.len() && !track_is_valid(#[trigger] p.tracks@[i]) {
        assert(r is Err);
    }
}

/// Domain service for playlist business logic.
#[derive(Clone)]
pub struct PlaylistDomainService {}

impl Default for PlaylistDomainService {
    fn default() -> (r: Self) {
        Self::new()
    }
}

/// Preview of a playlist for display purposes.
#[derive(Debug, Clone)]
pub struct PlaylistPreview {
    pub id: PlaylistId,
    pub name: String,
    pub track_count: usize,
    pub sample_tracks: Vec<Track>,
}

impl PlaylistDomainService {
    /// Creates a playlist domain service.
    pub fn new() -> (r: Self) {
        PlaylistDomainService {}
    }

    /// Reads a playlist ID, failing with `InvalidPlaylistId(id)` when it names none.
    pub fn validate_playlist_id(&self, id: &str) -> (r: DomainResult<PlaylistId>)
        ensures
            match r {
                Ok(p) => playlist_id_parse(id@) == Ok::<Seq<char>, PlaylistIdError>(p@),
                Err(e) => playlist_id_parse(id@) is Err && (e matches DomainError::InvalidPlaylistId(s) && s@ == id@),
            },
    {
        match PlaylistId::from_str(id) {
            Ok(p) => Ok(p),
            Err(_) => Err(DomainError::InvalidPlaylistId(String::from_str(id))),
        }
    }

    /// Checks the playlist's ID, its name and each of its tracks.
    pub fn validate_playlist(&self, playlist: &Playlist) -> (r: DomainResult<()>)
        ensures
            playlist_validation_holds(*playlist, r),
            (r is Ok) == playlist_is_valid(*playlist),
            r is Ok ==> forall|i: int| 0 <= i < playlist.tracks@.len() ==> {
                &&& (#[trigger] playlist.tracks@[i]).title@.len() > 0
                &&& playlist.tracks@[i].artist@.len() > 0
                &&& playlist.tracks@[i].spotify_url@.len() > 0
            },
    {
        if !playlist.id.is_valid() {
            return Err(DomainError::InvalidPlaylistId(String::from_str(playlist.id.as_str())));
        }
        let name = chars_of(playlist.name.as_str());
        if trim_chars(&name).len() == 0 {
            return Err(DomainError::ValidationError(String::from_str("Playlist name cannot be empty")));
        }
        let mut index: usize = 0;
        while index < playlist.tracks.len()
            invariant
                index <= playlist.tracks@.len(),
                is_playlist_id_text(playlist.id@),
                trim(playlist.name@).len() > 0,
                forall|j: int| 0 <= j < index ==> track_is_valid(#[trigger] playlist.tracks@[j]),
            decreases playlist.tracks@.len() - index,
        {
            if !playlist.tracks[index].is_valid() {
                let mut message = String::from_str("Track at index ");
                let number = u64_to_string(index as u64);
                message.append(number.as_str());
                message.append(" is invalid");
                let r = Err(DomainError::ValidationError(message));
                assert(playlist_validation_holds(*playlist, r));
                return r;
            }
            index = index + 1;
        }
        Ok(())
    }

    /// Checks that cards can be generated: a valid playlist of 1 to 1000 tracks.
    pub fn can_generate_pdfs(&self, playlist: &Playlist) -> (r: DomainResult<()>)
        ensures
            pdf_generation_allowed_holds(*playlist, r),
            r is Ok ==> 1 <= playlist.tracks@.len() <= MAX_PDF_TRACKS,
            r is Ok ==> forall|i: int| 0 <= i < playlist.tracks@.len() ==> {
                &&& (#[trigger] playlist.tracks@[i]).title@.len() > 0
                &&& playlist.tracks@[i].artist@.len() > 0
                &&& playlist.tracks@[i].spotify_url@.len() > 0
            },
    {
        match self.validate_playlist(playlist) {
            Err(e) => return Err(e),
            Ok(()) => {},
        }
        if playlist.is_empty() {
            return Err(DomainError::BusinessRuleViolation(
                String::from_str("Cannot generate PDFs for empty playlist"),
            ));
        }
        if playlist.track_count() > MAX_PDF_TRACKS {
            return Err(DomainError::BusinessRuleViolation(
                String::from_str("Playlist too large for PDF generation (max 1000 tracks)"),
            ));
        }
        Ok(())
    }

    /// The ID, name, track count and first three tracks of a playlist.
    pub fn get_playlist_preview(&self, playlist: &Playlist) -> (r: PlaylistPreview)
        ensures
            r.id == playlist.id,
            r.name == playlist.name,
            r.track_count == playlist.tracks@.len(),
            r.sample_tracks@ == playlist.tracks@.take(
                if playlist.tracks@.len() < 3 { playlist.tracks@.len() as int } else { 3 },
            ),
    {
        let n = if playlist.tracks.len() < 3 { playlist.tracks.len() } else { 3 };
        let mut sample: Vec<Track> = Vec::new();
        let mut i: usize = 0;
        while i < n
            invariant
                n <= playlist.tracks@.len(),
                i <= n,
                sample@ == playlist.tracks@.take(i as int),
            decreases n - i,
        {
            sample.push(playlist.tracks[i].duplicate());
            assert(playlist.tracks@.take(i + 1) == playlist.tracks@.take(i as int).push(playlist.tracks@[i as int]));
            i = i + 1;
        }
        PlaylistPreview {
            id: playlist.id.duplicate(),
            name: playlist.name.clone(),
            track_count: playlist.tracks.len(),
            sample_tracks: sample,
        }
    }
}

/// Domain service for job business logic.
#[derive(Clone)]
pub struct JobDomainService {}

impl Default for JobDomainService {
    fn default() -> (r: Self) {
        Self::new()
    }
}

/// A job type passes validation: its playlist ID is valid.
pub open spec fn job_type_is_valid(t: JobType) -> bool {
    match t {
        JobType::GeneratePlaylistPdf { id } => is_playlist_id_text(id@),
    }
}

impl JobDomainService {
    /// Creates a job domain service.
    pub fn new() -> (r: Self) {
        JobDomainService {}
    }

    /// Reads a job ID, failing with `InvalidJobId(id)` when it names none.
    pub fn validate_job_id(&self, id: &str) -> (r: DomainResult<JobId>)
        ensures
            match r {
                Ok(j) => j@ == id@ && is_job_id_text(id@),
                Err(e) => !is_job_id_text(id@) && (e matches DomainError::InvalidJobId(s) && s@ == id@),
            },
    {
        match JobId::from_str(id) {
            Ok(j) => Ok(j),
            Err(_) => Err(DomainError::InvalidJobId(String::from_str(id))),
        }
    }

    /// Checks that the job's playlist ID is valid.
    pub fn validate_job_type(&self, job_type: &JobType) -> (r: DomainResult<()>)
        ensures
            (r is Ok) == job_type_is_valid(*job_type),
            match job_type {
                JobType::GeneratePlaylistPdf { id } => r is Err ==> (r matches Err(DomainError::InvalidPlaylistId(s)) && s@ == id@),
            },
    {
        match job_type {
            JobType::GeneratePlaylistPdf { id } => {
                if !id.is_valid() {
                    return Err(DomainError::InvalidPlaylistId(String::from_str(id.as_str())));
                }
                Ok(())
            },
        }
    }

    /// Checks whether a job can be created: its type must be valid.
    pub fn can_create_job(&self, job_type: &JobType) -> (r: DomainResult<()>)
        ensures
            (r is Ok) == job_type_is_valid(*job_type),
            match job_type {
                JobType::GeneratePlaylistPdf { id } => r is Err ==> (r matches Err(DomainError::InvalidPlaylistId(s)) && s@ == id@),
            },
    {
        self.validate_job_type(job_type)
    }

    /// `Generate PDFs for playlist <id>`.
    pub fn get_job_type_description(&self, job_type: &JobType) -> (r: String)
        ensures
            match job_type {
                JobType::GeneratePlaylistPdf { id } => r@ == "Generate PDFs for playlist "@ + id@,
            },
    {
        match job_type {
            JobType::GeneratePlaylistPdf { id } => {
                let mut s = String::from_str("Generate PDFs for playlist ");
                s.append(id.as_str());
                s
            },
        }
    }
}

} // verus!
