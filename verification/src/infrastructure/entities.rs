//! Rows of the playlist and job tables, and their conversion to and from the domain.

use crate::domain::{Job, JobId, JobKind, JobStatus, Playlist, PlaylistId, SpotifyId, Track};
use crate::ids::new_uuid_v4;
use crate::text::all_alphanumeric;
use crate::time::Timestamp;
use vstd::prelude::*;

verus! {

/// A stored playlist; its tracks are rows of their own.
#[derive(Debug, Clone)]
pub struct PlaylistEntity {
    pub id: u128,
    pub spotify_id: Option<String>,
    pub name: String,
    pub created_at: Timestamp,
    pub updated_at: Option<Timestamp>,
}

/// A stored track, at its position in its playlist.
#[derive(Debug, Clone)]
pub struct TrackEntity {
    pub id: u128,
    pub playlist_id: u128,
    pub title: String,
    pub artist: String,
    pub year: i32,
    pub spotify_url: String,
    pub album_cover_url: Option<String>,
    pub position: i32,
}

/// A stored job; its payload and result are JSON text.
#[derive(Debug, Clone)]
pub struct JobEntity {
    pub id: u128,
    pub status: JobStatusEntity,
    pub created_at: Timestamp,
    pub completed_at: Option<Timestamp>,
    pub kind: JobKind,
    pub payload: String,
    pub result: Option<String>,
}

/// The stored state of a job, kept in the table as `pending`, `processing`,
/// `completed` or `failed`.
#[derive(Debug, Clone, Copy, PartialEq, Eq, Structural)]
pub enum JobStatusEntity {
    Pending,
    Processing,
    Completed,
    Failed,
}

/// The domain status of each stored status.
pub open spec fn status_of_entity(s: JobStatusEntity) -> JobStatus {
    match s {
        JobStatusEntity::Pending => JobStatus::Pending,
        JobStatusEntity::Processing => JobStatus::Processing,
        JobStatusEntity::Completed => JobStatus::Completed,
        JobStatusEntity::Failed => JobStatus::Failed,
    }
}

/// The stored status of each domain status.
pub open spec fn entity_of_status(s: JobStatus) -> JobStatusEntity {
    match s {
        JobStatus::Pending => JobStatusEntity::Pending,
        JobStatus::Processing => JobStatusEntity::Processing,
        JobStatus::Completed => JobStatusEntity::Completed,
        JobStatus::Failed => JobStatusEntity::Failed,
    }
}

impl From<JobStatusEntity> for JobStatus {
    fn from(status: JobStatusEntity) -> (r: Self) {
        match status {
            JobStatusEntity::Pending => JobStatus::Pending,
            JobStatusEntity::Processing => JobStatus::Processing,
            JobStatusEntity::Completed => JobStatus::Completed,
            JobStatusEntity::Failed => JobStatus::Failed,
        }
    }
}

impl vstd::std_specs::convert::FromSpecImpl<JobStatusEntity> for JobStatus {
    open spec fn obeys_from_spec() -> bool {
        true
    }

    open spec fn from_spec(v: JobStatusEntity) -> JobStatus {
        status_of_entity(v)
    }
}

impl From<JobStatus> for JobStatusEntity {
    fn from(status: JobStatus) -> (r: Self) {
        match status {
            JobStatus::Pending => JobStatusEntity::Pending,
            JobStatus::Processing => JobStatusEntity::Processing,
            JobStatus::Completed => JobStatusEntity::Completed,
            JobStatus::Failed => JobStatusEntity::Failed,
        }
    }
}

impl vstd::std_specs::convert::FromSpecImpl<JobStatus> for JobStatusEntity {
    open spec fn obeys_from_spec() -> bool {
        true
    }

    open spec fn from_spec(v: JobStatus) -> JobStatusEntity {
        entity_of_status(v)
    }
}

/// Storing a job's status and reading it back gives the status it had, and every
/// stored status is the stored form of exactly one domain status.
pub proof fn lemma_status_round_trip(s: JobStatus, e: JobStatusEntity)
    ensures
        status_of_entity(entity_of_status(s)) == s,
        entity_of_status(status_of_entity(e)) == e,
        (entity_of_status(s) == e) == (status_of_entity(e) == s),
{
}

/// The domain track of a stored track.
pub open spec fn track_of_entity(e: TrackEntity) -> Track {
    Track {
        title: e.title,
        artist: e.artist,
        year: e.year,
        spotify_url: e.spotify_url,
        album_cover_url: e.album_cover_url,
    }
}

impl From<TrackEntity> for Track {
    fn from(entity: TrackEntity) -> (r: Self) {
        Track {
            title: entity.title,
            artist: entity.artist,
            year: entity.year,
            spotify_url: entity.spotify_url,
            album_cover_url: entity.album_cover_url,
        }
    }
}

impl vstd::std_specs::convert::FromSpecImpl<TrackEntity> for Track {
    open spec fn obeys_from_spec() -> bool {
        true
    }

    open spec fn from_spec(v: TrackEntity) -> Track {
        track_of_entity(v)
    }
}

/// The Spotify ID read from a stored text: present exactly when the text is a valid ID.
pub open spec fn spotify_id_matches(stored: Option<String>, id: Option<SpotifyId>) -> bool {
    match stored {
        None => id is None,
        Some(s) => {
            &&& (id is Some) == (s@.len() > 0 && all_alphanumeric(s@))
            &&& id matches Some(v) ==> v@ == s@ && v.wf()
        },
    }
}

/// The playlist of a stored row, without its tracks: a stored Spotify ID that is not a
/// valid ID is dropped.
pub fn playlist_from_entity(entity: PlaylistEntity) -> (r: Playlist)
    ensures
        r.id@ == entity.id,
        spotify_id_matches(entity.spotify_id, r.spotify_id),
        r.name == entity.name,
        r.tracks@.len() == 0,
        r.created_at == Some(entity.created_at),
        r.updated_at == entity.updated_at,
{
    let spotify_id = match &entity.spotify_id {
        Some(s) => match SpotifyId::from_str(s.as_str()) {
            Ok(id) => Some(id),
            Err(_) => None,
        },
        None => None,
    };
    Playlist {
        id: PlaylistId::from_uuid(entity.id),
        spotify_id,
        name: entity.name,
        tracks: Vec::new(),
        created_at: Some(entity.created_at),
        updated_at: entity.updated_at,
    }
}

/// The playlist of a stored row and its stored tracks, the tracks in the order given.
pub fn playlist_from_entities(entity: PlaylistEntity, tracks: Vec<TrackEntity>) -> (r: Playlist)
    ensures
        r.id@ == entity.id,
        spotify_id_matches(entity.spotify_id, r.spotify_id),
        r.name == entity.name,
        r.created_at == Some(entity.created_at),
        r.updated_at == entity.updated_at,
        r.tracks@ == tracks@.map_values(|e: TrackEntity| track_of_entity(e)),
{
    let mut playlist = playlist_from_entity(entity);
    let ghost all = tracks@;
    let mut rest = tracks;
    let mut out: Vec<Track> = Vec::new();
    while rest.len() > 0
        invariant
            out.len() + rest.len() == all.len(),
            forall|j: int| 0 <= j < out.len() ==> out@[j] == track_of_entity(#[trigger] all[j]),
            forall|j: int| 0 <= j < rest.len() ==> rest@[j] == all[out.len() + j],
        decreases rest.len(),
    {
        let e = rest.remove(0);
        out.push(Track::from(e));
    }
    assert(out@ =~= all.map_values(|e: TrackEntity| track_of_entity(e)));
    playlist.tracks = out;
    playlist
}

/// The job of a stored row.
pub fn job_from_entity(entity: JobEntity) -> (r: Job)
    ensures
        r.id@ == entity.id,
        r.status == status_of_entity(entity.status),
        r.created_at == entity.created_at,
        r.completed_at == entity.completed_at,
        r.kind == entity.kind,
        r.payload == entity.payload,
        r.result == entity.result,
{
    Job {
        id: JobId::from_uuid(entity.id),
        status: JobStatus::from(entity.status),
        created_at: entity.created_at,
        completed_at: entity.completed_at,
        kind: entity.kind,
        payload: entity.payload,
        result: entity.result,
    }
}

/// The stored row of a job.
pub fn entity_from_job(job: Job) -> (r: JobEntity)
    ensures
        r.id == job.id@,
        r.status == entity_of_status(job.status),
        r.created_at == job.created_at,
        r.completed_at == job.completed_at,
        r.kind == job.kind,
        r.payload == job.payload,
        r.result == job.result,
{
    JobEntity {
        id: job.id.as_uuid(),
        status: JobStatusEntity::from(job.status),
        created_at: job.created_at,
        completed_at: job.completed_at,
        kind: job.kind,
        payload: job.payload,
        result: job.result,
    }
}

/// The stored row of a track not yet placed: a new random ID, the nil playlist and
/// position 0, which saving the playlist sets.
pub fn entity_from_track(track: Track) -> (r: TrackEntity)
    ensures
        r.playlist_id == 0,
        r.position == 0,
        track_of_entity(r) == track,
{
    TrackEntity {
        id: new_uuid_v4(),
        playlist_id: 0,
        title: track.title,
        artist: track.artist,
        year: track.year,
        spotify_url: track.spotify_url,
        album_cover_url: track.album_cover_url,
        position: 0,
    }
}

/// The rows that saving a playlist inserts for its tracks: each with a new random ID,
/// the playlist's ID, its index as its position and no album cover.
pub fn track_rows(playlist: &Playlist) -> (r: Vec<TrackEntity>)
    ensures
        r@.len() == playlist.tracks@.len(),
        forall|i: int|
            #![trigger r@[i]]
            0 <= i < r@.len() ==> {
                &&& r@[i].playlist_id == playlist.id@
                &&& r@[i].title == playlist.tracks@[i].title
                &&& r@[i].artist == playlist.tracks@[i].artist
                &&& r@[i].year == playlist.tracks@[i].year
                &&& r@[i].spotify_url == playlist.tracks@[i].spotify_url
                &&& r@[i].album_cover_url is None
                &&& r@[i].position == i as i32
            },
{
    let playlist_id = playlist.id.as_uuid();
    let mut rows: Vec<TrackEntity> = Vec::new();
    let mut i: usize = 0;
    while i < playlist.tracks.len()
        invariant
            i <= playlist.tracks@.len(),
            rows@.len() == i,
            playlist_id == playlist.id@,
            forall|j: int|
                #![trigger rows@[j]]
                0 <= j < i ==> {
                    &&& rows@[j].playlist_id == playlist.id@
                    &&& rows@[j].title == playlist.tracks@[j].title
                    &&& rows@[j].artist == playlist.tracks@[j].artist
                    &&& rows@[j].year == playlist.tracks@[j].year
                    &&& rows@[j].spotify_url == playlist.tracks@[j].spotify_url
                    &&& rows@[j].album_cover_url is None
                    &&& rows@[j].position == j as i32
                },
        decreases playlist.tracks@.len() - i,
    {
        let track = &playlist.tracks[i];
        #[verifier::truncate]
        let position: i32 = i as i32;
        rows.push(TrackEntity {
            id: new_uuid_v4(),
            playlist_id,
            title: track.title.clone(),
            artist: track.artist.clone(),
            year: track.year,
            spotify_url: track.spotify_url.clone(),
            album_cover_url: None,
            position,
        });
        i = i + 1;
    }
    rows
}

} // verus!
