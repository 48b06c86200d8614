//! The playlist service's decisions: creating a playlist from Spotify step by step, the
//! playlist a job is started for, and choosing among a playlist's jobs.

use crate::domain::job::{Job, JobStatus};
use crate::domain::playlist::{Playlist, PlaylistId};
use crate::ids::uuid_text;
use crate::time::{earlier, earlier_opt, is_before_opt, Timestamp};
use vstd::prelude::*;

verus! {

/// `i` is the job that `max_by_key(created_at)` picks: none is created later, and every
/// later position holds a job created strictly earlier (the last of the latest wins).
pub open spec fn is_latest_created(jobs: Seq<Job>, i: int) -> bool {
    &&& 0 <= i < jobs.len()
    &&& forall|j: int| 0 <= j < jobs.len() ==> !earlier(jobs[i].created_at, #[trigger] jobs[j].created_at)
    &&& forall|j: int| i < j < jobs.len() ==> earlier(#[trigger] jobs[j].created_at, jobs[i].created_at)
}

/// The position of the most recently created job, as `max_by_key(created_at)` picks it.
pub fn latest_job(jobs: &Vec<Job>) -> (r: Option<usize>)
    ensures
        r is None <==> jobs@.len() == 0,
        r matches Some(i) ==> is_latest_created(jobs@, i as int),
{
    if jobs.len() == 0 {
        return None;
    }
    let mut best: usize = 0;
    let mut k: usize = 1;
    while k < jobs.len()
        invariant
            0 <= best < k <= jobs@.len(),
            forall|j: int| 0 <= j < k ==> !earlier(jobs@[best as int].created_at, #[trigger] jobs@[j].created_at),
            forall|j: int| best < j < k ==> earlier(#[trigger] jobs@[j].created_at, jobs@[best as int].created_at),
        decreases jobs@.len() - k,
    {
        if !jobs[k].created_at.is_before(&jobs[best].created_at) {
            best = k;
        }
        k = k + 1;
    }
    Some(best)
}

/// A job is a finished card generation whose output could be read back.
pub open spec fn is_generation_candidate(job: Job, readable: bool) -> bool {
    job.status == JobStatus::Completed && job.result is Some && readable
}

/// `i` is the candidate that `max_by_key(completed_at)` picks among the candidates.
pub open spec fn is_latest_generation(jobs: Seq<Job>, readable: Seq<bool>, i: int) -> bool {
    &&& 0 <= i < jobs.len()
    &&& is_generation_candidate(jobs[i], readable[i])
    &&& forall|j: int| 0 <= j < jobs.len() && is_generation_candidate(#[trigger] jobs[j], readable[j])
        ==> !earlier_opt(jobs[i].completed_at, jobs[j].completed_at)
    &&& forall|j: int| i < j < jobs.len() && is_generation_candidate(#[trigger] jobs[j], readable[j])
        ==> earlier_opt(jobs[j].completed_at, jobs[i].completed_at)
}

/// The position of the most recently completed card generation whose output was read
/// (`readable[i]`), or `None` when there is none.
pub fn latest_generation_job(jobs: &Vec<Job>, readable: &Vec<bool>) -> (r: Option<usize>)
    requires
        readable@.len() == jobs@.len(),
    ensures
        r is None <==> forall|j: int| 0 <= j < jobs@.len() ==> !is_generation_candidate(#[trigger] jobs@[j], readable@[j]),
        r matches Some(i) ==> is_latest_generation(jobs@, readable@, i as int),
{
    let mut best: Option<usize> = None;
    let mut k: usize = 0;
    while k < jobs.len()
        invariant
            readable@.len() == jobs@.len(),
            0 <= k <= jobs@.len(),
            best is None <==> forall|j: int| 0 <= j < k ==> !is_generation_candidate(#[trigger] jobs@[j], readable@[j]),
            best matches Some(b) ==> b < k && is_generation_candidate(jobs@[b as int], readable@[b as int])
                && (forall|j: int| 0 <= j < k && is_generation_candidate(#[trigger] jobs@[j], readable@[j])
                    ==> !earlier_opt(jobs@[b as int].completed_at, jobs@[j].completed_at))
                && (forall|j: int| b < j < k && is_generation_candidate(#[trigger] jobs@[j], readable@[j])
                    ==> earlier_opt(jobs@[j].completed_at, jobs@[b as int].completed_at)),
        decreases jobs@.len() - k,
    {
        let candidate = matches!(jobs[k].status, JobStatus::Completed) && jobs[k].result.is_some() && readable[k];
        if candidate {
            match best {
                None => {
                    best = Some(k);
                },
                Some(b) => {
                    if !is_before_opt(&jobs[k].completed_at, &jobs[b].completed_at) {
                        best = Some(k);
                    }
                },
            }
        }
        k = k + 1;
    }
    best
}

/// What the service learned at the last step of creating a playlist from Spotify.
#[derive(Debug)]
pub enum CreateEvent {
    /// The store was searched for the Spotify ID.
    Found(Option<Playlist>),
    /// Spotify was asked for the playlist.
    Fetched(Option<Playlist>),
    /// The fetched playlist was stored; this is the stored playlist.
    Stored(Playlist),
    /// A job to fetch the stored playlist's tracks was started.
    RefetchStarted(Playlist, Job),
}

/// What the service does next.
#[derive(Debug)]
pub enum CreateStep {
    /// Ask Spotify for the playlist.
    Fetch,
    /// Store this playlist.
    Store(Playlist),
    /// Start a job that fetches this stored playlist's tracks.
    StartRefetch(Playlist),
    /// Answer with the playlist, if any, and the job started, if any.
    Done(Option<Playlist>, Option<Job>),
}

/// The next step of creating a playlist from Spotify: a stored playlist with the same
/// Spotify ID is the answer; else the playlist is fetched, and stored when Spotify has it.
/// A `partial` creation fetches it without tracks and then starts a job that fetches them.
pub fn create_step(partial: bool, event: CreateEvent) -> (r: CreateStep)
    ensures
        match event {
            CreateEvent::Found(Some(p)) => r == CreateStep::Done(Some(p), None),
            CreateEvent::Found(None) => r == CreateStep::Fetch,
            CreateEvent::Fetched(None) => r == CreateStep::Done(None, None),
            CreateEvent::Fetched(Some(p)) => r == CreateStep::Store(p),
            CreateEvent::Stored(p) => if partial {
                r == CreateStep::StartRefetch(p)
            } else {
                r == CreateStep::Done(Some(p), None)
            },
            CreateEvent::RefetchStarted(p, j) => r == CreateStep::Done(Some(p), Some(j)),
        },
{
    match event {
        CreateEvent::Found(Some(p)) => CreateStep::Done(Some(p), None),
        CreateEvent::Found(None) => CreateStep::Fetch,
        CreateEvent::Fetched(None) => CreateStep::Done(None, None),
        CreateEvent::Fetched(Some(p)) => CreateStep::Store(p),
        CreateEvent::Stored(p) => {
            if partial {
                CreateStep::StartRefetch(p)
            } else {
                CreateStep::Done(Some(p), None)
            }
        },
        CreateEvent::RefetchStarted(p, j) => CreateStep::Done(Some(p), Some(j)),
    }
}

/// The stored playlist a job is started for: `Playlist with ID <id> not found` when there
/// is none.
pub fn require_playlist(found: Option<Playlist>, id: &PlaylistId) -> (r: Result<Playlist, String>)
    ensures
        match found {
            Some(p) => r == Ok::<Playlist, String>(p),
            None => (r matches Err(m) && m@ == "Playlist with ID "@ + uuid_text(id@) + " not found"@),
        },
{
    match found {
        Some(p) => Ok(p),
        None => {
            let mut m = String::from_str("Playlist with ID ");
            let t = id.to_string();
            m.append(t.as_str());
            m.append(" not found");
            Err(m)
        },
    }
}

} // verus!
