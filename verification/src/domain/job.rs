//! Background jobs: their identity, state, kind and payload.

use crate::ids::{new_uuid_v4, parse_uuid, uuid_parse, uuid_text, uuid_to_string};
use crate::time::Timestamp;
use vstd::prelude::*;

verus! {

/// A job's identifier: a UUID.
#[derive(Debug, Clone, Copy, PartialEq, Eq, Hash, Structural)]
pub struct JobId(u128);

impl View for JobId {
    type V = u128;

    closed spec fn view(&self) -> u128 {
        self.0
    }
}

impl JobId {
    /// A new random job ID.
    pub fn new() -> (r: Self) {
        JobId(new_uuid_v4())
    }

    /// The job ID for a UUID.
    pub fn from_uuid(value: u128) -> (r: Self)
        ensures
            r@ == value,
    {
        JobId(value)
    }

    /// The UUID of this job ID.
    pub fn as_uuid(&self) -> (r: u128)
        ensures
            r == self@,
    {
        self.0
    }

    /// Reads a job ID from the text of a UUID; the `uuid` crate's message when it is none.
    pub fn from_str(s: &str) -> (r: Result<Self, String>)
        ensures
            (r is Ok) == (uuid_parse(s@) is Some),
            r matches Ok(j) ==> uuid_parse(s@) == Some(j@),
    {
        match parse_uuid(s) {
            Ok(v) => Ok(JobId(v)),
            Err(e) => Err(e),
        }
    }

    /// The ID's hyphenated UUID text, as its `Display` form writes it.
    pub fn to_string(&self) -> (r: String)
        ensures
            r@ == uuid_text(self@),
            uuid_parse(r@) == Some(self@),
    {
        uuid_to_string(self.0)
    }
}

impl Default for JobId {
    /// The nil UUID.
    fn default() -> (r: Self)
        ensures
            r@ == 0,
    {
        JobId(0)
    }
}

impl std::str::FromStr for JobId {
    type Err = String;

    fn from_str(s: &str) -> (r: Result<Self, Self::Err>)
        ensures
            (r is Ok) == (uuid_parse(s@) is Some),
            r matches Ok(j) ==> uuid_parse(s@) == Some(j@),
    {
        JobId::from_str(s)
    }
}

/// The state of a job.
#[derive(Debug, Clone, Copy, PartialEq, Eq, Structural)]
pub enum JobStatus {
    /// pending
    Pending,
    /// processing
    Processing,
    /// completed
    Completed,
    /// failed
    Failed,
}

impl JobStatus {
    /// The status as text, as its `Display` form writes it.
    pub fn to_string(&self) -> (r: &'static str)
        ensures
            r@ == job_status_text(*self),
    {
        match self {
            JobStatus::Pending => "pending",
            JobStatus::Processing => "processing",
            JobStatus::Completed => "completed",
            JobStatus::Failed => "failed",
        }
    }
}

/// The text of each status.
pub open spec fn job_status_text(s: JobStatus) -> Seq<char> {
    match s {
        JobStatus::Pending => "pending"@,
        JobStatus::Processing => "processing"@,
        JobStatus::Completed => "completed"@,
        JobStatus::Failed => "failed"@,
    }
}

/// What a job does.
#[derive(Debug, Clone, Copy, PartialEq, Eq, Structural)]
pub enum JobKind {
    GeneratePdfs,
    RefetchPlaylist,
}

/// A background job: its task as a JSON payload and, once done, its output as JSON.
#[derive(Debug, Clone)]
pub struct Job {
    pub id: JobId,
    pub status: JobStatus,
    pub created_at: Timestamp,
    pub completed_at: Option<Timestamp>,
    pub kind: JobKind,
    pub payload: String,
    pub result: Option<String>,
}

impl Job {
    /// A pending job with a new random ID, created now.
    pub fn new(kind: JobKind, payload: String) -> (r: Self)
        ensures
            r.status == JobStatus::Pending,
            r.completed_at is None,
            r.kind == kind,
            r.payload == payload,
            r.result is None,
    {
        Self::created(JobId::new(), Timestamp::now(), kind, payload)
    }

    /// A pending job with the given ID and creation time.
    pub fn created(id: JobId, created_at: Timestamp, kind: JobKind, payload: String) -> (r: Self)
        ensures
            r.id == id,
            r.created_at == created_at,
            r.status == JobStatus::Pending,
            r.completed_at is None,
            r.kind == kind,
            r.payload == payload,
            r.result is None,
    {
        Job { id, status: JobStatus::Pending, created_at, completed_at: None, kind, payload, result: None }
    }
}

} // verus!
