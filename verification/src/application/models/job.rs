//! Job identifiers held as their UUID text.

use crate::ids::{new_uuid_v4, parse_uuid, uuid_parse, uuid_to_string, uuid_text};
use crate::text::{chars_of, trim, trim_chars};
use vstd::prelude::*;

verus! {

/// Why a text is not a job ID.
#[derive(Debug, Clone, PartialEq, Eq)]
pub enum JobIdError {
    /// The text is empty or only whitespace.
    Empty,
    /// The text is not a UUID; the `uuid` crate's message.
    InvalidUuid(String),
}

/// Job ID wrapper for type safety: the text of a UUID.
#[derive(Debug, Clone, PartialEq, Eq, Hash)]
pub struct JobId(String);

impl View for JobId {
    type V = Seq<char>;

    closed spec fn view(&self) -> Seq<char> {
        self.0@
    }
}

/// A job ID's text is not blank and names a UUID.
pub open spec fn is_job_id_text(s: Seq<char>) -> bool {
    trim(s).len() > 0 && uuid_parse(s) is Some
}

impl JobId {
    /// Every job ID names a UUID.
    pub open spec fn wf(&self) -> bool {
        is_job_id_text(self@)
    }

    /// A new random job ID.
    pub fn new() -> (r: Self)
        ensures
            r@.len() == 36,
            uuid_parse(r@) is Some,
            r@ == uuid_text(uuid_parse(r@)->0),
    {
        let value = new_uuid_v4();
        JobId(uuid_to_string(value))
    }

    /// A job ID from its text: refused when blank or not a UUID.
    pub fn from_string(id: String) -> (r: Result<Self, JobIdError>)
        ensures
            match r {
                Ok(j) => j@ == id@ && is_job_id_text(id@),
                Err(JobIdError::Empty) => trim(id@).len() == 0,
                Err(JobIdError::InvalidUuid(_)) => trim(id@).len() > 0 && uuid_parse(id@) is None,
            },
    {
        let v = chars_of(id.as_str());
        if trim_chars(&v).len() == 0 {
            return Err(JobIdError::Empty);
        }
        match parse_uuid(id.as_str()) {
            Ok(_) => Ok(JobId(id)),
            Err(message) => Err(JobIdError::InvalidUuid(message)),
        }
    }

    /// A job ID from its text, as `FromStr` reads it.
    pub fn from_str(s: &str) -> (r: Result<Self, JobIdError>)
        ensures
            match r {
                Ok(j) => j@ == s@ && is_job_id_text(s@),
                Err(JobIdError::Empty) => trim(s@).len() == 0,
                Err(JobIdError::InvalidUuid(_)) => trim(s@).len() > 0 && uuid_parse(s@) is None,
            },
    {
        Self::from_string(String::from_str(s))
    }

    /// The job ID for a UUID.
    pub fn from_uuid(value: u128) -> (r: Self)
        ensures
            r@ == uuid_text(value),
            uuid_parse(r@) == Some(value),
    {
        JobId(uuid_to_string(value))
    }

    /// The ID as a string slice.
    pub fn as_str(&self) -> (r: &str)
        ensures
            r@ == self@,
    {
        self.0.as_str()
    }

    /// The ID as a String.
    pub fn into_string(self) -> (r: String)
        ensures
            r@ == self@,
    {
        self.0
    }

    /// The UUID that the ID names.
    pub fn as_uuid(&self) -> (r: Result<u128, String>)
        ensures
            (r is Ok) == (uuid_parse(self@) is Some),
            r matches Ok(v) ==> uuid_parse(self@) == Some(v),
    {
        parse_uuid(self.0.as_str())
    }

    /// The ID as text, as its `Display` form writes it.
    pub fn to_string(&self) -> (r: String)
        ensures
            r@ == self@,
    {
        String::from_str(self.0.as_str())
    }
}

impl Default for JobId {
    /// A new random job ID.
    fn default() -> (r: Self)
        ensures
            uuid_parse(r@) is Some,
    {
        Self::new()
    }
}

impl std::str::FromStr for JobId {
    type Err = JobIdError;

    fn from_str(s: &str) -> (r: Result<Self, Self::Err>)
        ensures
            match r {
                Ok(j) => j@ == s@ && is_job_id_text(s@),
                Err(JobIdError::Empty) => trim(s@).len() == 0,
                Err(JobIdError::InvalidUuid(_)) => trim(s@).len() > 0 && uuid_parse(s@) is None,
            },
    {
        JobId::from_str(s)
    }
}

} // verus!
