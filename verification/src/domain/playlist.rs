//! Playlists as the service stores them, with their tracks and Spotify link.

use crate::ids::{new_uuid_v4, parse_uuid, uuid_parse, uuid_text, uuid_to_string};
use crate::text::{all_alphanumeric, all_alphanumeric_chars, chars_of};
use crate::time::Timestamp;
use vstd::prelude::*;

verus! {

/// A playlist's identifier in the store: a UUID.
#[derive(Debug, Clone, Copy, PartialEq, Eq, Structural)]
pub struct PlaylistId(u128);

impl View for PlaylistId {
    type V = u128;

    closed spec fn view(&self) -> u128 {
        self.0
    }
}

impl PlaylistId {
    /// A new random playlist ID; this never fails.
    pub fn new() -> (r: Result<Self, String>)
        ensures
            r is Ok,
    {
        Ok(PlaylistId(new_uuid_v4()))
    }

    /// The playlist ID for a UUID.
    pub fn from_uuid(value: u128) -> (r: Self)
        ensures
            r@ == value,
    {
        PlaylistId(value)
    }

    /// The UUID of this playlist ID.
    pub fn as_uuid(&self) -> (r: u128)
        ensures
            r == self@,
    {
        self.0
    }

    /// Reads a playlist ID from the text of a UUID; the `uuid` crate's message when it is none.
    pub fn from_str(s: &str) -> (r: Result<Self, String>)
        ensures
            (r is Ok) == (uuid_parse(s@) is Some),
            r matches Ok(p) ==> uuid_parse(s@) == Some(p@),
    {
        match parse_uuid(s) {
            Ok(v) => Ok(PlaylistId(v)),
            Err(e) => Err(e),
        }
    }

    /// The ID's hyphenated UUID text, as its `Display` form writes it.
    pub fn to_string(&self) -> (r: String)
        ensures
            r@ == uuid_text(self@),
            uuid_parse(r@) == Some(self@),
    {
        uuid_to_string(self.0)
    }
}

impl std::str::FromStr for PlaylistId {
    type Err = String;

    fn from_str(s: &str) -> (r: Result<Self, Self::Err>)
        ensures
            (r is Ok) == (uuid_parse(s@) is Some),
            r matches Ok(p) ==> uuid_parse(s@) == Some(p@),
    {
        PlaylistId::from_str(s)
    }
}

/// A playlist's Spotify ID: a non-empty run of alphanumeric characters.
#[derive(Debug, Clone, PartialEq, Eq, Hash)]
pub struct SpotifyId(String);

impl View for SpotifyId {
    type V = Seq<char>;

    closed spec fn view(&self) -> Seq<char> {
        self.0@
    }
}

impl SpotifyId {
    /// The ID is a non-empty run of alphanumeric characters.
    pub open spec fn wf(&self) -> bool {
        self@.len() > 0 && all_alphanumeric(self@)
    }

    /// Accepts a non-empty run of alphanumeric characters; else `Invalid Spotify ID: <s>`.
    pub fn from_str(s: &str) -> (r: Result<Self, String>)
        ensures
            match r {
                Ok(id) => id@ == s@ && id.wf(),
                Err(m) => !(s@.len() > 0 && all_alphanumeric(s@)) && m@ == "Invalid Spotify ID: "@ + s@,
            },
    {
        let v = chars_of(s);
        if v.len() > 0 && all_alphanumeric_chars(&v) {
            Ok(SpotifyId(String::from_str(s)))
        } else {
            let mut m = String::from_str("Invalid Spotify ID: ");
            m.append(s);
            Err(m)
        }
    }

    /// The ID as text, as its `Display` form writes it.
    pub fn to_string(&self) -> (r: String)
        ensures
            r@ == self@,
    {
        String::from_str(self.0.as_str())
    }

    /// A copy of the ID.
    pub fn duplicate(&self) -> (r: Self)
        ensures
            r@ == self@,
    {
        SpotifyId(self.0.clone())
    }
}

impl std::str::FromStr for SpotifyId {
    type Err = String;

    fn from_str(s: &str) -> (r: Result<Self, Self::Err>)
        ensures
            match r {
                Ok(id) => id@ == s@ && id.wf(),
                Err(m) => !(s@.len() > 0 && all_alphanumeric(s@)) && m@ == "Invalid Spotify ID: "@ + s@,
            },
    {
        SpotifyId::from_str(s)
    }
}

/// A Spotify playlist with its tracks, as the service stores it.
#[derive(Debug, Clone)]
pub struct Playlist {
    pub id: PlaylistId,
    pub spotify_id: Option<SpotifyId>,
    pub name: String,
    pub tracks: Vec<Track>,
    pub created_at: Option<Timestamp>,
    pub updated_at: Option<Timestamp>,
}

impl Playlist {
    /// The number of tracks.
    pub fn track_count(&self) -> (r: usize)
        ensures
            r == self.tracks@.len(),
    {
        self.tracks.len()
    }

    /// Whether the playlist has no tracks.
    pub fn is_empty(&self) -> (r: bool)
        ensures
            r == (self.tracks@.len() == 0),
    {
        self.tracks.len() == 0
    }
}

/// A song card with all necessary information.
#[derive(Debug, Clone, PartialEq)]
pub struct Track {
    pub title: String,
    pub artist: String,
    pub year: i32,
    pub spotify_url: String,
    pub album_cover_url: Option<String>,
}

} // verus!
