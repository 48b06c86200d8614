//! Spotify tracks, read into plain parts, turned into cards.

use crate::application::models::playlist::{playlist_id_error_message, playlist_id_parse};
use crate::application::models::{Playlist, PlaylistId, Track};
use crate::text::{before_first, chars_of, first_piece, join_strings, joined, string_of, string_views};
use vstd::prelude::*;

verus! {

/// What the card generator reads of a Spotify track.
#[derive(Debug, Clone)]
pub struct TrackParts {
    /// The track's name.
    pub name: String,
    /// The names of its artists, in order.
    pub artist_names: Vec<String>,
    /// The album's release date, `YYYY-MM-DD` or `YYYY`, when Spotify gives one.
    pub release_date: Option<String>,
    /// The track's `spotify` link, when Spotify gives one.
    pub spotify_url: Option<String>,
    /// The link of the album's first cover image, when there is one.
    pub first_image_url: Option<String>,
}

impl TrackParts {
    /// A copy of the parts.
    pub fn duplicate(&self) -> (r: Self)
        ensures
            r.name == self.name,
            r.artist_names@ == self.artist_names@,
            r.release_date == self.release_date,
            r.spotify_url == self.spotify_url,
            r.first_image_url == self.first_image_url,
    {
        let mut names: Vec<String> = Vec::new();
        let mut i: usize = 0;
        while i < self.artist_names.len()
            invariant
                i <= self.artist_names@.len(),
                names@ == self.artist_names@.take(i as int),
            decreases self.artist_names@.len() - i,
        {
            names.push(self.artist_names[i].clone());
            assert(self.artist_names@.take(i + 1) == self.artist_names@.take(i as int).push(self.artist_names@[i as int]));
            i = i + 1;
        }
        assert(self.artist_names@.take(self.artist_names@.len() as int) == self.artist_names@);
        TrackParts {
            name: self.name.clone(),
            artist_names: names,
            release_date: match &self.release_date {
                Some(d) => Some(d.clone()),
                None => None,
            },
            spotify_url: match &self.spotify_url {
                Some(u) => Some(u.clone()),
                None => None,
            },
            first_image_url: match &self.first_image_url {
                Some(u) => Some(u.clone()),
                None => None,
            },
        }
    }
}

/// The artists, joined with `, `.
pub open spec fn artist_text(parts: TrackParts) -> Seq<char> {
    joined(string_views(parts.artist_names@), ", "@)
}

/// The first `-` piece of a text.
pub fn before_dash(s: &String) -> (r: String)
    ensures
        r@ == before_first(s@, '-'),
{
    let v = chars_of(s.as_str());
    string_of(&first_piece(&v, '-'))
}

/// The card for a track: its year is the part of the release date before the first `-`;
/// a track without a release date or without a link has none.
pub fn track_from_parts(parts: TrackParts) -> (r: Result<Track, String>)
    ensures
        match parts.release_date {
            None => r matches Err(m) && m@ == "No year found"@,
            Some(d) => match parts.spotify_url {
                None => r matches Err(m) && m@ == "No url found"@,
                Some(u) => r matches Ok(t) && t.title == parts.name && t.artist@ == artist_text(parts)
                    && t.year@ == before_first(d@, '-') && t.spotify_url == u,
            },
        },
{
    let artist = join_strings(&parts.artist_names, ", ");
    let year = match &parts.release_date {
        None => return Err(String::from_str("No year found")),
        Some(d) => before_dash(d),
    };
    match parts.spotify_url {
        None => Err(String::from_str("No url found")),
        Some(u) => Ok(Track { title: parts.name, artist, year, spotify_url: u }),
    }
}

/// The error of converting a track's parts, if it does not convert.
pub open spec fn track_error(p: TrackParts) -> Option<Seq<char>> {
    if p.release_date is None {
        Some("No year found"@)
    } else if p.spotify_url is None {
        Some("No url found"@)
    } else {
        None
    }
}

/// The error of the first track among the items that does not convert; items that are
/// not tracks (`None`) are passed over.
pub open spec fn first_track_error(items: Seq<Option<TrackParts>>) -> Option<Seq<char>>
    decreases items.len(),
{
    if items.len() == 0 {
        None
    } else {
        match first_track_error(items.drop_last()) {
            Some(e) => Some(e),
            None => match items.last() {
                Some(p) => track_error(p),
                None => None,
            },
        }
    }
}

/// The positions of the items that are tracks, in order.
pub open spec fn track_positions(items: Seq<Option<TrackParts>>) -> Seq<int>
    decreases items.len(),
{
    if items.len() == 0 {
        Seq::empty()
    } else {
        let rest = track_positions(items.drop_last());
        if items.last() is Some {
            rest.push(items.len() - 1)
        } else {
            rest
        }
    }
}

/// `t` is the card of the track parts `p`.
pub open spec fn card_of_parts(t: Track, p: TrackParts) -> bool {
    &&& p.release_date is Some
    &&& p.spotify_url is Some
    &&& t.title == p.name
    &&& t.artist@ == artist_text(p)
    &&& t.year@ == before_first(p.release_date->0@, '-')
    &&& t.spotify_url == p.spotify_url->0
}

/// The playlist of a Spotify playlist: its items are read in order, items that are not
/// tracks (`None`) are skipped and the first track that does not convert fails the whole;
/// then the playlist ID is read from the ID text Spotify gives.
pub fn map_full_playlist(id_text: &str, name: String, items: &Vec<Option<TrackParts>>) -> (r: Result<Playlist, String>)
    ensures
        match first_track_error(items@) {
            Some(e) => (r matches Err(m) && m@ == e),
            None => match playlist_id_parse(id_text@) {
                Err(e) => (r matches Err(m) && m@ == playlist_id_error_message(e)),
                Ok(id) => (r matches Ok(pl) && pl.id@ == id && pl.name == name
                    && pl.tracks@.len() == track_positions(items@).len()
                    && forall|k: int| 0 <= k < pl.tracks@.len() ==>
                        card_of_parts(#[trigger] pl.tracks@[k], items@[track_positions(items@)[k]]->0)),
            },
        },
{
    let mut tracks: Vec<Track> = Vec::new();
    let mut i: usize = 0;
    while i < items.len()
        invariant
            i <= items@.len(),
            first_track_error(items@.take(i as int)) is None,
            tracks@.len() == track_positions(items@.take(i as int)).len(),
            forall|k: int| 0 <= k < tracks@.len() ==>
                card_of_parts(#[trigger] tracks@[k], items@[track_positions(items@.take(i as int))[k]]->0),
            forall|k: int| 0 <= k < track_positions(items@.take(i as int)).len()
                ==> 0 <= #[trigger] track_positions(items@.take(i as int))[k] < i,
        decreases items@.len() - i,
    {
        let ghost before = track_positions(items@.take(i as int));
        assert(items@.take(i + 1).drop_last() =~= items@.take(i as int));
        assert(items@.take(i + 1).last() == items@[i as int]);
        match &items[i] {
            None => {},
            Some(p) => {
                match track_from_parts(p.duplicate()) {
                    Ok(t) => tracks.push(t),
                    Err(m) => {
                        proof {
                            lemma_first_error_persists(items@, i as int + 1);
                        }
                        return Err(m);
                    },
                }
            },
        }
        proof {
            let after = track_positions(items@.take(i + 1));
            assert forall|k: int| 0 <= k < before.len() implies after[k] == #[trigger] before[k] by {}
        }
        i = i + 1;
    }
    assert(items@.take(items@.len() as int) =~= items@);
    match PlaylistId::from_str(id_text) {
        Ok(id) => Ok(Playlist { id, name, tracks }),
        Err(e) => Err(String::from_str(e.message())),
    }
}

/// Once a prefix of the items has a failing track, every longer prefix fails with the
/// same error.
proof fn lemma_first_error_persists(items: Seq<Option<TrackParts>>, n: int)
    requires
        0 <= n <= items.len(),
        first_track_error(items.take(n)) is Some,
    ensures
        first_track_error(items) == first_track_error(items.take(n)),
    decreases items.len() - n,
{
    if n < items.len() {
        assert(items.take(n + 1).drop_last() =~= items.take(n));
        lemma_first_error_persists(items, n + 1);
    } else {
        assert(items.take(n) =~= items);
    }
}

} // verus!
