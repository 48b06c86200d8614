//! Song cards and playlist IDs read from links, as the card service fetches them.

use crate::infrastructure::spotify::mapper::{artist_text, before_dash, track_positions, TrackParts};
use crate::text::{
    all_ascii_alnum,
    after_last, before_first, chars_of, contains_infix, first_piece, has_infix, join_strings, last_piece,
    string_of,
};
use vstd::prelude::*;

verus! {

/// A song card with all necessary information.
#[derive(Debug, Clone, PartialEq)]
pub struct SongCard {
    /// Song title
    pub title: String,
    /// Artist name(s) comma-separated
    pub artist: String,
    /// Release year
    pub year: String,
    /// Full Spotify URL for the song
    pub spotify_url: String,
}

/// The year text of a card: the release date up to its first `-`, `Unknown` without a date.
pub open spec fn card_year_text(date: Option<String>) -> Seq<char> {
    match date {
        Some(d) => before_first(d@, '-'),
        None => "Unknown"@,
    }
}

/// The card for a Spotify track: a missing release date gives the year `Unknown`, a missing
/// link an empty link.
pub fn song_card_from_parts(parts: TrackParts) -> (r: SongCard)
    ensures
        r.title == parts.name,
        r.artist@ == artist_text(parts),
        r.year@ == card_year_text(parts.release_date),
        r.spotify_url@ == (match parts.spotify_url {
            Some(u) => u@,
            None => Seq::empty(),
        }),
{
    let artist = join_strings(&parts.artist_names, ", ");
    let year = match &parts.release_date {
        Some(d) => before_dash(d),
        None => {
            let unknown = String::from_str("Unknown");
            proof {
                reveal_strlit("Unknown");
            }
            assert(before_first("Unknown"@, '-') == "Unknown"@) by {
                reveal_strlit("Unknown");
                crate::text::lemma_before_first_absent("Unknown"@, '-');
            };
            unknown
        },
    };
    let spotify_url = match parts.spotify_url {
        Some(u) => u,
        None => String::new(),
    };
    SongCard { title: parts.name, artist, year, spotify_url }
}

/// `c` is the card of the track parts `p`, taking whatever Spotify gives.
pub open spec fn is_song_card_of(c: SongCard, p: TrackParts) -> bool {
    &&& c.title == p.name
    &&& c.artist@ == artist_text(p)
    &&& c.year@ == card_year_text(p.release_date)
    &&& c.spotify_url@ == match p.spotify_url {
        Some(u) => u@,
        None => Seq::empty(),
    }
}

/// The cards of a playlist's items: items that are not tracks (`None`) are skipped and
/// every track gives a card, in order.
pub fn song_cards_from_items(items: &Vec<Option<TrackParts>>) -> (r: Vec<SongCard>)
    ensures
        r@.len() == track_positions(items@).len(),
        forall|k: int| 0 <= k < r@.len() ==> is_song_card_of(#[trigger] r@[k], items@[track_positions(items@)[k]]->0),
{
    let mut cards: Vec<SongCard> = Vec::new();
    let mut i: usize = 0;
    while i < items.len()
        invariant
            i <= items@.len(),
            cards@.len() == track_positions(items@.take(i as int)).len(),
            forall|k: int| 0 <= k < cards@.len() ==>
                is_song_card_of(#[trigger] cards@[k], items@[track_positions(items@.take(i as int))[k]]->0),
            forall|k: int| 0 <= k < track_positions(items@.take(i as int)).len()
                ==> 0 <= #[trigger] track_positions(items@.take(i as int))[k] < i,
        decreases items@.len() - i,
    {
        let ghost before = track_positions(items@.take(i as int));
        assert(items@.take(i + 1).drop_last() =~= items@.take(i as int));
        assert(items@.take(i + 1).last() == items@[i as int]);
        match &items[i] {
            None => {},
            Some(p) => cards.push(song_card_from_parts(p.duplicate())),
        }
        proof {
            let after = track_positions(items@.take(i + 1));
            assert forall|k: int| 0 <= k < before.len() implies after[k] == #[trigger] before[k] by {}
        }
        i = i + 1;
    }
    assert(items@.take(items@.len() as int) =~= items@);
    cards
}

/// Calls `rspotify::model::PlaylistId::from_id`, whose source accepts the ID exactly when
/// every character is an ASCII letter or digit (`char::is_ascii_alphanumeric`), the empty
/// ID included. On refusal the `IdError`'s message is handed back, of which nothing is
/// claimed.
#[verifier::external_body]
pub(crate) fn check_spotify_playlist_id(id: &str) -> (r: Result<(), String>)
    ensures
        (r is Ok) == all_ascii_alnum(id@),
{
    match rspotify::model::PlaylistId::from_id(id) {
        Ok(_) => Ok(()),
        Err(e) => Err(e.to_string()),
    }
}

/// The text of the ID that Spotify is asked for: the ID itself when Spotify accepts it
/// as a playlist ID (only ASCII letters and digits), else Spotify's error message.
pub fn spotify_playlist_id(id: &PlaylistId) -> (r: Result<String, String>)
    ensures
        (r is Ok) == all_ascii_alnum(id@),
        r matches Ok(s) ==> s@ == id@,
{
    match check_spotify_playlist_id(id.as_str()) {
        Ok(()) => Ok(id.to_string()),
        Err(e) => Err(e),
    }
}

/// What `extract_playlist_id_from_url` reads: the last `/` piece up to its first `?`.
pub open spec fn url_playlist_id(url: Seq<char>) -> Result<Seq<char>, Seq<char>> {
    if url.len() == 0 {
        Err("URL cannot be empty"@)
    } else if after_last(url, '/').len() == 0 {
        Err("Invalid playlist URL: missing ID"@)
    } else if before_first(after_last(url, '/'), '?').len() == 0 {
        Err("Invalid playlist URL: empty ID"@)
    } else {
        Ok(before_first(after_last(url, '/'), '?'))
    }
}

/// What `PlaylistId::from_str` reads: the ID in a playlist link, else the text itself.
pub open spec fn playlist_id_text(s: Seq<char>) -> Result<Seq<char>, Seq<char>> {
    if s.len() == 0 {
        Err("Playlist ID cannot be empty"@)
    } else if has_infix(s, "spotify.com/playlist/"@) {
        url_playlist_id(s)
    } else {
        Ok(s)
    }
}

/// A Spotify playlist ID, read from a playlist link or taken as given.
#[derive(Debug, Clone, PartialEq)]
pub struct PlaylistId(String);

impl View for PlaylistId {
    type V = Seq<char>;

    closed spec fn view(&self) -> Seq<char> {
        self.0@
    }
}

impl PlaylistId {
    /// The ID as a string slice.
    pub fn as_str(&self) -> (r: &str)
        ensures
            r@ == self@,
    {
        self.0.as_str()
    }

    /// The ID as text, as its `Display` form writes it.
    pub fn to_string(&self) -> (r: String)
        ensures
            r@ == self@,
    {
        String::from_str(self.0.as_str())
    }

    /// Reads the ID from a playlist link (containing `spotify.com/playlist/`), or takes the
    /// text as the ID.
    pub fn from_str(s: &str) -> (r: Result<Self, String>)
        ensures
            match playlist_id_text(s@) {
                Ok(id) => r matches Ok(p) && p@ == id,
                Err(m) => r matches Err(e) && e@ == m,
            },
    {
        let v = chars_of(s);
        if v.len() == 0 {
            return Err(String::from_str("Playlist ID cannot be empty"));
        }
        let marker = chars_of("spotify.com/playlist/");
        if contains_infix(&v, &marker) {
            match Self::extract_playlist_id_from_url(s) {
                Ok(id) => Ok(PlaylistId(id)),
                Err(e) => Err(e),
            }
        } else {
            Ok(PlaylistId(String::from_str(s)))
        }
    }

    /// The ID in a playlist link: the last `/` piece, up to its first `?`.
    pub fn extract_playlist_id_from_url(url: &str) -> (r: Result<String, String>)
        ensures
            match url_playlist_id(url@) {
                Ok(id) => r matches Ok(t) && t@ == id,
                Err(m) => r matches Err(e) && e@ == m,
            },
    {
        let v = chars_of(url);
        if v.len() == 0 {
            return Err(String::from_str("URL cannot be empty"));
        }
        let last = last_piece(&v, '/');
        if last.len() == 0 {
            return Err(String::from_str("Invalid playlist URL: missing ID"));
        }
        let id = first_piece(&last, '?');
        if id.len() == 0 {
            return Err(String::from_str("Invalid playlist URL: empty ID"));
        }
        Ok(string_of(&id))
    }
}

impl std::str::FromStr for PlaylistId {
    type Err = String;

    fn from_str(s: &str) -> (r: Result<Self, Self::Err>)
        ensures
            match playlist_id_text(s@) {
                Ok(id) => r matches Ok(p) && p@ == id,
                Err(m) => r matches Err(e) && e@ == m,
            },
    {
        PlaylistId::from_str(s)
    }
}

} // verus!
