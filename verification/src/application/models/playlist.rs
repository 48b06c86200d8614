//! Playlists and tracks as the card generator sees them, with Spotify playlist IDs.

use crate::text::{
    all_white_space, lemma_trim_surrounded,
    char_is_alphanumeric, has_prefix, is_white_space, lemma_after_last_tail, lemma_alphanumeric_lacks,
    lemma_alphanumeric_not_white_space, lemma_before_first_absent, lemma_no_infix, lemma_trim_nonempty,
    lemma_trim_unchanged, lemma_concat_lacks,
    after_last, all_alphanumeric, all_alphanumeric_chars, before_first, chars_of, contains_char,
    contains_infix, first_piece, has_infix, last_piece, string_of, trim, trim_chars, utf8_len, utf8_len_is,
};
use vstd::prelude::*;

verus! {

/// Why a text is not a Spotify playlist ID.
#[derive(Debug, Clone, Copy, PartialEq, Eq, Structural)]
pub enum PlaylistIdError {
    /// The ID is empty or only whitespace.
    Empty,
    /// The ID is not 22 bytes of alphanumeric characters.
    InvalidFormat,
    /// The text to read is empty or only whitespace.
    EmptyInput,
    /// The text is neither a playlist link, a playlist URI nor a bare ID.
    UnrecognizedFormat,
    /// Nothing is left of the ID once the link or URI is taken off.
    EmptyAfterParsing,
}

impl PlaylistIdError {
    /// The error's message.
    pub fn message(&self) -> (r: &'static str)
        ensures
            r@ == playlist_id_error_message(*self),
    {
        match self {
            PlaylistIdError::Empty => "PlaylistId cannot be empty",
            PlaylistIdError::InvalidFormat => "Invalid Spotify playlist ID format",
            PlaylistIdError::EmptyInput => "Empty playlist ID",
            PlaylistIdError::UnrecognizedFormat => "Invalid Spotify playlist format",
            PlaylistIdError::EmptyAfterParsing => "Empty playlist ID after parsing",
        }
    }
}

/// The message of each error.
pub open spec fn playlist_id_error_message(e: PlaylistIdError) -> Seq<char> {
    match e {
        PlaylistIdError::Empty => "PlaylistId cannot be empty"@,
        PlaylistIdError::InvalidFormat => "Invalid Spotify playlist ID format"@,
        PlaylistIdError::EmptyInput => "Empty playlist ID"@,
        PlaylistIdError::UnrecognizedFormat => "Invalid Spotify playlist format"@,
        PlaylistIdError::EmptyAfterParsing => "Empty playlist ID after parsing"@,
    }
}

/// A Spotify playlist ID: 22 bytes (in UTF-8) of alphanumeric characters.
pub open spec fn is_playlist_id_text(s: Seq<char>) -> bool {
    utf8_len(s) == 22 && all_alphanumeric(s)
}

/// What `PlaylistId::new` makes of `s`.
pub open spec fn playlist_id_check(s: Seq<char>) -> Result<Seq<char>, PlaylistIdError> {
    if trim(s).len() == 0 {
        Err(PlaylistIdError::Empty)
    } else if !is_playlist_id_text(s) {
        Err(PlaylistIdError::InvalidFormat)
    } else {
        Ok(s)
    }
}

/// The piece of `playlist` links that marks one.
pub open spec fn playlist_link_marker() -> Seq<char> {
    "open.spotify.com/playlist/"@
}

/// The piece of playlist URIs that marks one.
pub open spec fn playlist_uri_marker() -> Seq<char> {
    "spotify:playlist:"@
}

/// The ID that the text `s` names, before it is checked: from a link the last `/` piece,
/// from a URI the last `:` piece, else `s` itself when it holds neither `/` nor `:`; in each
/// case up to the first `?`. `s` is trimmed first.
pub open spec fn playlist_id_candidate(s: Seq<char>) -> Result<Seq<char>, PlaylistIdError> {
    let t = trim(s);
    if t.len() == 0 {
        Err(PlaylistIdError::EmptyInput)
    } else {
        let id = if has_infix(t, playlist_link_marker()) {
            Some(before_first(after_last(t, '/'), '?'))
        } else if has_infix(t, playlist_uri_marker()) {
            Some(before_first(after_last(t, ':'), '?'))
        } else if !t.contains('/') && !t.contains(':') {
            Some(before_first(t, '?'))
        } else {
            None
        };
        match id {
            None => Err(PlaylistIdError::UnrecognizedFormat),
            Some(id) => if id.len() == 0 {
                Err(PlaylistIdError::EmptyAfterParsing)
            } else {
                Ok(id)
            },
        }
    }
}

/// What `PlaylistId::from_str` makes of `s`.
pub open spec fn playlist_id_parse(s: Seq<char>) -> Result<Seq<char>, PlaylistIdError> {
    match playlist_id_candidate(s) {
        Err(e) => Err(e),
        Ok(id) => playlist_id_check(id),
    }
}

/// Wrapper for a Spotify playlist ID.
#[derive(Debug, Clone, PartialEq, Eq)]
pub struct PlaylistId(pub String);

impl View for PlaylistId {
    type V = Seq<char>;

    open spec fn view(&self) -> Seq<char> {
        self.0@
    }
}

impl PlaylistId {
    /// Creates a PlaylistId, checking that it is 22 bytes of alphanumeric characters.
    pub fn new(id: String) -> (r: Result<Self, PlaylistIdError>)
        ensures
            match r {
                Ok(p) => playlist_id_check(id@) == Ok::<Seq<char>, PlaylistIdError>(p@),
                Err(e) => playlist_id_check(id@) == Err::<Seq<char>, PlaylistIdError>(e),
            },
    {
        let v = chars_of(id.as_str());
        let t = trim_chars(&v);
        if t.len() == 0 {
            return Err(PlaylistIdError::Empty);
        }
        if !utf8_len_is(&v, 22) || !all_alphanumeric_chars(&v) {
            return Err(PlaylistIdError::InvalidFormat);
        }
        Ok(PlaylistId(id))
    }

    /// Reads a playlist ID from a playlist link, a playlist URI or a bare ID.
    pub fn from_str(s: &str) -> (r: Result<Self, PlaylistIdError>)
        ensures
            match r {
                Ok(p) => playlist_id_parse(s@) == Ok::<Seq<char>, PlaylistIdError>(p@),
                Err(e) => playlist_id_parse(s@) == Err::<Seq<char>, PlaylistIdError>(e),
            },
    {
        let v = chars_of(s);
        let t = trim_chars(&v);
        if t.len() == 0 {
            return Err(PlaylistIdError::EmptyInput);
        }
        let link = chars_of("open.spotify.com/playlist/");
        let uri = chars_of("spotify:playlist:");
        let piece: Vec<char>;
        if contains_infix(&t, &link) {
            let last = last_piece(&t, '/');
            piece = first_piece(&last, '?');
        } else if contains_infix(&t, &uri) {
            let last = last_piece(&t, ':');
            piece = first_piece(&last, '?');
        } else if !contains_char(&t, '/') && !contains_char(&t, ':') {
            piece = first_piece(&t, '?');
        } else {
            return Err(PlaylistIdError::UnrecognizedFormat);
        }
        if piece.len() == 0 {
            return Err(PlaylistIdError::EmptyAfterParsing);
        }
        Self::new(string_of(&piece))
    }

    /// The ID as a string slice.
    pub fn as_str(&self) -> (r: &str)
        ensures
            r@ == self@,
    {
        self.0.as_str()
    }

    /// The ID as a String.
    pub fn into_string(self) -> (r: String)
        ensures
            r@ == self@,
    {
        self.0
    }

    /// A reference to the inner String.
    pub fn inner(&self) -> (r: &String)
        ensures
            r@ == self@,
    {
        &self.0
    }

    /// Whether this is a valid Spotify playlist ID.
    pub fn is_valid(&self) -> (r: bool)
        ensures
            r == is_playlist_id_text(self@),
    {
        let v = chars_of(self.0.as_str());
        utf8_len_is(&v, 22) && all_alphanumeric_chars(&v)
    }

    /// The link to this playlist on Spotify.
    pub fn to_spotify_url(&self) -> (r: String)
        ensures
            r@ == "https://open.spotify.com/playlist/"@ + self@,
    {
        let mut s = String::from_str("https://open.spotify.com/playlist/");
        s.append(self.0.as_str());
        s
    }

    /// The Spotify URI of this playlist.
    pub fn to_spotify_uri(&self) -> (r: String)
        ensures
            r@ == "spotify:playlist:"@ + self@,
    {
        let mut s = String::from_str("spotify:playlist:");
        s.append(self.0.as_str());
        s
    }

    /// The ID as text, as its `Display` form writes it.
    pub fn to_string(&self) -> (r: String)
        ensures
            r@ == self@,
    {
        String::from_str(self.0.as_str())
    }

    /// A copy of the ID.
    pub fn duplicate(&self) -> (r: Self)
        ensures
            r == *self,
    {
        PlaylistId(self.0.clone())
    }
}

impl std::str::FromStr for PlaylistId {
    type Err = PlaylistIdError;

    fn from_str(s: &str) -> (r: Result<Self, Self::Err>)
        ensures
            match r {
                Ok(p) => playlist_id_parse(s@) == Ok::<Seq<char>, PlaylistIdError>(p@),
                Err(e) => playlist_id_parse(s@) == Err::<Seq<char>, PlaylistIdError>(e),
            },
    {
        PlaylistId::from_str(s)
    }
}

/// A Spotify playlist with its tracks.
#[derive(Debug, Clone)]
pub struct Playlist {
    pub id: PlaylistId,
    pub name: String,
    pub tracks: Vec<Track>,
}

impl Playlist {
    /// A playlist without tracks.
    pub fn new(id: PlaylistId, name: String) -> (r: Self)
        ensures
            r.id == id,
            r.name == name,
            r.tracks@.len() == 0,
    {
        Playlist { id, name, tracks: Vec::new() }
    }

    /// A playlist with the given tracks.
    pub fn with_tracks(id: PlaylistId, name: String, tracks: Vec<Track>) -> (r: Self)
        ensures
            r.id == id,
            r.name == name,
            r.tracks == tracks,
    {
        Playlist { id, name, tracks }
    }

    /// The number of tracks.
    pub fn track_count(&self) -> (r: usize)
        ensures
            r == self.tracks@.len(),
    {
        self.tracks.len()
    }

    /// Whether the playlist has no tracks.
    pub fn is_empty(&self) -> (r: bool)
        ensures
            r == (self.tracks@.len() == 0),
    {
        self.tracks.len() == 0
    }

    /// The link to this playlist on Spotify.
    pub fn spotify_url(&self) -> (r: String)
        ensures
            r@ == "https://open.spotify.com/playlist/"@ + self.id@,
    {
        self.id.to_spotify_url()
    }

    /// The Spotify URI of this playlist.
    pub fn spotify_uri(&self) -> (r: String)
        ensures
            r@ == "spotify:playlist:"@ + self.id@,
    {
        self.id.to_spotify_uri()
    }
}

/// A song card: title, artist, release year and Spotify link.
#[derive(Debug, Clone, PartialEq)]
pub struct Track {
    pub title: String,
    pub artist: String,
    pub year: String,
    pub spotify_url: String,
}

/// A track has valid data when its title, artist and link are not empty.
pub open spec fn track_is_valid(t: Track) -> bool {
    t.title@.len() > 0 && t.artist@.len() > 0 && t.spotify_url@.len() > 0
}

/// The title, followed by ` (year)` when there is a year.
pub open spec fn title_with_year_text(t: Track) -> Seq<char> {
    if t.year@.len() == 0 {
        t.title@
    } else {
        t.title@ + " ("@ + t.year@ + ")"@
    }
}

impl Track {
    /// Creates a track.
    pub fn new(title: String, artist: String, year: String, spotify_url: String) -> (r: Self)
        ensures
            r.title == title,
            r.artist == artist,
            r.year == year,
            r.spotify_url == spotify_url,
    {
        Track { title, artist, year, spotify_url }
    }

    /// `artist - title`.
    pub fn display_name(&self) -> (r: String)
        ensures
            r@ == self.artist@ + " - "@ + self.title@,
    {
        let mut s = String::from_str(self.artist.as_str());
        s.append(" - ");
        s.append(self.title.as_str());
        s
    }

    /// The title, with the year in brackets after it when there is one.
    pub fn title_with_year(&self) -> (r: String)
        ensures
            r@ == title_with_year_text(*self),
    {
        if self.year.as_str().is_empty() {
            String::from_str(self.title.as_str())
        } else {
            let mut s = String::from_str(self.title.as_str());
            s.append(" (");
            s.append(self.year.as_str());
            s.append(")");
            s
        }
    }

    /// A copy of the track.
    pub fn duplicate(&self) -> (r: Self)
        ensures
            r == *self,
    {
        Track {
            title: self.title.clone(),
            artist: self.artist.clone(),
            year: self.year.clone(),
            spotify_url: self.spotify_url.clone(),
        }
    }

    /// Whether title, artist and link are all non-empty.
    pub fn is_valid(&self) -> (r: bool)
        ensures
            r == track_is_valid(*self),
    {
        !self.title.as_str().is_empty() && !self.artist.as_str().is_empty()
            && !self.spotify_url.as_str().is_empty()
    }
}

/// A valid ID is accepted by `PlaylistId::new`, and only a valid ID is.
pub proof fn lemma_new_accepts_exactly_valid(s: Seq<char>)
    ensures
        (playlist_id_check(s) is Ok) <==> is_playlist_id_text(s),
        playlist_id_check(s) is Ok ==> playlist_id_check(s) == Ok::<Seq<char>, PlaylistIdError>(s),
{
    if is_playlist_id_text(s) {
        assert(s.len() > 0);
        assert(char_is_alphanumeric(s[0]));
        lemma_alphanumeric_not_white_space(s[0]);
        lemma_trim_nonempty(s);
    }
}

/// Facts about a valid ID that reading it back needs.
proof fn lemma_valid_id_shape(id: Seq<char>)
    requires
        is_playlist_id_text(id),
    ensures
        id.len() > 0,
        !is_white_space(id.last()),
        !is_white_space(id[0]),
        !id.contains('/'),
        !id.contains(':'),
        !id.contains('?'),
        before_first(id, '?') == id,
        playlist_id_check(id) == Ok::<Seq<char>, PlaylistIdError>(id),
{
    assert(id.len() > 0);
    assert(char_is_alphanumeric(id[0]));
    assert(char_is_alphanumeric(id[id.len() - 1]));
    lemma_alphanumeric_not_white_space(id[0]);
    lemma_alphanumeric_not_white_space(id.last());
    lemma_alphanumeric_lacks(id, '/');
    lemma_alphanumeric_lacks(id, ':');
    lemma_alphanumeric_lacks(id, '?');
    lemma_before_first_absent(id, '?');
    lemma_new_accepts_exactly_valid(id);
}

/// The link that `to_spotify_url` writes is read back as the same ID.
pub proof fn lemma_parse_spotify_url(p: PlaylistId)
    requires
        is_playlist_id_text(p@),
    ensures
        playlist_id_parse("https://open.spotify.com/playlist/"@ + p@) == Ok::<Seq<char>, PlaylistIdError>(p@),
{
    reveal_strlit("https://open.spotify.com/playlist/");
    reveal_strlit("open.spotify.com/playlist/");
    let id = p@;
    let pre = "https://open.spotify.com/playlist/"@;
    let s = pre + id;
    lemma_valid_id_shape(id);
    assert(s[0] == 'h');
    assert(s.last() == id.last());
    lemma_trim_unchanged(s);
    assert(s.subrange(8, 8 + playlist_link_marker().len() as int) == playlist_link_marker());
    assert(has_infix(s, playlist_link_marker()));
    lemma_after_last_tail(pre, id, '/');
}

/// How the candidate is read from a text that names an ID through a URI.
proof fn lemma_candidate_from_uri(s: Seq<char>, id: Seq<char>)
    requires
        trim(s) == s,
        s.len() > 0,
        !has_infix(s, playlist_link_marker()),
        has_infix(s, playlist_uri_marker()),
        after_last(s, ':') == id,
        before_first(id, '?') == id,
        id.len() > 0,
    ensures
        playlist_id_candidate(s) == Ok::<Seq<char>, PlaylistIdError>(id),
{
}

/// The URI prefix holds no `/`.
proof fn lemma_uri_prefix_lacks_slash()
    ensures
        !"spotify:playlist:"@.contains('/'),
{
    reveal_strlit("spotify:playlist:");
    let pre = "spotify:playlist:"@;
    if pre.contains('/') {
        let k = choose|k: int| 0 <= k < pre.len() && pre[k] == '/';
        assert(pre[k] != '/');
    }
}

/// The URI that `to_spotify_uri` writes is read back as the same ID.
#[verifier::rlimit(40)]
pub proof fn lemma_parse_spotify_uri(p: PlaylistId)
    requires
        is_playlist_id_text(p@),
    ensures
        playlist_id_parse("spotify:playlist:"@ + p@) == Ok::<Seq<char>, PlaylistIdError>(p@),
{
    let id = p@;
    let pre = "spotify:playlist:"@;
    let s = pre + id;
    lemma_valid_id_shape(id);
    assert(s[0] == 's') by {
        reveal_strlit("spotify:playlist:");
    };
    assert(s.last() == id.last());
    lemma_trim_unchanged(s);
    lemma_uri_prefix_lacks_slash();
    lemma_concat_lacks(pre, id, '/');
    assert(playlist_link_marker()[16] == '/' && playlist_link_marker().len() == 26) by {
        reveal_strlit("open.spotify.com/playlist/");
    };
    lemma_no_infix(s, playlist_link_marker(), 16);
    assert(s.subrange(0, 0 + pre.len() as int) =~= pre);
    assert(has_infix(s, playlist_uri_marker()));
    assert(pre.len() > 0 && pre.last() == ':') by {
        reveal_strlit("spotify:playlist:");
    };
    lemma_after_last_tail(pre, id, ':');
    lemma_candidate_from_uri(s, id);
}

/// A bare valid ID is read back as itself.
pub proof fn lemma_parse_bare_id(p: PlaylistId)
    requires
        is_playlist_id_text(p@),
    ensures
        playlist_id_parse(p@) == Ok::<Seq<char>, PlaylistIdError>(p@),
{
    reveal_strlit("spotify:playlist:");
    reveal_strlit("open.spotify.com/playlist/");
    let id = p@;
    lemma_valid_id_shape(id);
    lemma_trim_unchanged(id);
    assert(playlist_link_marker()[16] == '/');
    lemma_no_infix(id, playlist_link_marker(), 16);
    assert(playlist_uri_marker()[7] == ':');
    lemma_no_infix(id, playlist_uri_marker(), 7);
}

/// Reading a playlist ID ignores White_Space around the text: a link, URI or ID pasted
/// with leading or trailing spaces or line breaks reads as the text without them.
pub proof fn lemma_parse_ignores_surrounding_white_space(a: Seq<char>, s: Seq<char>, b: Seq<char>)
    requires
        all_white_space(a),
        all_white_space(b),
    ensures
        playlist_id_parse(a + s + b) == playlist_id_parse(s),
{
    lemma_trim_surrounded(a, s, b);
}

/// The link that `to_spotify_url` writes, pasted with a trailing space or line break,
/// still reads back as the same ID.
pub proof fn lemma_pasted_link_reads_back(p: PlaylistId, tail: char)
    requires
        is_playlist_id_text(p@),
        is_white_space(tail),
    ensures
        playlist_id_parse("https://open.spotify.com/playlist/"@ + p@ + seq![tail])
            == Ok::<Seq<char>, PlaylistIdError>(p@),
{
    let link = "https://open.spotify.com/playlist/"@ + p@;
    lemma_parse_spotify_url(p);
    assert(Seq::<char>::empty() + link =~= link);
    lemma_parse_ignores_surrounding_white_space(Seq::empty(), link, seq![tail]);
}

} // verus!
