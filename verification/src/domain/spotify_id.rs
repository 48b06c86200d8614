//! Spotify playlist identifiers, read from a link, a URI or the bare identifier.

use crate::text::{
    all_alphanumeric, char_is_alphanumeric, all_alphanumeric_chars, chars_of, has_prefix, is_alphanumeric, starts_with_chars,
};
use vstd::prelude::*;

verus! {

/// The link form the parser accepts.
pub open spec fn url_prefix() -> Seq<char> {
    "http://open.spotify.com/playlist/"@
}

/// The URI form the parser accepts.
pub open spec fn uri_prefix() -> Seq<char> {
    "spotify:playlist:"@
}

/// The link form that `as_url` writes.
pub open spec fn https_url_prefix() -> Seq<char> {
    "https://open.spotify.com/playlist/"@
}

/// A non-empty run of alphanumeric characters.
pub open spec fn is_id_text(s: Seq<char>) -> bool {
    s.len() > 0 && all_alphanumeric(s)
}

/// The identifier that follows a prefix of length `k`, if the rest of `s` is one.
pub open spec fn id_after(s: Seq<char>, k: int) -> Option<Seq<char>> {
    if is_id_text(s.skip(k)) {
        Some(s.skip(k))
    } else {
        None
    }
}

/// What the parser reads from `s`: the identifier after the link prefix, else after the
/// URI prefix, else `s` itself when it is a bare identifier. The whole input must be used.
pub open spec fn spotify_id_text(s: Seq<char>) -> Option<Seq<char>> {
    if has_prefix(s, url_prefix()) {
        id_after(s, url_prefix().len() as int)
    } else if has_prefix(s, uri_prefix()) {
        id_after(s, uri_prefix().len() as int)
    } else if is_id_text(s) {
        Some(s)
    } else {
        None
    }
}

/// A Spotify playlist identifier: a non-empty run of alphanumeric characters.
#[derive(Debug, Clone, PartialEq, Eq, Hash)]
pub struct SpotifyId(String);

impl View for SpotifyId {
    type V = Seq<char>;

    closed spec fn view(&self) -> Seq<char> {
        self.0@
    }
}

/// Why a Spotify identifier could not be read.
#[derive(Debug, Clone, PartialEq, Eq)]
pub enum SpotifyIdParserError {
    InvalidFormat(String),
    EmptyInput,
}

impl SpotifyId {
    /// The identifier's text is a non-empty run of alphanumeric characters.
    pub open spec fn wf(&self) -> bool {
        is_id_text(self@)
    }

    /// Parses a Spotify ID from a link (`http://open.spotify.com/playlist/ID`), a URI
    /// (`spotify:playlist:ID`) or the bare ID.
    pub fn parse(input: &str) -> (r: Result<SpotifyId, SpotifyIdParserError>)
        ensures
            match r {
                Ok(id) => spotify_id_text(input@) == Some(id@) && id.wf(),
                Err(e) => spotify_id_text(input@) is None && (e matches SpotifyIdParserError::InvalidFormat(t) && t@ == input@),
            },
    {
        let v = chars_of(input);
        let url = chars_of("http://open.spotify.com/playlist/");
        let uri = chars_of("spotify:playlist:");
        let start: usize;
        if starts_with_chars(&v, &url) {
            start = url.len();
        } else if starts_with_chars(&v, &uri) {
            start = uri.len();
        } else {
            start = 0;
        }
        let mut rest: Vec<char> = Vec::new();
        let mut i: usize = start;
        while i < v.len()
            invariant
                start <= i <= v.len(),
                rest@ == v@.subrange(start as int, i as int),
            decreases v.len() - i,
        {
            rest.push(v[i]);
            i = i + 1;
        }
        assert(rest@ == v@.skip(start as int));
        assert(v@.skip(0) == v@);
        if rest.len() > 0 && all_alphanumeric_chars(&rest) {
            Ok(SpotifyId(crate::text::string_of(&rest)))
        } else {
            Err(SpotifyIdParserError::InvalidFormat(String::from_str(input)))
        }
    }

    /// The raw Spotify ID.
    pub fn as_str(&self) -> (r: &str)
        ensures
            r@ == self@,
    {
        self.0.as_str()
    }

    /// The link to this playlist: `https://open.spotify.com/playlist/ID`.
    pub fn as_url(&self) -> (r: String)
        ensures
            r@ == https_url_prefix() + self@,
    {
        let mut s = String::from_str("https://open.spotify.com/playlist/");
        s.append(self.0.as_str());
        s
    }

    /// The URI of this playlist: `spotify:playlist:ID`.
    pub fn as_uri(&self) -> (r: String)
        ensures
            r@ == uri_prefix() + self@,
    {
        let mut s = String::from_str("spotify:playlist:");
        s.append(self.0.as_str());
        s
    }

    /// The ID as text, as its `Display` form writes it.
    pub fn to_string(&self) -> (r: String)
        ensures
            r@ == self@,
    {
        String::from_str(self.0.as_str())
    }

    /// The ID's text, taking the ID apart.
    pub fn into_string(self) -> (r: String)
        ensures
            r@ == self@,
    {
        self.0
    }
}

impl std::str::FromStr for SpotifyId {
    type Err = SpotifyIdParserError;

    fn from_str(s: &str) -> (r: Result<Self, Self::Err>)
        ensures
            match r {
                Ok(id) => spotify_id_text(s@) == Some(id@) && id.wf(),
                Err(e) => spotify_id_text(s@) is None && (e matches SpotifyIdParserError::InvalidFormat(t) && t@ == s@),
            },
    {
        Self::parse(s)
    }
}

impl SpotifyIdParserError {
    /// The error's message, as its `Display` form writes it.
    pub fn to_string(&self) -> (r: String)
        ensures
            r@ == match self {
                SpotifyIdParserError::InvalidFormat(t) => "Invalid Spotify ID format: "@ + t@,
                SpotifyIdParserError::EmptyInput => "Empty Spotify ID input"@,
            },
    {
        match self {
            SpotifyIdParserError::InvalidFormat(t) => {
                let mut s = String::from_str("Invalid Spotify ID format: ");
                s.append(t.as_str());
                s
            },
            SpotifyIdParserError::EmptyInput => String::from_str("Empty Spotify ID input"),
        }
    }
}

/// A bare identifier is read back as itself.
pub proof fn lemma_parse_bare_id(id: SpotifyId)
    requires
        id.wf(),
    ensures
        spotify_id_text(id@) == Some(id@),
{
    reveal_strlit("http://open.spotify.com/playlist/");
    reveal_strlit("spotify:playlist:");
    if has_prefix(id@, url_prefix()) {
        assert(id@[4] == url_prefix()[4]);
        assert(char_is_alphanumeric(id@[4]));
    }
    if has_prefix(id@, uri_prefix()) {
        assert(id@[7] == uri_prefix()[7]);
        assert(char_is_alphanumeric(id@[7]));
    }
    assert(id@.skip(0) == id@);
}

/// The URI that `as_uri` writes is read back as the same identifier.
pub proof fn lemma_parse_uri(id: SpotifyId)
    requires
        id.wf(),
    ensures
        spotify_id_text(uri_prefix() + id@) == Some(id@),
{
    reveal_strlit("http://open.spotify.com/playlist/");
    reveal_strlit("spotify:playlist:");
    let s = uri_prefix() + id@;
    if has_prefix(s, url_prefix()) {
        assert(s[0] == url_prefix()[0]);
    }
    assert(s.subrange(0, uri_prefix().len() as int) == uri_prefix());
    assert(s.skip(uri_prefix().len() as int) == id@);
}

} // verus!
