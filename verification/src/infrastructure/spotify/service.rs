//! Spotify tracks turned into stored tracks, and the pages of a playlist to fetch.

use crate::domain::playlist::{Playlist, PlaylistId, SpotifyId, Track};
use crate::ids::new_uuid_v4;
use crate::spotify_service::check_spotify_playlist_id;
use crate::infrastructure::spotify::mapper::{artist_text, TrackParts};
use crate::text::{all_ascii_alnum, chars_of, contains_char, join_strings, parse_i32, parse_i32_text};
use vstd::prelude::*;

verus! {

/// The year of the date that `chrono::NaiveDate` reads from a text, if it reads one.
pub uninterp spec fn date_year(text: Seq<char>) -> Option<i32>;

/// Calls `str::parse::<chrono::NaiveDate>` and, when it succeeds, `Datelike::year`. Claims:
/// the result is `date_year(text)`.
#[verifier::external_body]
fn parse_date_year(text: &str) -> (r: Option<i32>)
    ensures
        r == date_year(text@),
{
    match text.parse::<chrono::NaiveDate>() {
        Ok(date) => Some(chrono::Datelike::year(&date)),
        Err(_) => None,
    }
}

/// The year a release date gives, or the message of the error it gives.
pub open spec fn release_year(name: Seq<char>, date: Option<Seq<char>>) -> Result<i32, Seq<char>> {
    match date {
        None => Err("Missing release date for track: "@ + name),
        Some(d) => if d.len() == 0 {
            Err("Empty release date for track: "@ + name)
        } else if d.contains('-') {
            match date_year(d) {
                None => Err("Invalid date format "@ + d),
                Some(y) => Ok(y),
            }
        } else {
            match parse_i32_text(d) {
                None => Err("Invalid year format "@ + d),
                Some(y) => if y == 0 {
                    Err("Year cannot be zero for track: "@ + name)
                } else {
                    Ok(y)
                },
            }
        },
    }
}

/// `prefix` followed by `detail`.
fn labelled(prefix: &str, detail: &String) -> (r: String)
    ensures
        r@ == prefix@ + detail@,
{
    let mut s = String::from_str(prefix);
    s.append(detail.as_str());
    s
}

/// The stored track for a Spotify track: the year from a `YYYY-MM-DD` date or a non-zero
/// `YYYY`, the link required, the first cover image kept.
pub fn track_from_parts(parts: TrackParts) -> (r: Result<Track, String>)
    ensures
        match release_year(parts.name@, match parts.release_date { Some(d) => Some(d@), None => None }) {
            Err(m) => r matches Err(e) && e@ == m,
            Ok(y) => match parts.spotify_url {
                None => r matches Err(e) && e@ == "Missing Spotify URL for track: "@ + parts.name@,
                Some(u) => r matches Ok(t) && t.title == parts.name && t.artist@ == artist_text(parts)
                    && t.year == y && t.spotify_url == u && t.album_cover_url == parts.first_image_url,
            },
        },
{
    let artist = join_strings(&parts.artist_names, ", ");
    let year: i32 = match &parts.release_date {
        None => return Err(labelled("Missing release date for track: ", &parts.name)),
        Some(d) => {
            let v = chars_of(d.as_str());
            if v.len() == 0 {
                return Err(labelled("Empty release date for track: ", &parts.name));
            } else if contains_char(&v, '-') {
                match parse_date_year(d.as_str()) {
                    None => return Err(labelled("Invalid date format ", d)),
                    Some(y) => y,
                }
            } else {
                match parse_i32(&v) {
                    None => return Err(labelled("Invalid year format ", d)),
                    Some(y) => {
                        if y == 0 {
                            return Err(labelled("Year cannot be zero for track: ", &parts.name));
                        }
                        y
                    },
                }
            }
        },
    };
    match parts.spotify_url {
        None => Err(labelled("Missing Spotify URL for track: ", &parts.name)),
        Some(u) => Ok(Track {
            title: parts.name,
            artist,
            year,
            spotify_url: u,
            album_cover_url: parts.first_image_url,
        }),
    }
}

/// A stored track holds what a Spotify track converts to, with year `y`.
pub open spec fn track_matches_parts(t: Track, p: TrackParts, y: i32) -> bool {
    &&& t.title == p.name
    &&& t.artist@ == artist_text(p)
    &&& t.year == y
    &&& p.spotify_url == Some(t.spotify_url)
    &&& t.album_cover_url == p.first_image_url
}

/// The release year of a Spotify track's parts.
pub open spec fn parts_year(p: TrackParts) -> Result<i32, Seq<char>> {
    release_year(p.name@, match p.release_date { Some(d) => Some(d@), None => None })
}

/// A playlist item is a track that converts.
pub open spec fn converts(item: Option<TrackParts>) -> bool {
    item matches Some(p) && parts_year(p) is Ok && p.spotify_url is Some
}

/// The positions of the items that convert, in order.
pub open spec fn kept_positions(items: Seq<Option<TrackParts>>) -> Seq<int>
    decreases items.len(),
{
    if items.len() == 0 {
        Seq::empty()
    } else {
        let rest = kept_positions(items.drop_last());
        if converts(items.last()) {
            rest.push(items.len() - 1)
        } else {
            rest
        }
    }
}

/// `tracks` are the items that convert, converted, in the items' order.
pub open spec fn is_tracks_of_items(tracks: Seq<Track>, items: Seq<Option<TrackParts>>) -> bool {
    &&& tracks.len() == kept_positions(items).len()
    &&& forall|k: int| 0 <= k < tracks.len() ==> {
        let p = items[kept_positions(items)[k]]->0;
        track_matches_parts(#[trigger] tracks[k], p, parts_year(p)->Ok_0)
    }
}

/// The tracks of a playlist's items: items that are not tracks (`None`) and tracks that do
/// not convert are left out; the others are converted, in order.
pub fn tracks_from_items(items: &Vec<Option<TrackParts>>) -> (r: Vec<Track>)
    ensures
        is_tracks_of_items(r@, items@),
{
    let mut r: Vec<Track> = Vec::new();
    let mut i: usize = 0;
    while i < items.len()
        invariant
            i <= items@.len(),
            r@.len() == kept_positions(items@.take(i as int)).len(),
            forall|k: int| 0 <= k < r@.len() ==> {
                let p = items@[kept_positions(items@.take(i as int))[k]]->0;
                track_matches_parts(#[trigger] r@[k], p, parts_year(p)->Ok_0)
            },
            forall|k: int| 0 <= k < kept_positions(items@.take(i as int)).len()
                ==> 0 <= #[trigger] kept_positions(items@.take(i as int))[k] < i,
        decreases items@.len() - i,
    {
        let ghost before = kept_positions(items@.take(i as int));
        assert(items@.take(i + 1).drop_last() =~= items@.take(i as int));
        assert(items@.take(i + 1).last() == items@[i as int]);
        match &items[i] {
            None => {},
            Some(p) => {
                let converted = track_from_parts(p.duplicate());
                match converted {
                    Ok(t) => {
                        r.push(t);
                    },
                    Err(_) => {},
                }
            },
        }
        proof {
            let after = kept_positions(items@.take(i + 1));
            assert forall|k: int| 0 <= k < before.len() implies after[k] == #[trigger] before[k] by {}
            assert forall|k: int| 0 <= k < before.len() implies items@.take(i + 1)[before[k]] == items@[before[k]] by {}
        }
        i = i + 1;
    }
    assert(items@.take(items@.len() as int) =~= items@);
    r
}

/// The text of the ID that Spotify is asked for: the stored Spotify ID when Spotify
/// accepts it as a playlist ID (only ASCII letters and digits), else Spotify's error
/// message. A stored ID has no `:` or `/`, so Spotify reads it as a bare ID and never as
/// a URI.
pub fn spotify_playlist_id_of(id: &SpotifyId) -> (r: Result<String, String>)
    ensures
        (r is Ok) == all_ascii_alnum(id@),
        r matches Ok(s) ==> s@ == id@,
{
    let text = id.to_string();
    match check_spotify_playlist_id(text.as_str()) {
        Ok(()) => Ok(text),
        Err(e) => Err(e),
    }
}

/// The playlist fetched from Spotify for a Spotify ID, with its name and items as Spotify
/// gives them: a new ID, the ID it was fetched by, the tracks of the items that convert in
/// the order given, and no times, as it is not stored yet.
pub fn playlist_from_spotify(id: &SpotifyId, name: String, items: &Vec<Option<TrackParts>>) -> (r: Playlist)
    ensures
        r.spotify_id matches Some(s) && s@ == id@,
        r.name == name,
        is_tracks_of_items(r.tracks@, items@),
        r.created_at is None,
        r.updated_at is None,
{
    Playlist {
        id: PlaylistId::from_uuid(new_uuid_v4()),
        name,
        tracks: tracks_from_items(items),
        spotify_id: Some(id.duplicate()),
        created_at: None,
        updated_at: None,
    }
}

/// The playlist fetched from Spotify without its tracks: a new ID, the ID it was fetched
/// by, its name, no tracks and no times.
pub fn playlist_without_tracks(id: &SpotifyId, name: String) -> (r: Playlist)
    ensures
        r.spotify_id matches Some(s) && s@ == id@,
        r.name == name,
        r.tracks@.len() == 0,
        r.created_at is None,
        r.updated_at is None,
{
    Playlist {
        id: PlaylistId::from_uuid(new_uuid_v4()),
        name,
        tracks: Vec::new(),
        spotify_id: Some(id.duplicate()),
        created_at: None,
        updated_at: None,
    }
}

/// The offsets of the pages of a playlist's items still to fetch after the first page of
/// 100: one per whole `limit` in `total`, at `100 + page * limit`.
pub fn page_offsets(total: u32, limit: u32) -> (r: Vec<u32>)
    requires
        limit > 0,
        forall|p: int| 0 <= p < total / limit ==> #[trigger] (100 + p * limit) <= u32::MAX,
    ensures
        r@.len() == total / limit,
        forall|p: int| 0 <= p < r@.len() ==> r@[p] == 100 + p * limit,
{
    let pages = total / limit;
    let mut r: Vec<u32> = Vec::new();
    let mut page: u32 = 0;
    while page < pages
        invariant
            limit > 0,
            pages == total / limit,
            page <= pages,
            r@.len() == page,
            forall|p: int| 0 <= p < total / limit ==> #[trigger] (100 + p * limit) <= u32::MAX,
            forall|p: int| 0 <= p < r@.len() ==> r@[p] == 100 + p * limit,
        decreases pages - page,
    {
        assert(100 + page * limit <= u32::MAX);
        assert((page as u64) * (limit as u64) <= 0xffff_ffff_ffff_ffffu64) by (nonlinear_arith)
            requires page < 0x1_0000_0000, limit < 0x1_0000_0000;
        let offset: u64 = 100 + (page as u64) * (limit as u64);
        r.push(offset as u32);
        page = page + 1;
    }
    r
}

} // verus!
