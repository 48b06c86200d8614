//! The decisions inside the worker's tasks: where generated cards go, and how a playlist
//! fetched again from Spotify replaces the stored one.

use crate::domain::playlist::{Playlist, PlaylistId, SpotifyId};
use crate::ids::uuid_text;
use crate::time::Timestamp;
use vstd::prelude::*;

verus! {

/// Where a card generation wrote its two PDFs.
#[derive(Debug, Clone)]
pub struct GeneratePlaylistPdfsResult {
    pub front: String,
    pub back: String,
}

/// The directory the PDFs are written to.
pub open spec fn output_dir_text() -> Seq<char> {
    "generated_pdfs"@
}

/// The path of one side: `generated_pdfs/<playlist>_<stamp>_<side>.pdf`.
pub open spec fn pdf_path_text(id: u128, stamp: Seq<char>, side: Seq<char>) -> Seq<char> {
    output_dir_text() + "/"@ + uuid_text(id) + "_"@ + stamp + "_"@ + side + ".pdf"@
}

/// The paths of the front and back PDFs for a playlist, stamped with the generation time.
pub fn pdf_output_paths(playlist_id: &PlaylistId, stamp: &String) -> (r: GeneratePlaylistPdfsResult)
    ensures
        r.front@ == pdf_path_text(playlist_id@, stamp@, "front"@),
        r.back@ == pdf_path_text(playlist_id@, stamp@, "back"@),
{
    let id = playlist_id.to_string();
    let mut base = String::from_str("generated_pdfs/");
    base.append(id.as_str());
    base.append("_");
    base.append(stamp.as_str());
    base.append("_");
    let mut front = base.clone();
    front.append("front");
    front.append(".pdf");
    let mut back = base;
    back.append("back");
    back.append(".pdf");
    proof {
        reveal_strlit("generated_pdfs/");
        reveal_strlit("generated_pdfs");
        reveal_strlit("/");
        assert("generated_pdfs/"@ == output_dir_text() + "/"@);
    }
    GeneratePlaylistPdfsResult { front, back }
}

/// The error when the task's playlist is not stored: `playlist not found for id: <id>`.
pub fn playlist_not_found_message(playlist_id: &PlaylistId) -> (r: String)
    ensures
        r@ == "playlist not found for id: "@ + uuid_text(playlist_id@),
{
    let mut s = String::from_str("playlist not found for id: ");
    let id = playlist_id.to_string();
    s.append(id.as_str());
    s
}

/// Why a playlist could not be fetched again.
pub open spec fn refetch_source_holds(current: Option<Playlist>, id: PlaylistId, r: Result<SpotifyId, String>) -> bool {
    match current {
        None => r matches Err(m) && m@ == "Playlist with ID "@ + uuid_text(id@) + " not found"@,
        Some(p) => match p.spotify_id {
            None => r matches Err(m) && m@ == "Playlist "@ + uuid_text(id@) + " has no associated Spotify ID"@,
            Some(s) => r matches Ok(x) && x@ == s@,
        },
    }
}

/// The Spotify ID to fetch a stored playlist again by: an error when the playlist is not
/// stored or has no Spotify ID.
pub fn refetch_source(current: &Option<Playlist>, id: &PlaylistId) -> (r: Result<SpotifyId, String>)
    ensures
        refetch_source_holds(*current, *id, r),
{
    match current {
        None => {
            let mut m = String::from_str("Playlist with ID ");
            let t = id.to_string();
            m.append(t.as_str());
            m.append(" not found");
            Err(m)
        },
        Some(p) => match &p.spotify_id {
            None => {
                let mut m = String::from_str("Playlist ");
                let t = id.to_string();
                m.append(t.as_str());
                m.append(" has no associated Spotify ID");
                Err(m)
            },
            Some(s) => Ok(s.duplicate()),
        },
    }
}

/// The playlist to store after fetching it again: the fresh name and tracks, with the
/// stored ID, Spotify ID and creation time, updated `now`; an error when Spotify has none.
pub fn merge_refetched(current: Playlist, fresh: Option<Playlist>, spotify_id: &SpotifyId, now: Timestamp) -> (r: Result<Playlist, String>)
    ensures
        match fresh {
            None => r matches Err(m) && m@ == "Playlist with Spotify ID "@ + spotify_id@ + " not found in Spotify"@,
            Some(f) => r matches Ok(p) && p.id == current.id && p.spotify_id == current.spotify_id
                && p.created_at == current.created_at && p.updated_at == Some(now)
                && p.name == f.name && p.tracks == f.tracks,
        },
{
    match fresh {
        None => {
            let mut m = String::from_str("Playlist with Spotify ID ");
            let t = spotify_id.to_string();
            m.append(t.as_str());
            m.append(" not found in Spotify");
            Err(m)
        },
        Some(f) => Ok(Playlist {
            id: current.id,
            spotify_id: current.spotify_id,
            created_at: current.created_at,
            updated_at: Some(now),
            name: f.name,
            tracks: f.tracks,
        }),
    }
}

} // verus!
