//! The card page of a Spotify playlist: its title, chosen before the playlist is fetched.

use crate::application::models::PlaylistId;
use vstd::prelude::*;

verus! {

/// The title of a playlist's card page: the title asked for, else `Playlist: <id>`.
pub fn playlist_cards_title(playlist_id: &PlaylistId, title: Option<String>) -> (r: String)
    ensures
        match title {
            Some(t) => r == t,
            None => r@ == "Playlist: "@ + playlist_id.0@,
        },
{
    match title {
        Some(t) => t,
        None => {
            let mut s = String::from_str("Playlist: ");
            s.append(playlist_id.as_str());
            s
        },
    }
}

} // verus!
