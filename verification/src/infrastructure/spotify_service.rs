//! Cards from Spotify tracks, taking whatever Spotify gives.

use crate::application::models::{Playlist, PlaylistId, Track};
use crate::infrastructure::spotify::mapper::{artist_text, track_positions, TrackParts};
use crate::spotify_service::card_year_text;
use vstd::prelude::*;

verus! {

/// The card for a Spotify track: a missing release date gives the year `Unknown`, a missing
/// link an empty link.
pub fn lenient_track_from_parts(parts: TrackParts) -> (r: Track)
    ensures
        r.title == parts.name,
        r.artist@ == artist_text(parts),
        r.year@ == card_year_text(parts.release_date),
        r.spotify_url@ == (match parts.spotify_url {
            Some(u) => u@,
            None => Seq::empty(),
        }),
{
    let card = crate::spotify_service::song_card_from_parts(parts);
    Track { title: card.title, artist: card.artist, year: card.year, spotify_url: card.spotify_url }
}

/// `t` is the track of the parts `p`, taking whatever Spotify gives.
pub open spec fn is_lenient_track_of(t: Track, p: TrackParts) -> bool {
    &&& t.title == p.name
    &&& t.artist@ == artist_text(p)
    &&& t.year@ == card_year_text(p.release_date)
    &&& t.spotify_url@ == match p.spotify_url {
        Some(u) => u@,
        None => Seq::empty(),
    }
}

/// The playlist of a Spotify playlist's items, taking whatever Spotify gives: items that
/// are not tracks (`None`) are skipped, every track is kept, in order.
pub fn playlist_from_items(id: PlaylistId, name: String, items: &Vec<Option<TrackParts>>) -> (r: Playlist)
    ensures
        r.id == id,
        r.name == name,
        r.tracks@.len() == track_positions(items@).len(),
        forall|k: int| 0 <= k < r.tracks@.len() ==>
            is_lenient_track_of(#[trigger] r.tracks@[k], items@[track_positions(items@)[k]]->0),
{
    let mut tracks: Vec<Track> = Vec::new();
    let mut i: usize = 0;
    while i < items.len()
        invariant
            i <= items@.len(),
            tracks@.len() == track_positions(items@.take(i as int)).len(),
            forall|k: int| 0 <= k < tracks@.len() ==>
                is_lenient_track_of(#[trigger] tracks@[k], items@[track_positions(items@.take(i as int))[k]]->0),
            forall|k: int| 0 <= k < track_positions(items@.take(i as int)).len()
                ==> 0 <= #[trigger] track_positions(items@.take(i as int))[k] < i,
        decreases items@.len() - i,
    {
        let ghost before = track_positions(items@.take(i as int));
        assert(items@.take(i + 1).drop_last() =~= items@.take(i as int));
        assert(items@.take(i + 1).last() == items@[i as int]);
        match &items[i] {
            None => {},
            Some(p) => tracks.push(lenient_track_from_parts(p.duplicate())),
        }
        proof {
            let after = track_positions(items@.take(i + 1));
            assert forall|k: int| 0 <= k < before.len() implies after[k] == #[trigger] before[k] by {}
        }
        i = i + 1;
    }
    assert(items@.take(items@.len() as int) =~= items@);
    Playlist { id, name, tracks }
}

} // verus!
