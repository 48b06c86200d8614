//! The text of the summary PDFs of a playlist: a front page listing its first tracks and a
//! back page counting its cards.

use crate::domain::playlist::{Playlist, Track};
use crate::text::{decimal_text, i32_to_string, signed_decimal_text, u64_to_string};
use vstd::prelude::*;

verus! {

/// Tracks listed by name on the front page.
pub const LISTED_TRACKS: usize = 10;

/// The line of track `t` at position `i` (from 0): `<i+1>. <title> - <artist> (<year>)`.
pub open spec fn track_line(i: int, t: Track) -> Seq<char> {
    decimal_text((i + 1) as nat) + ". "@ + t.title@ + " - "@ + t.artist@ + " ("@
        + signed_decimal_text(t.year as int) + ")"@
}

/// The tracks listed by name on the front page of a playlist of `n` tracks.
pub open spec fn listed_count(n: nat) -> nat {
    if n < 10 { n } else { 10 }
}

/// Line `j` of the front page.
pub open spec fn front_line(p: Playlist, j: int) -> Seq<char> {
    let n = p.tracks@.len();
    if j == 0 {
        "Playlist: "@ + p.name@
    } else if j == 1 {
        "Total tracks: "@ + decimal_text(n)
    } else if j < 2 + listed_count(n) {
        track_line(j - 2, p.tracks@[j - 2])
    } else {
        "... and "@ + decimal_text((n - 10) as nat) + " more tracks"@
    }
}

/// The lines of the front page: name, count, the first ten tracks, and how many more there are.
pub open spec fn front_lines(p: Playlist) -> Seq<Seq<char>> {
    let n = p.tracks@.len();
    Seq::new(2 + listed_count(n) + (if n > 10 { 1nat } else { 0nat }), |j: int| front_line(p, j))
}

/// The lines of the back page.
pub open spec fn back_lines(track_count: nat) -> Seq<Seq<char>> {
    seq!["HITSTER - Card Backs"@, "Total cards: "@ + decimal_text(track_count)]
}

/// The views of a list of strings.
pub open spec fn line_views(v: Seq<String>) -> Seq<Seq<char>> {
    Seq::new(v.len(), |i: int| v[i]@)
}

/// A generator of the summary PDFs.
pub struct PdfGenerator;

impl PdfGenerator {
    /// The line of track `t` at position `i`.
    pub fn track_line(i: usize, t: &Track) -> (r: String)
        requires
            i < usize::MAX,
        ensures
            r@ == track_line(i as int, *t),
    {
        let number = u64_to_string((i + 1) as u64);
        let year = i32_to_string(t.year);
        let mut s = number;
        s.append(". ");
        s.append(t.title.as_str());
        s.append(" - ");
        s.append(t.artist.as_str());
        s.append(" (");
        s.append(year.as_str());
        s.append(")");
        s
    }

    /// The lines written on the front page.
    pub fn front_page_lines(playlist: &Playlist) -> (r: Vec<String>)
        ensures
            line_views(r@) == front_lines(*playlist),
    {
        let n = playlist.tracks.len();
        let mut lines: Vec<String> = Vec::new();
        let mut title = String::from_str("Playlist: ");
        title.append(playlist.name.as_str());
        lines.push(title);
        let mut total = String::from_str("Total tracks: ");
        let count = u64_to_string(n as u64);
        total.append(count.as_str());
        lines.push(total);
        let listed = if n < LISTED_TRACKS { n } else { LISTED_TRACKS };
        let mut i: usize = 0;
        while i < listed
            invariant
                n == playlist.tracks@.len(),
                listed == listed_count(n as nat),
                i <= listed,
                lines@.len() == 2 + i,
                forall|j: int| 0 <= j < lines@.len() ==> (#[trigger] lines@[j])@ == front_line(*playlist, j),
            decreases listed - i,
        {
            let line = Self::track_line(i, &playlist.tracks[i]);
            lines.push(line);
            i = i + 1;
        }
        if n > LISTED_TRACKS {
            let mut more = String::from_str("... and ");
            let rest = u64_to_string((n - LISTED_TRACKS) as u64);
            more.append(rest.as_str());
            more.append(" more tracks");
            lines.push(more);
        }
        assert(line_views(lines@) =~= front_lines(*playlist));
        lines
    }

    /// The lines written on the back page.
    pub fn back_page_lines(track_count: usize) -> (r: Vec<String>)
        ensures
            line_views(r@) == back_lines(track_count as nat),
    {
        let mut lines: Vec<String> = Vec::new();
        lines.push(String::from_str("HITSTER - Card Backs"));
        let mut total = String::from_str("Total cards: ");
        let count = u64_to_string(track_count as u64);
        total.append(count.as_str());
        lines.push(total);
        assert(line_views(lines@) =~= back_lines(track_count as nat));
        lines
    }
}

} // verus!
