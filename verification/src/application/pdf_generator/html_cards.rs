//! Card sheets as HTML for an HTML-to-PDF renderer: 24 cards a page, QR code placeholders on
//! the front, song details on the back.

use crate::domain::playlist::{Playlist, Track};
use crate::html::{encode_text, html_escaped};
use crate::text::{has_infix, i32_to_string, signed_decimal_text};
use vstd::prelude::*;

verus! {

/// The cards on one page.
pub const CARDS_PER_PAGE: usize = 24;

/// The document head of the front sheet.
pub const FRONT_HEAD: &'static str = r#"<!DOCTYPE html>
<html>
<head>
    <style>
        body {
            margin: 0;
            padding: 15mm;
            width: 180mm;  /* 210mm - 30mm margins */
            height: 267mm; /* 297mm - 30mm margins */
            box-sizing: border-box;
        }
        .card-grid {
            display: grid;
            grid-template-columns: repeat(4, 45mm);
            grid-template-rows: repeat(6, 42mm);
            gap: 2mm;
            width: 100%;
            height: 100%;
        }
        .card {
            border: 1px solid black;
            display: flex;
            align-items: center;
            justify-content: center;
            text-align: center;
            font-family: Arial, sans-serif;
            font-size: 12px;
        }
        @page {
            size: 210mm 297mm;
            margin: 0;
        }
    </style>
</head>
<body>"#;

/// The head of each further page of the front sheet.
pub const FRONT_PAGE_HEAD: &'static str = r#"<html><head><style>
                body { margin: 0; padding: 15mm; width: 180mm; height: 267mm; box-sizing: border-box; }
                .card-grid { display: grid; grid-template-columns: repeat(4, 45mm); grid-template-rows: repeat(6, 42mm); gap: 2mm; width: 100%; height: 100%; }
                .card { border: 1px solid black; display: flex; align-items: center; justify-content: center; text-align: center; font-family: Arial, sans-serif; font-size: 12px; }
                @page { size: 210mm 297mm; margin: 0; }
                </style></head><body>"#;

/// The document head of the back sheet.
pub const BACK_HEAD: &'static str = r#"<!DOCTYPE html>
<html>
<head>
    <style>
        body {
            margin: 0;
            padding: 15mm;
            width: 180mm;  /* 210mm - 30mm margins */
            height: 267mm; /* 297mm - 30mm margins */
            box-sizing: border-box;
        }
        .card-grid {
            display: grid;
            grid-template-columns: repeat(4, 45mm);
            grid-template-rows: repeat(6, 42mm);
            gap: 2mm;
            width: 100%;
            height: 100%;
        }
        .card {
            border: 1px solid black;
            padding: 2mm;
            display: flex;
            flex-direction: column;
            font-family: Arial, sans-serif;
        }
        .track-title {
            font-size: 14px;
            font-weight: bold;
            margin-bottom: 1mm;
            overflow: hidden;
            text-overflow: ellipsis;
            white-space: nowrap;
        }
        .track-artist {
            font-size: 11px;
            margin-bottom: 1mm;
            overflow: hidden;
            text-overflow: ellipsis;
            white-space: nowrap;
        }
        .track-year {
            font-size: 9px;
            color: #666;
        }
        @page {
            size: 210mm 297mm;
            margin: 0;
        }
    </style>
</head>
<body>"#;

/// The head of each further page of the back sheet.
pub const BACK_PAGE_HEAD: &'static str = r#"<html><head><style>
                body { margin: 0; padding: 15mm; width: 180mm; height: 267mm; box-sizing: border-box; }
                .card-grid { display: grid; grid-template-columns: repeat(4, 45mm); grid-template-rows: repeat(6, 42mm); gap: 2mm; width: 100%; height: 100%; }
                .card { border: 1px solid black; padding: 2mm; display: flex; flex-direction: column; font-family: Arial, sans-serif; }
                .track-title { font-size: 14px; font-weight: bold; margin-bottom: 1mm; overflow: hidden; text-overflow: ellipsis; white-space: nowrap; }
                .track-artist { font-size: 11px; margin-bottom: 1mm; overflow: hidden; text-overflow: ellipsis; white-space: nowrap; }
                .track-year { font-size: 9px; color: #666; }
                @page { size: 210mm 297mm; margin: 0; }
                </style></head><body>"#;

/// The end of a page and of the document.
pub const PAGE_END: &'static str = "</div></body></html>";

/// The end of the document.
pub const DOCUMENT_END: &'static str = "</body></html>";

/// The opening of a page's card grid.
pub const GRID_OPEN: &'static str = r#"<div class="card-grid">"#;

/// The end of a page's card grid.
pub const GRID_CLOSE: &'static str = "</div>";

/// A front card.
pub const FRONT_CARD: &'static str = r#"<div class="card">QR CODE</div>"#;

/// The text of a back card, around the escaped title, the escaped artist and the year.
pub const BACK_CARD_OPEN: &'static str = r#"
        <div class="card">
            <div class="track-title">"#;

/// Between the title and the artist of a back card.
pub const BACK_CARD_ARTIST: &'static str = r#"</div>
            <div class="track-artist">"#;

/// Between the artist and the year of a back card.
pub const BACK_CARD_YEAR: &'static str = r#"</div>
            <div class="track-year">"#;

/// After the year of a back card.
pub const BACK_CARD_CLOSE: &'static str = r#"</div>
        </div>"#;

/// What stands before card `i`: a new page when a page is full, a new grid at the top of each page.
pub open spec fn card_lead(i: int, page_head: Seq<char>) -> Seq<char> {
    (if i > 0 && i % 24 == 0 { PAGE_END@ + page_head } else { Seq::empty() })
        + (if i % 24 == 0 { GRID_OPEN@ } else { Seq::empty() })
}

/// What stands after card `i` of `n`: the grid closes after the last card of a page or of the sheet.
pub open spec fn card_tail(i: int, n: int) -> Seq<char> {
    if i % 24 == 23 || i == n - 1 {
        GRID_CLOSE@
    } else {
        Seq::empty()
    }
}

/// The text of back card `t`.
pub open spec fn back_card_text(t: Track) -> Seq<char> {
    BACK_CARD_OPEN@ + html_escaped(t.title@) + BACK_CARD_ARTIST@ + html_escaped(t.artist@)
        + BACK_CARD_YEAR@ + signed_decimal_text(t.year as int) + BACK_CARD_CLOSE@
}

/// The first `k` front cards of a sheet of `n`.
pub open spec fn front_cards(k: int, n: int) -> Seq<char>
    decreases k,
{
    if k <= 0 {
        Seq::empty()
    } else {
        front_cards(k - 1, n) + card_lead(k - 1, FRONT_PAGE_HEAD@) + FRONT_CARD@ + card_tail(k - 1, n)
    }
}

/// The first `k` back cards of the tracks.
pub open spec fn back_cards(tracks: Seq<Track>, k: int) -> Seq<char>
    decreases k,
{
    if k <= 0 {
        Seq::empty()
    } else {
        back_cards(tracks, k - 1) + card_lead(k - 1, BACK_PAGE_HEAD@) + back_card_text(tracks[k - 1])
            + card_tail(k - 1, tracks.len() as int)
    }
}

/// The front sheet of a playlist.
pub open spec fn front_sheet(p: Playlist) -> Seq<char> {
    FRONT_HEAD@ + front_cards(p.tracks@.len() as int, p.tracks@.len() as int) + DOCUMENT_END@
}

/// The back sheet of a playlist.
pub open spec fn back_sheet(p: Playlist) -> Seq<char> {
    BACK_HEAD@ + back_cards(p.tracks@, p.tracks@.len() as int) + DOCUMENT_END@
}

/// Appends what stands before card `i`.
fn push_lead(html: &mut String, i: usize, page_head: &str)
    ensures
        final(html)@ == old(html)@ + card_lead(i as int, page_head@),
{
    let ghost start = html@;
    if i > 0 && i % CARDS_PER_PAGE == 0 {
        html.append(PAGE_END);
        html.append(page_head);
    }
    let ghost mid = html@;
    if i % CARDS_PER_PAGE == 0 {
        html.append(GRID_OPEN);
    }
    assert(html@ == start + card_lead(i as int, page_head@)) by {
        assert(mid == start + (if i > 0 && i % 24 == 0 { PAGE_END@ + page_head@ } else { Seq::<char>::empty() }));
    };
}

/// Appends what stands after card `i` of `n`.
fn push_tail(html: &mut String, i: usize, n: usize)
    requires
        i < n,
    ensures
        final(html)@ == old(html)@ + card_tail(i as int, n as int),
{
    if i % CARDS_PER_PAGE == CARDS_PER_PAGE - 1 || i == n - 1 {
        html.append(GRID_CLOSE);
    }
}

/// A PDF generator that renders card sheets written in HTML.
pub struct PdfGenerator;

impl PdfGenerator {
    /// Creates the generator.
    pub fn new() -> (r: Self) {
        PdfGenerator
    }

    /// The front sheet: a `QR CODE` card for every track, 24 to a page.
    pub fn generate_front_cards_html(playlist: &Playlist) -> (r: String)
        ensures
            r@ == front_sheet(*playlist),
    {
        let n = playlist.tracks.len();
        let mut html = String::from_str(FRONT_HEAD);
        let mut i: usize = 0;
        while i < n
            invariant
                n == playlist.tracks@.len(),
                i <= n,
                html@ == FRONT_HEAD@ + front_cards(i as int, n as int),
            decreases n - i,
        {
            let ghost before = html@;
            push_lead(&mut html, i, FRONT_PAGE_HEAD);
            html.append(FRONT_CARD);
            push_tail(&mut html, i, n);
            assert(html@ == before + card_lead(i as int, FRONT_PAGE_HEAD@) + FRONT_CARD@ + card_tail(i as int, n as int));
            i = i + 1;
        }
        html.append(DOCUMENT_END);
        html
    }

    /// The back sheet: title, artist (both escaped) and year of every track, 24 to a page.
    pub fn generate_back_cards_html(playlist: &Playlist) -> (r: String)
        ensures
            r@ == back_sheet(*playlist),
            forall|i: int| 0 <= i < playlist.tracks@.len() ==> has_infix(
                r@,
                BACK_CARD_OPEN@ + html_escaped((#[trigger] playlist.tracks@[i]).title@) + BACK_CARD_ARTIST@
                    + html_escaped(playlist.tracks@[i].artist@) + BACK_CARD_YEAR@
                    + signed_decimal_text(playlist.tracks@[i].year as int) + BACK_CARD_CLOSE@,
            ),
    {
        let n = playlist.tracks.len();
        let mut html = String::from_str(BACK_HEAD);
        let mut i: usize = 0;
        while i < n
            invariant
                n == playlist.tracks@.len(),
                i <= n,
                html@ == BACK_HEAD@ + back_cards(playlist.tracks@, i as int),
            decreases n - i,
        {
            let ghost before = html@;
            let track = &playlist.tracks[i];
            push_lead(&mut html, i, BACK_PAGE_HEAD);
            let title = encode_text(track.title.as_str());
            let artist = encode_text(track.artist.as_str());
            let year = i32_to_string(track.year);
            html.append(BACK_CARD_OPEN);
            html.append(title.as_str());
            html.append(BACK_CARD_ARTIST);
            html.append(artist.as_str());
            html.append(BACK_CARD_YEAR);
            html.append(year.as_str());
            html.append(BACK_CARD_CLOSE);
            push_tail(&mut html, i, n);
            assert(html@ == before + card_lead(i as int, BACK_PAGE_HEAD@) + back_card_text(playlist.tracks@[i as int])
                + card_tail(i as int, n as int));
            i = i + 1;
        }
        html.append(DOCUMENT_END);
        proof {
            assert forall|i: int| 0 <= i < playlist.tracks@.len() implies has_infix(
                html@,
                BACK_CARD_OPEN@ + html_escaped((#[trigger] playlist.tracks@[i]).title@) + BACK_CARD_ARTIST@
                    + html_escaped(playlist.tracks@[i].artist@) + BACK_CARD_YEAR@
                    + signed_decimal_text(playlist.tracks@[i].year as int) + BACK_CARD_CLOSE@,
            ) by {
                lemma_back_sheet_holds_each_track(*playlist, i);
            }
        }
        html
    }
}

/// The first `j` back cards begin the first `k` back cards, for `j <= k`.
proof fn lemma_back_cards_prefix(tracks: Seq<Track>, j: int, k: int)
    requires
        0 <= j <= k,
    ensures
        back_cards(tracks, j).len() <= back_cards(tracks, k).len(),
        back_cards(tracks, k).subrange(0, back_cards(tracks, j).len() as int) == back_cards(tracks, j),
    decreases k - j,
{
    if j < k {
        lemma_back_cards_prefix(tracks, j, k - 1);
        let shorter = back_cards(tracks, k - 1);
        assert(back_cards(tracks, k).subrange(0, shorter.len() as int) =~= shorter);
        assert(back_cards(tracks, k).subrange(0, back_cards(tracks, j).len() as int)
            =~= shorter.subrange(0, back_cards(tracks, j).len() as int));
    } else {
        assert(back_cards(tracks, k).subrange(0, back_cards(tracks, k).len() as int) =~= back_cards(tracks, k));
    }
}

/// The back sheet holds, for every track, a card whose title box holds the track's title
/// and whose artist box holds its artist, both escaped for HTML, and whose year box holds
/// its year.
pub proof fn lemma_back_sheet_holds_each_track(playlist: Playlist, i: int)
    requires
        0 <= i < playlist.tracks@.len(),
    ensures
        has_infix(
            back_sheet(playlist),
            BACK_CARD_OPEN@ + html_escaped(playlist.tracks@[i].title@) + BACK_CARD_ARTIST@
                + html_escaped(playlist.tracks@[i].artist@) + BACK_CARD_YEAR@
                + signed_decimal_text(playlist.tracks@[i].year as int) + BACK_CARD_CLOSE@,
        ),
{
    let tracks = playlist.tracks@;
    let n = tracks.len() as int;
    let piece = BACK_CARD_OPEN@ + html_escaped(playlist.tracks@[i].title@) + BACK_CARD_ARTIST@
                + html_escaped(playlist.tracks@[i].artist@) + BACK_CARD_YEAR@
                + signed_decimal_text(playlist.tracks@[i].year as int) + BACK_CARD_CLOSE@;
    let before = back_cards(tracks, i);
    let lead = card_lead(i, BACK_PAGE_HEAD@);
    let upto = back_cards(tracks, i + 1);
    assert(upto == before + lead + piece + card_tail(i, n));
    lemma_back_cards_prefix(tracks, i + 1, n);
    let all = back_cards(tracks, n);
    let sheet = back_sheet(playlist);
    assert(sheet == BACK_HEAD@ + all + DOCUMENT_END@);
    let at: int = (BACK_HEAD@.len() + before.len() + lead.len()) as int;
    assert(all.subrange(0, upto.len() as int) == upto);
    assert(sheet.subrange(at, at + piece.len()) =~= piece) by {
        assert forall|k: int| 0 <= k < piece.len() implies sheet.subrange(at, at + piece.len())[k] == piece[k] by {
            assert(sheet[at + k] == all[before.len() + lead.len() + k]);
            assert(all[before.len() + lead.len() + k] == upto[before.len() + lead.len() + k]);
            assert(upto[before.len() + lead.len() + k] == piece[k]);
        }
    }
}

} // verus!
