//! The layout of the front card sheet drawn page by page: where each card goes and the lines
//! of text on it.

pub mod html;
pub mod html_cards;

use crate::text::{char_views, chars_of, split_chars, split_pieces, string_of, trim, trim_chars};
use vstd::prelude::*;

verus! {

/// Cards on one page of the drawn sheet.
pub const CARDS_PER_PAGE: usize = 24;

/// Columns of cards on a page.
pub const COLUMNS: usize = 3;

/// Where a card is drawn: its page, its row counted from 1 at the top, its column from 0.
#[derive(Debug, Clone, Copy, PartialEq, Eq, Structural)]
pub struct CardSlot {
    pub page: usize,
    pub row: usize,
    pub col: usize,
}

/// The slot of card `i`: pages of 24 cards in rows of 3.
pub open spec fn card_slot_of(i: int) -> CardSlot {
    CardSlot {
        page: (i / 24) as usize,
        row: ((i % 24) / 3 + 1) as usize,
        col: ((i % 24) % 3) as usize,
    }
}

/// The line of artist piece `k` of `pieces`: trimmed, with a comma after it unless it is the last.
pub open spec fn artist_line(pieces: Seq<Seq<char>>, k: int) -> Seq<char> {
    if k == pieces.len() - 1 {
        trim(pieces[k])
    } else {
        trim(pieces[k]) + ","@
    }
}

/// The artist lines of the first `k` pieces: blank pieces give no line.
pub open spec fn artist_lines_of(pieces: Seq<Seq<char>>, k: int) -> Seq<Seq<char>>
    decreases k,
{
    if k <= 0 {
        Seq::empty()
    } else {
        let before = artist_lines_of(pieces, k - 1);
        if trim(pieces[k - 1]).len() > 0 {
            before.push(artist_line(pieces, k - 1))
        } else {
            before
        }
    }
}

/// The artist lines of a card: the artist text split at each `,`.
pub open spec fn artist_lines_text(artist: Seq<char>) -> Seq<Seq<char>> {
    artist_lines_of(split_pieces(artist, ','), split_pieces(artist, ',').len() as int)
}

/// A PDF generator that draws the front cards page by page.
pub struct PdfGenerator;

impl PdfGenerator {
    /// Creates the generator.
    pub fn new() -> (r: Self) {
        PdfGenerator
    }

    /// The slot of card `index` of the sheet.
    pub fn card_slot(index: usize) -> (r: CardSlot)
        ensures
            r == card_slot_of(index as int),
    {
        let on_page = index % CARDS_PER_PAGE;
        CardSlot { page: index / CARDS_PER_PAGE, row: on_page / COLUMNS + 1, col: on_page % COLUMNS }
    }

    /// The pages a sheet of `n` cards takes.
    pub fn page_count(n: usize) -> (r: usize)
        ensures
            r as int == (if n % 24 == 0 { (n / 24) as int } else { n / 24 + 1 }),
    {
        if n % CARDS_PER_PAGE == 0 {
            n / CARDS_PER_PAGE
        } else {
            n / CARDS_PER_PAGE + 1
        }
    }

    /// The lines the artists of a card are written on: one per comma-separated artist,
    /// trimmed, each but the last ending with a comma; blank artists are skipped.
    pub fn artist_lines(artist: &String) -> (r: Vec<String>)
        ensures
            r@.len() == artist_lines_text(artist@).len(),
            forall|k: int| 0 <= k < r@.len() ==> (#[trigger] r@[k])@ == artist_lines_text(artist@)[k],
    {
        let v = chars_of(artist.as_str());
        let pieces = split_chars(&v, ',');
        let ghost ps = split_pieces(artist@, ',');
        let n = pieces.len();
        let mut lines: Vec<String> = Vec::new();
        let mut k: usize = 0;
        while k < n
            invariant
                n == pieces@.len(),
                n == ps.len(),
                forall|j: int| 0 <= j < n ==> (#[trigger] pieces@[j])@ == ps[j],
                k <= n,
                lines@.len() == artist_lines_of(ps, k as int).len(),
                forall|j: int| 0 <= j < lines@.len() ==> (#[trigger] lines@[j])@ == artist_lines_of(ps, k as int)[j],
            decreases n - k,
        {
            let trimmed = trim_chars(&pieces[k]);
            if trimmed.len() > 0 {
                let mut line = string_of(&trimmed);
                if k != n - 1 {
                    line.append(",");
                }
                lines.push(line);
            }
            k = k + 1;
        }
        lines
    }
}

/// Two different cards on the same page never share a slot.
pub proof fn lemma_slots_distinct(i: int, j: int)
    requires
        0 <= i,
        0 <= j,
        i != j,
        i / 24 == j / 24,
    ensures
        card_slot_of(i) != card_slot_of(j),
{
    assert(i % 24 != j % 24);
    let a = i % 24;
    let b = j % 24;
    assert(a == (a / 3) * 3 + a % 3);
    assert(b == (b / 3) * 3 + b % 3);
}

/// Every card lies in rows 1 to 8 and columns 0 to 2 of its page.
pub proof fn lemma_slot_bounds(i: int)
    requires
        0 <= i,
    ensures
        1 <= card_slot_of(i).row <= 8,
        card_slot_of(i).col < 3,
{
}

} // verus!
