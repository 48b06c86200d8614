//! The data a card-sheet template is filled with.

use vstd::prelude::*;

verus! {

/// One card of a sheet.
pub struct PdfTrack {
    pub title: String,
    pub artist: String,
    pub year: i32,
    pub qr_code: String,
}

/// A sheet: its title and its cards, grouped in pages of rows.
pub struct PdfTemplate {
    pub title: String,
    pub track_chunks: Vec<Vec<Vec<PdfTrack>>>,
}

} // verus!
