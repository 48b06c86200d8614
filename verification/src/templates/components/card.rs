//! One side of a printable card.

use vstd::prelude::*;

verus! {

/// One side of a card: the QR code on the front, the song on the back.
#[derive(Debug)]
pub enum CardTemplate {
    /// Front side of the card (QR code only)
    Front { qr_data_url: String },
    /// Back side of the card (song information)
    Back { title: String, artist: String, year: String },
}

} // verus!
