//! Which side of the cards a PDF holds.

use vstd::prelude::*;

pub use crate::domain::pdf::Pdf;

verus! {

/// The side of the cards: the QR codes on the front, the song details on the back.
#[derive(Debug, Clone, Copy, PartialEq, Eq, Structural)]
pub enum PdfSide {
    Front,
    Back,
}

impl PdfSide {
    /// The side's name, as `Debug` writes it.
    pub fn name(&self) -> (r: &'static str)
        ensures
            r@ == (match self {
                PdfSide::Front => "Front"@,
                PdfSide::Back => "Back"@,
            }),
    {
        match self {
            PdfSide::Front => "Front",
            PdfSide::Back => "Back",
        }
    }
}

} // verus!
