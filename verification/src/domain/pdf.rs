//! A generated PDF document, as bytes.

use vstd::prelude::*;
use vstd::std_specs::convert::FromSpec;

verus! {

/// The bytes of a PDF document.
#[derive(Debug, Clone, PartialEq, Eq)]
pub struct Pdf(Vec<u8>);

impl View for Pdf {
    type V = Seq<u8>;

    closed spec fn view(&self) -> Seq<u8> {
        self.0@
    }
}

impl Pdf {
    /// A PDF from its bytes.
    pub fn new(data: Vec<u8>) -> (r: Self)
        ensures
            r@ == data@,
    {
        Pdf(data)
    }

    /// The PDF's bytes.
    pub fn as_bytes(&self) -> (r: &[u8])
        ensures
            r@ == self@,
    {
        self.0.as_slice()
    }

    /// The PDF's bytes, taking the PDF apart.
    pub fn into_bytes(self) -> (r: Vec<u8>)
        ensures
            r@ == self@,
    {
        self.0
    }

    /// The PDF's size in bytes.
    pub fn len(&self) -> (r: usize)
        ensures
            r == self@.len(),
    {
        self.0.len()
    }
}

impl From<Vec<u8>> for Pdf {
    fn from(data: Vec<u8>) -> (r: Self) {
        Pdf(data)
    }
}

impl vstd::std_specs::convert::FromSpecImpl<Vec<u8>> for Pdf {
    open spec fn obeys_from_spec() -> bool {
        true
    }

    closed spec fn from_spec(v: Vec<u8>) -> Pdf {
        Pdf(v)
    }
}

impl From<Pdf> for Vec<u8> {
    fn from(pdf: Pdf) -> (r: Self) {
        pdf.0
    }
}

impl vstd::std_specs::convert::FromSpecImpl<Pdf> for Vec<u8> {
    open spec fn obeys_from_spec() -> bool {
        true
    }

    closed spec fn from_spec(v: Pdf) -> Vec<u8> {
        v.0
    }
}

/// Turning bytes into a PDF and the PDF back into bytes gives the same bytes, and the PDF
/// made from bytes holds them.
pub proof fn lemma_bytes_round_trip(v: Vec<u8>)
    ensures
        <Vec<u8> as FromSpec<Pdf>>::from_spec(<Pdf as FromSpec<Vec<u8>>>::from_spec(v)) == v,
        <Pdf as FromSpec<Vec<u8>>>::from_spec(v)@ == v@,
{
}

} // verus!
