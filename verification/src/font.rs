use vstd::prelude::*;
use vstd::slice::slice_to_vec;

verus! {

/// A font, carrying the font file data it was built from.  Whether two
/// fonts stand for one underlying engine object is not part of the value,
/// so fonts offer no equality test.
#[derive(Debug)]
pub struct Font {
    data: Vec<u8>,
}

impl View for Font {
    type V = Seq<u8>;

    closed spec fn view(&self) -> Seq<u8> {
        self.data@
    }
}

impl Font {
    /// A font built from the given font file bytes.
    pub fn new_from_file_bytes(font_data: &[u8]) -> (f: Self)
        ensures
            f@ == font_data@,
    {
        Font { data: slice_to_vec(font_data) }
    }

    /// The font file data the font was built from.
    pub fn raw_font_data(&self) -> (r: &[u8])
        ensures
            r@ == self@,
    {
        self.data.as_slice()
    }

    /// The font file data, as the identity of the underlying font.
    pub fn raw(&self) -> (r: &Vec<u8>)
        ensures
            r@ == self@,
    {
        &self.data
    }
}

impl Clone for Font {
    /// A clone shares the same font data.
    fn clone(&self) -> (f: Self)
        ensures
            f@ == self@,
    {
        Font { data: slice_to_vec(self.data.as_slice()) }
    }
}

} // verus!
