//! Decoders for content transfer encodings and character sets.

use vstd::prelude::*;

pub mod base64;
pub mod charsets;
pub mod encoded_word;
pub mod hex;
pub mod quoted_printable;

verus! {

/// What a transfer decoder produced.
#[derive(Debug, PartialEq, Eq)]
pub enum DecodeResult {
    /// Decoded bytes that differ from the input.
    Owned(Vec<u8>),
    /// The range `from..to` of the input, unchanged.
    Borrowed((usize, usize)),
    /// Nothing.
    Empty,
}

/// The mathematical value of a [`DecodeResult`].
pub enum DecodeResultView {
    Owned(Seq<u8>),
    Borrowed((usize, usize)),
    Empty,
}

impl View for DecodeResult {
    type V = DecodeResultView;

    open spec fn view(&self) -> DecodeResultView {
        match self {
            DecodeResult::Owned(v) => DecodeResultView::Owned(v@),
            DecodeResult::Borrowed(r) => DecodeResultView::Borrowed(*r),
            DecodeResult::Empty => DecodeResultView::Empty,
        }
    }
}

} // verus!
