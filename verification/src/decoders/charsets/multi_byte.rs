//! Character sets of more than one byte per character.

use vstd::prelude::*;

verus! {

/// The multi-byte encodings.
#[derive(Clone, Copy, Debug, PartialEq, Eq, Structural)]
pub enum MultiByte {
    ShiftJis,
    Big5,
    EucJp,
    EucKr,
    Gbk,
    Gb18030,
    Iso2022Jp,
}

/// The longest input that is handed to a multi-byte decoder: the decoder
/// sizes its output buffer at several times the input length.
pub const MAX_MULTI_BYTE_LEN: usize = 0x1000_0000;

/// The text that `bytes` stand for in the encoding `kind`, malformed
/// sequences replaced by U+FFFD.
pub uninterp spec fn multi_byte_text(kind: MultiByte, bytes: Seq<u8>) -> Seq<char>;

/// Decodes `bytes` in the encoding `kind`.
///
/// Trusted: the body calls `Encoding::decode_without_bom_handling` of
/// `encoding_rs` on the encoding's constant and keeps the text. The contract
/// names the result; the bound on the length keeps the decoder's buffer size
/// computation from overflowing.
#[verifier::external_body]
pub(crate) fn decode_multi_byte(kind: MultiByte, bytes: &[u8]) -> (res: String)
    requires
        bytes@.len() <= MAX_MULTI_BYTE_LEN,
    ensures
        res@ == multi_byte_text(kind, bytes@),
{
    let encoding = match kind {
        MultiByte::ShiftJis => encoding_rs::SHIFT_JIS,
        MultiByte::Big5 => encoding_rs::BIG5,
        MultiByte::EucJp => encoding_rs::EUC_JP,
        MultiByte::EucKr => encoding_rs::EUC_KR,
        MultiByte::Gbk => encoding_rs::GBK,
        MultiByte::Gb18030 => encoding_rs::GB18030,
        MultiByte::Iso2022Jp => encoding_rs::ISO_2022_JP,
    };
    encoding.decode_without_bom_handling(bytes).0.into_owned()
}

} // verus!
