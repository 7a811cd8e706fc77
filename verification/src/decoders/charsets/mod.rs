//! Character sets and their decoders.

use crate::text::lossy_string;
use crate::text::utf8_lossy;
use vstd::prelude::*;

pub mod map;
pub mod multi_byte;
pub mod single_byte;
pub mod utf;

verus! {

/// The character sets that can be decoded.
#[derive(Clone, Copy, Debug, PartialEq, Eq, Structural)]
pub enum Charset {
    Utf8,
    Utf7,
    Utf16,
    Utf16Le,
    Utf16Be,
    Iso8859_1,
    Iso8859_2,
    Iso8859_3,
    Iso8859_4,
    Iso8859_5,
    Iso8859_6,
    Iso8859_7,
    Iso8859_8,
    Iso8859_9,
    Iso8859_10,
    Iso8859_13,
    Iso8859_14,
    Iso8859_15,
    Iso8859_16,
    Tis620,
    Windows874,
    Windows1250,
    Windows1251,
    Windows1252,
    Windows1253,
    Windows1254,
    Windows1255,
    Windows1256,
    Windows1257,
    Windows1258,
    Koi8R,
    Koi8U,
    Ibm850,
    Ibm866,
    Macintosh,
    ShiftJis,
    Big5,
    EucJp,
    EucKr,
    Gbk,
    Gb18030,
    Iso2022Jp,
}

impl Charset {
    /// The multi-byte encoding behind this character set, if it is one.
    pub open spec fn multi_byte(self) -> Option<multi_byte::MultiByte> {
        match self {
            Charset::ShiftJis => Some(multi_byte::MultiByte::ShiftJis),
            Charset::Big5 => Some(multi_byte::MultiByte::Big5),
            Charset::EucJp => Some(multi_byte::MultiByte::EucJp),
            Charset::EucKr => Some(multi_byte::MultiByte::EucKr),
            Charset::Gbk => Some(multi_byte::MultiByte::Gbk),
            Charset::Gb18030 => Some(multi_byte::MultiByte::Gb18030),
            Charset::Iso2022Jp => Some(multi_byte::MultiByte::Iso2022Jp),
            _ => None,
        }
    }

    /// The table of this character set, if it has one byte per character
    /// and is not ISO-8859-1.
    #[verifier::opaque]
    pub open spec fn table(self) -> Option<[u16; 128]> {
        match self {
            Charset::Iso8859_2 => Some(single_byte::ISO_8859_2),
            Charset::Iso8859_3 => Some(single_byte::ISO_8859_3),
            Charset::Iso8859_4 => Some(single_byte::ISO_8859_4),
            Charset::Iso8859_5 => Some(single_byte::ISO_8859_5),
            Charset::Iso8859_6 => Some(single_byte::ISO_8859_6),
            Charset::Iso8859_7 => Some(single_byte::ISO_8859_7),
            Charset::Iso8859_8 => Some(single_byte::ISO_8859_8),
            Charset::Iso8859_9 => Some(single_byte::ISO_8859_9),
            Charset::Iso8859_10 => Some(single_byte::ISO_8859_10),
            Charset::Iso8859_13 => Some(single_byte::ISO_8859_13),
            Charset::Iso8859_14 => Some(single_byte::ISO_8859_14),
            Charset::Iso8859_15 => Some(single_byte::ISO_8859_15),
            Charset::Iso8859_16 => Some(single_byte::ISO_8859_16),
            Charset::Tis620 => Some(single_byte::TIS_620),
            Charset::Windows874 => Some(single_byte::WINDOWS_874),
            Charset::Windows1250 => Some(single_byte::CP1250),
            Charset::Windows1251 => Some(single_byte::CP1251),
            Charset::Windows1252 => Some(single_byte::CP1252),
            Charset::Windows1253 => Some(single_byte::CP1253),
            Charset::Windows1254 => Some(single_byte::CP1254),
            Charset::Windows1255 => Some(single_byte::CP1255),
            Charset::Windows1256 => Some(single_byte::CP1256),
            Charset::Windows1257 => Some(single_byte::CP1257),
            Charset::Windows1258 => Some(single_byte::CP1258),
            Charset::Koi8R => Some(single_byte::KOI8_R),
            Charset::Koi8U => Some(single_byte::KOI8_U),
            Charset::Ibm850 => Some(single_byte::IBM850),
            Charset::Ibm866 => Some(single_byte::IBM866),
            Charset::Macintosh => Some(single_byte::MACINTOSH),
            _ => None,
        }
    }

    /// The text that `bytes` stand for in this character set.
    ///
    /// A multi-byte input of more than `MAX_MULTI_BYTE_LEN` bytes is read as
    /// UTF-8.
    pub open spec fn text(self, bytes: Seq<u8>) -> Seq<char> {
        match self {
            Charset::Utf8 => utf8_lossy(bytes),
            Charset::Utf7 => utf::utf16_lossy(utf::utf7_units(bytes)),
            Charset::Utf16 => utf::utf16_lossy(utf::utf16_marked_units(bytes)),
            Charset::Utf16Le => utf::utf16_lossy(utf::utf16_units(bytes, false)),
            Charset::Utf16Be => utf::utf16_lossy(utf::utf16_units(bytes, true)),
            Charset::Iso8859_1 => single_byte::latin1_text(bytes),
            _ => if self.table() is Some {
                single_byte::table_text(self.table()->0, bytes)
            } else if self.multi_byte() is Some && bytes.len() <= multi_byte::MAX_MULTI_BYTE_LEN {
                multi_byte::multi_byte_text(self.multi_byte()->0, bytes)
            } else {
                utf8_lossy(bytes)
            },
        }
    }

    fn decode_multi_byte(kind: multi_byte::MultiByte, bytes: &[u8]) -> (res: String)
        ensures
            res@ == if bytes@.len() <= multi_byte::MAX_MULTI_BYTE_LEN {
                multi_byte::multi_byte_text(kind, bytes@)
            } else {
                utf8_lossy(bytes@)
            },
    {
        if bytes.len() <= multi_byte::MAX_MULTI_BYTE_LEN {
            multi_byte::decode_multi_byte(kind, bytes)
        } else {
            lossy_string(bytes)
        }
    }

    /// Decodes `bytes` in this character set.
    pub fn decode(self, bytes: &[u8]) -> (res: String)
        ensures
            res@ == self.text(bytes@),
    {
        reveal(Charset::table);
        match self {
            Charset::Utf8 => lossy_string(bytes),
            Charset::Utf7 => utf::decoder_utf7(bytes),
            Charset::Utf16 => utf::decoder_utf16(bytes),
            Charset::Utf16Le => utf::decoder_utf16_le(bytes),
            Charset::Utf16Be => utf::decoder_utf16_be(bytes),
            Charset::Iso8859_1 => single_byte::decode_latin1(bytes),
            Charset::Iso8859_2 => single_byte::decode_table(&single_byte::ISO_8859_2, bytes),
            Charset::Iso8859_3 => single_byte::decode_table(&single_byte::ISO_8859_3, bytes),
            Charset::Iso8859_4 => single_byte::decode_table(&single_byte::ISO_8859_4, bytes),
            Charset::Iso8859_5 => single_byte::decode_table(&single_byte::ISO_8859_5, bytes),
            Charset::Iso8859_6 => single_byte::decode_table(&single_byte::ISO_8859_6, bytes),
            Charset::Iso8859_7 => single_byte::decode_table(&single_byte::ISO_8859_7, bytes),
            Charset::Iso8859_8 => single_byte::decode_table(&single_byte::ISO_8859_8, bytes),
            Charset::Iso8859_9 => single_byte::decode_table(&single_byte::ISO_8859_9, bytes),
            Charset::Iso8859_10 => single_byte::decode_table(&single_byte::ISO_8859_10, bytes),
            Charset::Iso8859_13 => single_byte::decode_table(&single_byte::ISO_8859_13, bytes),
            Charset::Iso8859_14 => single_byte::decode_table(&single_byte::ISO_8859_14, bytes),
            Charset::Iso8859_15 => single_byte::decode_table(&single_byte::ISO_8859_15, bytes),
            Charset::Iso8859_16 => single_byte::decode_table(&single_byte::ISO_8859_16, bytes),
            Charset::Tis620 => single_byte::decode_table(&single_byte::TIS_620, bytes),
            Charset::Windows874 => single_byte::decode_table(&single_byte::WINDOWS_874, bytes),
            Charset::Windows1250 => single_byte::decode_table(&single_byte::CP1250, bytes),
            Charset::Windows1251 => single_byte::decode_table(&single_byte::CP1251, bytes),
            Charset::Windows1252 => single_byte::decode_table(&single_byte::CP1252, bytes),
            Charset::Windows1253 => single_byte::decode_table(&single_byte::CP1253, bytes),
            Charset::Windows1254 => single_byte::decode_table(&single_byte::CP1254, bytes),
            Charset::Windows1255 => single_byte::decode_table(&single_byte::CP1255, bytes),
            Charset::Windows1256 => single_byte::decode_table(&single_byte::CP1256, bytes),
            Charset::Windows1257 => single_byte::decode_table(&single_byte::CP1257, bytes),
            Charset::Windows1258 => single_byte::decode_table(&single_byte::CP1258, bytes),
            Charset::Koi8R => single_byte::decode_table(&single_byte::KOI8_R, bytes),
            Charset::Koi8U => single_byte::decode_table(&single_byte::KOI8_U, bytes),
            Charset::Ibm850 => single_byte::decode_table(&single_byte::IBM850, bytes),
            Charset::Ibm866 => single_byte::decode_table(&single_byte::IBM866, bytes),
            Charset::Macintosh => single_byte::decode_table(&single_byte::MACINTOSH, bytes),
            Charset::ShiftJis => Self::decode_multi_byte(multi_byte::MultiByte::ShiftJis, bytes),
            Charset::Big5 => Self::decode_multi_byte(multi_byte::MultiByte::Big5, bytes),
            Charset::EucJp => Self::decode_multi_byte(multi_byte::MultiByte::EucJp, bytes),
            Charset::EucKr => Self::decode_multi_byte(multi_byte::MultiByte::EucKr, bytes),
            Charset::Gbk => Self::decode_multi_byte(multi_byte::MultiByte::Gbk, bytes),
            Charset::Gb18030 => Self::decode_multi_byte(multi_byte::MultiByte::Gb18030, bytes),
            Charset::Iso2022Jp => Self::decode_multi_byte(multi_byte::MultiByte::Iso2022Jp, bytes),
        }
    }
}

} // verus!
