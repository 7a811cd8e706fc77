//! Finding a character set by its name.

use crate::decoders::charsets::Charset;
use crate::text::lossy_string;
use crate::text::lower_bytes;
use crate::text::to_lower;
use crate::text::utf8_lossy;
use vstd::prelude::*;
use vstd::string::StringSliceAdditionalSpecFns;

verus! {

/// Shortest and longest name of a character set.
pub const MIN_NAME_LEN: usize = 2;

pub const MAX_NAME_LEN: usize = 45;

/// Smallest and largest hash of a name.
pub const MIN_HASH: u32 = 7;

pub const MAX_HASH: u32 = 764;

/// What each byte adds to the hash of a name in which it stands at one of the
/// hashed positions.
pub const CH_HASH: [u32; 256] = [
    765, 765, 765, 765, 765, 765, 765, 765, 765, 765, 765, 765, 765, 765, 765, 765,
    765, 765, 765, 765, 765, 765, 765, 765, 765, 765, 765, 765, 765, 765, 765, 765,
    765, 765, 765, 765, 765, 765, 765, 765, 765, 765, 765, 765, 765, 0, 55, 765,
    125, 5, 90, 155, 35, 15, 45, 140, 0, 30, 765, 765, 765, 765, 765, 765,
    765, 765, 765, 765, 765, 765, 765, 765, 765, 765, 765, 765, 765, 765, 765, 765,
    765, 765, 765, 765, 765, 765, 765, 765, 765, 765, 765, 765, 765, 765, 765, 15,
    765, 5, 0, 225, 15, 35, 0, 135, 115, 0, 5, 15, 5, 0, 20, 0,
    30, 765, 0, 5, 10, 10, 765, 5, 765, 765, 765, 765, 765, 765, 765, 765,
    765, 765, 765, 765, 765, 765, 765, 765, 765, 765, 765, 765, 765, 765, 765, 765,
    765, 765, 765, 765, 765, 765, 765, 765, 765, 765, 765, 765, 765, 765, 765, 765,
    765, 765, 765, 765, 765, 765, 765, 765, 765, 765, 765, 765, 765, 765, 765, 765,
    765, 765, 765, 765, 765, 765, 765, 765, 765, 765, 765, 765, 765, 765, 765, 765,
    765, 765, 765, 765, 765, 765, 765, 765, 765, 765, 765, 765, 765, 765, 765, 765,
    765, 765, 765, 765, 765, 765, 765, 765, 765, 765, 765, 765, 765, 765, 765, 765,
    765, 765, 765, 765, 765, 765, 765, 765, 765, 765, 765, 765, 765, 765, 765, 765,
    765, 765, 765, 765, 765, 765, 765, 765, 765, 765, 765, 765, 765, 765, 765, 765,
];

/// The names of the character sets, in lower case, each at its hash less
/// `MIN_HASH`. Most slots are empty.
pub const CH_MAP: [&'static str; 758] = [
    "l8", "", "", "",
    "latin8", "l1", "", "",
    "utf-8", "latin1", "us", "",
    "", "", "koi8-r", "l5",
    "us-ascii", "", "", "latin5",
    "", "ms_kanji", "shift_jis", "",
    "koi8-u", "", "", "big5",
    "", "ibm819", "", "",
    "", "", "euc-kr", "l4",
    "", "", "", "latin4",
    "", "866", "", "iso-ir-148",
    "ibm866", "l6", "ecma-118", "",
    "iso-8859-8", "latin6", "", "",
    "", "", "utf-16", "",
    "", "", "iso-8859-1", "iso-8859-11",
    "", "", "", "iso_8859-8",
    "euc-jp", "latin-9", "", "iso646-us",
    "iso_8859-8:1988", "iso-8859-15", "", "",
    "", "iso_8859-1", "iso_8859-14:1998", "",
    "", "", "iso-8859-5", "iso_8859-16:2001",
    "", "utf-16be", "", "iso_8859-5:1988",
    "iso_8859-15", "", "utf-16le", "",
    "", "iso-8859-14", "l2", "iso-ir-6",
    "", "iso_8859-5", "latin2", "",
    "", "", "iso-ir-199", "iso-8859-16",
    "", "", "", "iso_8859-4:1988",
    "iso_8859-14", "", "", "",
    "iso-8859-9", "", "", "",
    "", "iso-ir-144", "iso_8859-16", "",
    "ecma-114", "", "iso-8859-4", "hebrew",
    "", "850", "", "iso_8859-9",
    "ibm850", "windows-1258", "l10", "",
    "iso_8859-9:1989", "iso_646.irv:1991", "windows-1251", "asmo-708",
    "", "iso_8859-4", "", "",
    "elot_928", "", "iso-8859-6", "",
    "windows-1255", "", "", "iso-ir-101",
    "", "", "gbk", "",
    "utf-7", "", "", "",
    "", "iso_8859-6", "", "l3",
    "", "", "", "latin3",
    "windows-1254", "", "", "iso-ir-138",
    "iso_8859-10:1992", "", "", "",
    "", "greek8", "windows-1256", "",
    "", "", "", "",
    "", "", "", "iso-8859-10",
    "", "", "", "greek",
    "", "", "", "",
    "iso-ir-126", "", "", "",
    "", "iso-ir-109", "", "",
    "", "", "ms936", "",
    "", "", "", "",
    "windows-874", "", "", "",
    "", "iso-8859-13", "", "",
    "", "iso_8859-1:1987", "", "windows-1252",
    "", "", "extended_unix_code_packed_format_for_japanese", "iso-2022-jp",
    "", "mac", "", "iso_8859-3:1988",
    "", "cskoi8r", "", "",
    "iso-8859-2", "arabic", "csascii", "",
    "", "", "csutf8", "cseuckr",
    "", "macintosh", "csgbk", "csbig5",
    "", "", "", "iso_8859-2",
    "", "cskoi8u", "cswindows1258", "",
    "", "", "windows-1250", "cswindows1251",
    "", "iso_8859-6:1987", "", "latin10",
    "", "ansi_x3.4-1968", "cp819", "windows-936",
    "tis-620", "cswindows1255", "", "iso-ir-110",
    "", "windows-1257", "", "",
    "", "", "", "",
    "", "iso-ir-226", "csisolatin1", "cswindows874",
    "", "", "", "csisolatinhebrew",
    "windows-1253", "cswindows1254", "", "",
    "csisolatin5", "", "", "",
    "csisolatingreek", "", "", "cswindows1256",
    "", "", "ibm367", "",
    "", "", "iso_8859-2:1987", "csiso885915",
    "", "", "ansi_x3.4-1986", "iso-ir-157",
    "csisolatin4", "", "", "",
    "", "", "", "",
    "cseucpkdfmtjapanese", "cp866", "csisolatin6", "",
    "", "", "", "csiso885914",
    "", "", "", "",
    "", "csutf16", "", "",
    "iso-8859-7", "csiso885916", "", "",
    "", "", "", "",
    "cswindows1252", "", "", "",
    "", "", "", "iso_8859-7",
    "", "", "", "",
    "iso_8859-7:1987", "", "", "",
    "csutf16be", "", "", "",
    "", "csutf16le", "iso-8859-3", "csisolatin2",
    "", "csibm866", "", "cp850",
    "", "", "", "",
    "csshiftjis", "", "", "cswindows1250",
    "", "iso_8859-3", "csutf7", "",
    "", "", "iso-ir-127", "",
    "", "", "", "iso-ir-100",
    "csmacintosh", "gb18030", "cswindows1257", "",
    "", "", "", "",
    "", "", "", "",
    "", "", "", "",
    "", "cswindows1253", "", "",
    "", "", "", "",
    "cp367", "", "", "",
    "", "", "", "",
    "", "", "", "",
    "", "", "", "cp936",
    "csisolatin3", "", "", "",
    "", "", "", "",
    "", "", "", "",
    "", "", "", "csiso885913",
    "", "", "", "",
    "", "", "", "",
    "", "", "", "",
    "", "", "", "",
    "", "", "", "",
    "", "", "", "",
    "", "", "", "",
    "iso-celtic", "", "", "",
    "", "", "", "",
    "", "", "", "",
    "", "", "", "",
    "", "", "", "",
    "", "", "", "",
    "", "", "", "",
    "", "", "", "csisolatinarabic",
    "", "csisolatincyrillic", "", "",
    "", "", "", "",
    "", "", "", "",
    "", "", "", "",
    "", "", "", "",
    "", "", "", "",
    "", "", "", "",
    "", "", "", "",
    "", "", "", "",
    "", "", "", "",
    "", "", "", "",
    "", "", "", "",
    "", "", "", "",
    "", "", "", "",
    "", "", "", "",
    "", "", "", "",
    "", "", "cstis620", "",
    "", "", "", "",
    "", "", "csiso2022jp", "",
    "", "", "", "",
    "", "", "", "",
    "", "", "", "",
    "", "", "", "",
    "", "", "", "",
    "", "", "", "",
    "", "", "", "",
    "", "", "", "cspc850multilingual",
    "", "", "", "",
    "", "", "", "",
    "", "", "", "",
    "", "", "", "",
    "", "", "", "",
    "", "", "", "",
    "", "", "", "",
    "", "", "", "",
    "", "", "", "",
    "", "", "", "",
    "", "", "", "",
    "", "", "", "",
    "", "", "", "",
    "", "", "", "",
    "", "", "", "",
    "", "", "", "",
    "", "", "", "",
    "cyrillic", "", "", "",
    "", "", "", "",
    "", "", "", "",
    "", "", "", "",
    "", "", "", "",
    "", "", "", "",
    "", "", "", "",
    "", "", "", "",
    "", "", "", "",
    "", "", "", "",
    "", "", "", "",
    "", "", "", "",
    "", "", "", "",
    "", "", "", "",
    "", "", "", "",
    "", "", "", "",
    "", "", "", "",
    "", "", "", "",
    "", "", "", "",
    "", "", "", "",
    "", "csgb18030",
];

/// The character set of each name of `CH_MAP`.
pub const FNC_MAP: [Charset; 758] = [
    Charset::Iso8859_14, Charset::Utf8, Charset::Utf8, Charset::Utf8,
    Charset::Iso8859_14, Charset::Iso8859_1, Charset::Utf8, Charset::Utf8,
    Charset::Utf8, Charset::Iso8859_1, Charset::Utf8, Charset::Utf8,
    Charset::Utf8, Charset::Utf8, Charset::Koi8R, Charset::Iso8859_9,
    Charset::Utf8, Charset::Utf8, Charset::Utf8, Charset::Iso8859_9,
    Charset::Utf8, Charset::ShiftJis, Charset::ShiftJis, Charset::Utf8,
    Charset::Koi8U, Charset::Utf8, Charset::Utf8, Charset::Big5,
    Charset::Utf8, Charset::Iso8859_1, Charset::Utf8, Charset::Utf8,
    Charset::Utf8, Charset::Utf8, Charset::EucKr, Charset::Iso8859_4,
    Charset::Utf8, Charset::Utf8, Charset::Utf8, Charset::Iso8859_4,
    Charset::Utf8, Charset::Ibm866, Charset::Utf8, Charset::Iso8859_9,
    Charset::Ibm866, Charset::Iso8859_10, Charset::Iso8859_7, Charset::Utf8,
    Charset::Iso8859_8, Charset::Iso8859_10, Charset::Utf8, Charset::Utf8,
    Charset::Utf8, Charset::Utf8, Charset::Utf16, Charset::Utf8,
    Charset::Utf8, Charset::Utf8, Charset::Iso8859_1, Charset::Tis620,
    Charset::Utf8, Charset::Utf8, Charset::Utf8, Charset::Iso8859_8,
    Charset::EucJp, Charset::Iso8859_15, Charset::Utf8, Charset::Utf8,
    Charset::Iso8859_8, Charset::Iso8859_15, Charset::Utf8, Charset::Utf8,
    Charset::Utf8, Charset::Iso8859_1, Charset::Iso8859_14, Charset::Utf8,
    Charset::Utf8, Charset::Utf8, Charset::Iso8859_5, Charset::Iso8859_16,
    Charset::Utf8, Charset::Utf16Be, Charset::Utf8, Charset::Iso8859_5,
    Charset::Iso8859_15, Charset::Utf8, Charset::Utf16Le, Charset::Utf8,
    Charset::Utf8, Charset::Iso8859_14, Charset::Iso8859_2, Charset::Utf8,
    Charset::Utf8, Charset::Iso8859_5, Charset::Iso8859_2, Charset::Utf8,
    Charset::Utf8, Charset::Utf8, Charset::Iso8859_14, Charset::Iso8859_16,
    Charset::Utf8, Charset::Utf8, Charset::Utf8, Charset::Iso8859_4,
    Charset::Iso8859_14, Charset::Utf8, Charset::Utf8, Charset::Utf8,
    Charset::Iso8859_9, Charset::Utf8, Charset::Utf8, Charset::Utf8,
    Charset::Utf8, Charset::Iso8859_5, Charset::Iso8859_16, Charset::Utf8,
    Charset::Iso8859_6, Charset::Utf8, Charset::Iso8859_4, Charset::Iso8859_8,
    Charset::Utf8, Charset::Ibm850, Charset::Utf8, Charset::Iso8859_9,
    Charset::Ibm850, Charset::Windows1258, Charset::Iso8859_16, Charset::Utf8,
    Charset::Iso8859_9, Charset::Utf8, Charset::Windows1251, Charset::Iso8859_6,
    Charset::Utf8, Charset::Iso8859_4, Charset::Utf8, Charset::Utf8,
    Charset::Iso8859_7, Charset::Utf8, Charset::Iso8859_6, Charset::Utf8,
    Charset::Windows1255, Charset::Utf8, Charset::Utf8, Charset::Iso8859_2,
    Charset::Utf8, Charset::Utf8, Charset::Gbk, Charset::Utf8,
    Charset::Utf7, Charset::Utf8, Charset::Utf8, Charset::Utf8,
    Charset::Utf8, Charset::Iso8859_6, Charset::Utf8, Charset::Iso8859_3,
    Charset::Utf8, Charset::Utf8, Charset::Utf8, Charset::Iso8859_3,
    Charset::Windows1254, Charset::Utf8, Charset::Utf8, Charset::Iso8859_8,
    Charset::Iso8859_10, Charset::Utf8, Charset::Utf8, Charset::Utf8,
    Charset::Utf8, Charset::Iso8859_7, Charset::Windows1256, Charset::Utf8,
    Charset::Utf8, Charset::Utf8, Charset::Utf8, Charset::Utf8,
    Charset::Utf8, Charset::Utf8, Charset::Utf8, Charset::Iso8859_10,
    Charset::Utf8, Charset::Utf8, Charset::Utf8, Charset::Iso8859_7,
    Charset::Utf8, Charset::Utf8, Charset::Utf8, Charset::Utf8,
    Charset::Iso8859_7, Charset::Utf8, Charset::Utf8, Charset::Utf8,
    Charset::Utf8, Charset::Iso8859_3, Charset::Utf8, Charset::Utf8,
    Charset::Utf8, Charset::Utf8, Charset::Gbk, Charset::Utf8,
    Charset::Utf8, Charset::Utf8, Charset::Utf8, Charset::Utf8,
    Charset::Windows874, Charset::Utf8, Charset::Utf8, Charset::Utf8,
    Charset::Utf8, Charset::Iso8859_13, Charset::Utf8, Charset::Utf8,
    Charset::Utf8, Charset::Iso8859_1, Charset::Utf8, Charset::Windows1252,
    Charset::Utf8, Charset::Utf8, Charset::EucJp, Charset::Iso2022Jp,
    Charset::Utf8, Charset::Macintosh, Charset::Utf8, Charset::Iso8859_3,
    Charset::Utf8, Charset::Koi8R, Charset::Utf8, Charset::Utf8,
    Charset::Iso8859_2, Charset::Iso8859_6, Charset::Utf8, Charset::Utf8,
    Charset::Utf8, Charset::Utf8, Charset::Utf8, Charset::EucKr,
    Charset::Utf8, Charset::Macintosh, Charset::Gbk, Charset::Big5,
    Charset::Utf8, Charset::Utf8, Charset::Utf8, Charset::Iso8859_2,
    Charset::Utf8, Charset::Koi8U, Charset::Windows1258, Charset::Utf8,
    Charset::Utf8, Charset::Utf8, Charset::Windows1250, Charset::Windows1251,
    Charset::Utf8, Charset::Iso8859_6, Charset::Utf8, Charset::Iso8859_16,
    Charset::Utf8, Charset::Utf8, Charset::Iso8859_1, Charset::Gbk,
    Charset::Tis620, Charset::Windows1255, Charset::Utf8, Charset::Iso8859_4,
    Charset::Utf8, Charset::Windows1257, Charset::Utf8, Charset::Utf8,
    Charset::Utf8, Charset::Utf8, Charset::Utf8, Charset::Utf8,
    Charset::Utf8, Charset::Iso8859_16, Charset::Iso8859_1, Charset::Windows874,
    Charset::Utf8, Charset::Utf8, Charset::Utf8, Charset::Iso8859_8,
    Charset::Windows1253, Charset::Windows1254, Charset::Utf8, Charset::Utf8,
    Charset::Iso8859_9, Charset::Utf8, Charset::Utf8, Charset::Utf8,
    Charset::Iso8859_7, Charset::Utf8, Charset::Utf8, Charset::Windows1256,
    Charset::Utf8, Charset::Utf8, Charset::Utf8, Charset::Utf8,
    Charset::Utf8, Charset::Utf8, Charset::Iso8859_2, Charset::Iso8859_15,
    Charset::Utf8, Charset::Utf8, Charset::Utf8, Charset::Iso8859_10,
    Charset::Iso8859_4, Charset::Utf8, Charset::Utf8, Charset::Utf8,
    Charset::Utf8, Charset::Utf8, Charset::Utf8, Charset::Utf8,
    Charset::EucJp, Charset::Ibm866, Charset::Iso8859_10, Charset::Utf8,
    Charset::Utf8, Charset::Utf8, Charset::Utf8, Charset::Iso8859_14,
    Charset::Utf8, Charset::Utf8, Charset::Utf8, Charset::Utf8,
    Charset::Utf8, Charset::Utf16, Charset::Utf8, Charset::Utf8,
    Charset::Iso8859_7, Charset::Iso8859_16, Charset::Utf8, Charset::Utf8,
    Charset::Utf8, Charset::Utf8, Charset::Utf8, Charset::Utf8,
    Charset::Windows1252, Charset::Utf8, Charset::Utf8, Charset::Utf8,
    Charset::Utf8, Charset::Utf8, Charset::Utf8, Charset::Iso8859_7,
    Charset::Utf8, Charset::Utf8, Charset::Utf8, Charset::Utf8,
    Charset::Iso8859_7, Charset::Utf8, Charset::Utf8, Charset::Utf8,
    Charset::Utf16Be, Charset::Utf8, Charset::Utf8, Charset::Utf8,
    Charset::Utf8, Charset::Utf16Le, Charset::Iso8859_3, Charset::Iso8859_2,
    Charset::Utf8, Charset::Ibm866, Charset::Utf8, Charset::Ibm850,
    Charset::Utf8, Charset::Utf8, Charset::Utf8, Charset::Utf8,
    Charset::ShiftJis, Charset::Utf8, Charset::Utf8, Charset::Windows1250,
    Charset::Utf8, Charset::Iso8859_3, Charset::Utf7, Charset::Utf8,
    Charset::Utf8, Charset::Utf8, Charset::Iso8859_6, Charset::Utf8,
    Charset::Utf8, Charset::Utf8, Charset::Utf8, Charset::Iso8859_1,
    Charset::Macintosh, Charset::Gb18030, Charset::Windows1257, Charset::Utf8,
    Charset::Utf8, Charset::Utf8, Charset::Utf8, Charset::Utf8,
    Charset::Utf8, Charset::Utf8, Charset::Utf8, Charset::Utf8,
    Charset::Utf8, Charset::Utf8, Charset::Utf8, Charset::Utf8,
    Charset::Utf8, Charset::Windows1253, Charset::Utf8, Charset::Utf8,
    Charset::Utf8, Charset::Utf8, Charset::Utf8, Charset::Utf8,
    Charset::Utf8, Charset::Utf8, Charset::Utf8, Charset::Utf8,
    Charset::Utf8, Charset::Utf8, Charset::Utf8, Charset::Utf8,
    Charset::Utf8, Charset::Utf8, Charset::Utf8, Charset::Utf8,
    Charset::Utf8, Charset::Utf8, Charset::Utf8, Charset::Gbk,
    Charset::Iso8859_3, Charset::Utf8, Charset::Utf8, Charset::Utf8,
    Charset::Utf8, Charset::Utf8, Charset::Utf8, Charset::Utf8,
    Charset::Utf8, Charset::Utf8, Charset::Utf8, Charset::Utf8,
    Charset::Utf8, Charset::Utf8, Charset::Utf8, Charset::Iso8859_13,
    Charset::Utf8, Charset::Utf8, Charset::Utf8, Charset::Utf8,
    Charset::Utf8, Charset::Utf8, Charset::Utf8, Charset::Utf8,
    Charset::Utf8, Charset::Utf8, Charset::Utf8, Charset::Utf8,
    Charset::Utf8, Charset::Utf8, Charset::Utf8, Charset::Utf8,
    Charset::Utf8, Charset::Utf8, Charset::Utf8, Charset::Utf8,
    Charset::Utf8, Charset::Utf8, Charset::Utf8, Charset::Utf8,
    Charset::Utf8, Charset::Utf8, Charset::Utf8, Charset::Utf8,
    Charset::Iso8859_14, Charset::Utf8, Charset::Utf8, Charset::Utf8,
    Charset::Utf8, Charset::Utf8, Charset::Utf8, Charset::Utf8,
    Charset::Utf8, Charset::Utf8, Charset::Utf8, Charset::Utf8,
    Charset::Utf8, Charset::Utf8, Charset::Utf8, Charset::Utf8,
    Charset::Utf8, Charset::Utf8, Charset::Utf8, Charset::Utf8,
    Charset::Utf8, Charset::Utf8, Charset::Utf8, Charset::Utf8,
    Charset::Utf8, Charset::Utf8, Charset::Utf8, Charset::Utf8,
    Charset::Utf8, Charset::Utf8, Charset::Utf8, Charset::Iso8859_6,
    Charset::Utf8, Charset::Iso8859_5, Charset::Utf8, Charset::Utf8,
    Charset::Utf8, Charset::Utf8, Charset::Utf8, Charset::Utf8,
    Charset::Utf8, Charset::Utf8, Charset::Utf8, Charset::Utf8,
    Charset::Utf8, Charset::Utf8, Charset::Utf8, Charset::Utf8,
    Charset::Utf8, Charset::Utf8, Charset::Utf8, Charset::Utf8,
    Charset::Utf8, Charset::Utf8, Charset::Utf8, Charset::Utf8,
    Charset::Utf8, Charset::Utf8, Charset::Utf8, Charset::Utf8,
    Charset::Utf8, Charset::Utf8, Charset::Utf8, Charset::Utf8,
    Charset::Utf8, Charset::Utf8, Charset::Utf8, Charset::Utf8,
    Charset::Utf8, Charset::Utf8, Charset::Utf8, Charset::Utf8,
    Charset::Utf8, Charset::Utf8, Charset::Utf8, Charset::Utf8,
    Charset::Utf8, Charset::Utf8, Charset::Utf8, Charset::Utf8,
    Charset::Utf8, Charset::Utf8, Charset::Utf8, Charset::Utf8,
    Charset::Utf8, Charset::Utf8, Charset::Utf8, Charset::Utf8,
    Charset::Utf8, Charset::Utf8, Charset::Utf8, Charset::Utf8,
    Charset::Utf8, Charset::Utf8, Charset::Utf8, Charset::Utf8,
    Charset::Utf8, Charset::Utf8, Charset::Tis620, Charset::Utf8,
    Charset::Utf8, Charset::Utf8, Charset::Utf8, Charset::Utf8,
    Charset::Utf8, Charset::Utf8, Charset::Iso2022Jp, Charset::Utf8,
    Charset::Utf8, Charset::Utf8, Charset::Utf8, Charset::Utf8,
    Charset::Utf8, Charset::Utf8, Charset::Utf8, Charset::Utf8,
    Charset::Utf8, Charset::Utf8, Charset::Utf8, Charset::Utf8,
    Charset::Utf8, Charset::Utf8, Charset::Utf8, Charset::Utf8,
    Charset::Utf8, Charset::Utf8, Charset::Utf8, Charset::Utf8,
    Charset::Utf8, Charset::Utf8, Charset::Utf8, Charset::Utf8,
    Charset::Utf8, Charset::Utf8, Charset::Utf8, Charset::Utf8,
    Charset::Utf8, Charset::Utf8, Charset::Utf8, Charset::Ibm850,
    Charset::Utf8, Charset::Utf8, Charset::Utf8, Charset::Utf8,
    Charset::Utf8, Charset::Utf8, Charset::Utf8, Charset::Utf8,
    Charset::Utf8, Charset::Utf8, Charset::Utf8, Charset::Utf8,
    Charset::Utf8, Charset::Utf8, Charset::Utf8, Charset::Utf8,
    Charset::Utf8, Charset::Utf8, Charset::Utf8, Charset::Utf8,
    Charset::Utf8, Charset::Utf8, Charset::Utf8, Charset::Utf8,
    Charset::Utf8, Charset::Utf8, Charset::Utf8, Charset::Utf8,
    Charset::Utf8, Charset::Utf8, Charset::Utf8, Charset::Utf8,
    Charset::Utf8, Charset::Utf8, Charset::Utf8, Charset::Utf8,
    Charset::Utf8, Charset::Utf8, Charset::Utf8, Charset::Utf8,
    Charset::Utf8, Charset::Utf8, Charset::Utf8, Charset::Utf8,
    Charset::Utf8, Charset::Utf8, Charset::Utf8, Charset::Utf8,
    Charset::Utf8, Charset::Utf8, Charset::Utf8, Charset::Utf8,
    Charset::Utf8, Charset::Utf8, Charset::Utf8, Charset::Utf8,
    Charset::Utf8, Charset::Utf8, Charset::Utf8, Charset::Utf8,
    Charset::Utf8, Charset::Utf8, Charset::Utf8, Charset::Utf8,
    Charset::Utf8, Charset::Utf8, Charset::Utf8, Charset::Utf8,
    Charset::Iso8859_5, Charset::Utf8, Charset::Utf8, Charset::Utf8,
    Charset::Utf8, Charset::Utf8, Charset::Utf8, Charset::Utf8,
    Charset::Utf8, Charset::Utf8, Charset::Utf8, Charset::Utf8,
    Charset::Utf8, Charset::Utf8, Charset::Utf8, Charset::Utf8,
    Charset::Utf8, Charset::Utf8, Charset::Utf8, Charset::Utf8,
    Charset::Utf8, Charset::Utf8, Charset::Utf8, Charset::Utf8,
    Charset::Utf8, Charset::Utf8, Charset::Utf8, Charset::Utf8,
    Charset::Utf8, Charset::Utf8, Charset::Utf8, Charset::Utf8,
    Charset::Utf8, Charset::Utf8, Charset::Utf8, Charset::Utf8,
    Charset::Utf8, Charset::Utf8, Charset::Utf8, Charset::Utf8,
    Charset::Utf8, Charset::Utf8, Charset::Utf8, Charset::Utf8,
    Charset::Utf8, Charset::Utf8, Charset::Utf8, Charset::Utf8,
    Charset::Utf8, Charset::Utf8, Charset::Utf8, Charset::Utf8,
    Charset::Utf8, Charset::Utf8, Charset::Utf8, Charset::Utf8,
    Charset::Utf8, Charset::Utf8, Charset::Utf8, Charset::Utf8,
    Charset::Utf8, Charset::Utf8, Charset::Utf8, Charset::Utf8,
    Charset::Utf8, Charset::Utf8, Charset::Utf8, Charset::Utf8,
    Charset::Utf8, Charset::Utf8, Charset::Utf8, Charset::Utf8,
    Charset::Utf8, Charset::Utf8, Charset::Utf8, Charset::Utf8,
    Charset::Utf8, Charset::Utf8, Charset::Utf8, Charset::Utf8,
    Charset::Utf8, Charset::Gb18030,
];

/// What the byte at position `pos` of `name` adds to the hash.
pub open spec fn hash_at(name: Seq<u8>, pos: int) -> int {
    if 0 <= pos < name.len() {
        CH_HASH[name[pos] as int] as int
    } else {
        0
    }
}

/// The hash of a name in lower case: its length and what the bytes at the
/// positions 0, 3, 6, 7, 8, 9 and at the last position add.
pub open spec fn charset_hash(name: Seq<u8>) -> int {
    name.len() + hash_at(name, 0) + hash_at(name, 3) + hash_at(name, 6) + hash_at(name, 7)
        + hash_at(name, 8) + hash_at(name, 9) + hash_at(name, name.len() - 1)
}

/// The character set called `name`, in any case of letters: the name, in lower
/// case, stands in `CH_MAP` at its hash.
pub open spec fn charset_lookup(name: Seq<u8>) -> Option<Charset> {
    let low = lower_bytes(name);
    let hash = charset_hash(low);
    if MIN_NAME_LEN <= name.len() <= MAX_NAME_LEN && MIN_HASH <= hash <= MAX_HASH && CH_MAP[hash
        - MIN_HASH].spec_bytes() == low {
        Some(FNC_MAP[hash - MIN_HASH])
    } else {
        None
    }
}

fn hash_of(charset: &[u8], pos: usize) -> (r: u32)
    ensures
        r == hash_at(lower_bytes(charset@), pos as int),
        r <= 765,
{
    if pos < charset.len() {
        let h: u32 = CH_HASH[to_lower(charset[pos]) as usize];
        assert(h <= 765) by {
            assert(forall|i: int| 0 <= i < 256 ==> #[trigger] CH_HASH[i] <= 765);
        }
        h
    } else {
        0
    }
}

/// Whether `name` is the lower-case form of `charset`.
fn is_lower_case_of(name: &[u8], charset: &[u8]) -> (r: bool)
    ensures
        r == (name@ == lower_bytes(charset@)),
{
    let len: usize = charset.len();
    if name.len() != len {
        return false;
    }
    let mut i: usize = 0;
    while i < len
        invariant
            i <= len,
            len == charset@.len(),
            len == name@.len(),
            forall|k: int| 0 <= k < i ==> name@[k] == lower_bytes(charset@)[k],
        decreases len - i,
    {
        if name[i] != to_lower(charset[i]) {
            assert(name@[i as int] != lower_bytes(charset@)[i as int]);
            return false;
        }
        i += 1;
    }
    assert(name@ =~= lower_bytes(charset@));
    true
}

/// Finds the decoder of the character set called `charset`, in any case of
/// letters.
pub fn get_charset_decoder(charset: &[u8]) -> (r: Option<Charset>)
    ensures
        r == charset_lookup(charset@),
{
    let len: usize = charset.len();
    if len < MIN_NAME_LEN || len > MAX_NAME_LEN {
        return None;
    }
    let ghost low = lower_bytes(charset@);
    let hash: u32 = (len as u32) + hash_of(charset, 0) + hash_of(charset, 3) + hash_of(charset, 6)
        + hash_of(charset, 7) + hash_of(charset, 8) + hash_of(charset, 9) + hash_of(
        charset,
        len - 1,
    );
    if hash < MIN_HASH || hash > MAX_HASH {
        return None;
    }
    let slot: usize = (hash - MIN_HASH) as usize;
    if is_lower_case_of(CH_MAP[slot].as_bytes(), charset) {
        Some(FNC_MAP[slot])
    } else {
        None
    }
}

/// Decodes `bytes` as UTF-8, malformed sequences replaced by U+FFFD.
pub fn decoder_default(bytes: &[u8]) -> (res: String)
    ensures
        res@ == utf8_lossy(bytes@),
        res@ == Charset::Utf8.text(bytes@),
{
    lossy_string(bytes)
}

/// The case of the letters of a name does not matter: two names that are
/// equal in lower case have the same character set.
pub proof fn lookup_ignores_case(a: Seq<u8>, b: Seq<u8>)
    requires
        lower_bytes(a) == lower_bytes(b),
    ensures
        charset_lookup(a) == charset_lookup(b),
{
    assert(a.len() == lower_bytes(a).len());
    assert(b.len() == lower_bytes(b).len());
}

/// A name and its lower-case form have the same character set.
pub proof fn lookup_of_lower_case(a: Seq<u8>)
    ensures
        charset_lookup(lower_bytes(a)) == charset_lookup(a),
{
    crate::text::lower_bytes_idempotent(a);
    lookup_ignores_case(lower_bytes(a), a);
}

} // verus!
