//! UTF-16 and UTF-7.

use vstd::prelude::*;

verus! {

/// The text that lossy UTF-16 decoding yields for `units`: each unpaired
/// surrogate becomes U+FFFD.
pub uninterp spec fn utf16_lossy(units: Seq<u16>) -> Seq<char>;

/// Decodes UTF-16 code units, replacing unpaired surrogates by U+FFFD.
///
/// Trusted: the body calls `String::from_utf16_lossy`; the contract names its
/// result.
#[verifier::external_body]
pub(crate) fn utf16_string(units: &[u16]) -> (res: String)
    ensures
        res@ == utf16_lossy(units@),
{
    String::from_utf16_lossy(units)
}

/// The code unit made of two bytes.
pub open spec fn unit_of(first: u8, second: u8, big_endian: bool) -> u16 {
    if big_endian {
        (first * 256 + second) as u16
    } else {
        (second * 256 + first) as u16
    }
}

/// The code units that `bytes` hold, two bytes each; a last single byte is
/// left out.
pub open spec fn utf16_units(bytes: Seq<u8>, big_endian: bool) -> Seq<u16> {
    Seq::new(bytes.len() / 2, |i: int| unit_of(bytes[2 * i], bytes[2 * i + 1], big_endian))
}

/// The code units that `bytes` hold behind a byte order mark. Without a mark
/// the bytes are little-endian.
pub open spec fn utf16_marked_units(bytes: Seq<u8>) -> Seq<u16> {
    if bytes.len() >= 2 && bytes[0] == 0xfe && bytes[1] == 0xff {
        utf16_units(bytes.skip(2), true)
    } else if bytes.len() >= 2 && bytes[0] == 0xff && bytes[1] == 0xfe {
        utf16_units(bytes.skip(2), false)
    } else {
        utf16_units(bytes, false)
    }
}

fn units_from(bytes: &[u8], start: usize, big_endian: bool) -> (r: Vec<u16>)
    requires
        start <= bytes@.len(),
    ensures
        r@ == utf16_units(bytes@.skip(start as int), big_endian),
{
    let n: usize = (bytes.len() - start) / 2;
    let mut out: Vec<u16> = Vec::new();
    let mut i: usize = 0;
    let ghost rest = bytes@.skip(start as int);
    while i < n
        invariant
            i <= n,
            start <= bytes@.len() <= usize::MAX,
            n == (bytes@.len() - start) / 2,
            rest == bytes@.skip(start as int),
            out@ == Seq::new(
                i as nat,
                |k: int| unit_of(rest[2 * k], rest[2 * k + 1], big_endian),
            ),
        decreases n - i,
    {
        let first: u8 = bytes[start + 2 * i];
        let second: u8 = bytes[start + 2 * i + 1];
        let unit: u16 = if big_endian {
            (first as u16) * 256 + (second as u16)
        } else {
            (second as u16) * 256 + (first as u16)
        };
        assert(rest[2 * i] == first && rest[2 * i + 1] == second);
        out.push(unit);
        assert(out@ =~= Seq::new(
            (i + 1) as nat,
            |k: int| unit_of(rest[2 * k], rest[2 * k + 1], big_endian),
        ));
        i += 1;
    }
    assert(out@ =~= utf16_units(rest, big_endian));
    out
}

/// Decodes little-endian UTF-16.
pub fn decoder_utf16_le(bytes: &[u8]) -> (res: String)
    ensures
        res@ == utf16_lossy(utf16_units(bytes@, false)),
{
    assert(bytes@.skip(0) =~= bytes@);
    let units = units_from(bytes, 0, false);
    utf16_string(units.as_slice())
}

/// Decodes big-endian UTF-16.
pub fn decoder_utf16_be(bytes: &[u8]) -> (res: String)
    ensures
        res@ == utf16_lossy(utf16_units(bytes@, true)),
{
    assert(bytes@.skip(0) =~= bytes@);
    let units = units_from(bytes, 0, true);
    utf16_string(units.as_slice())
}

/// Decodes UTF-16 whose byte order is given by a byte order mark.
pub fn decoder_utf16(bytes: &[u8]) -> (res: String)
    ensures
        res@ == utf16_lossy(utf16_marked_units(bytes@)),
{
    assert(bytes@.skip(0) =~= bytes@);
    let units = if bytes.len() >= 2 && bytes[0] == 0xfe && bytes[1] == 0xff {
        units_from(bytes, 2, true)
    } else if bytes.len() >= 2 && bytes[0] == 0xff && bytes[1] == 0xfe {
        units_from(bytes, 2, false)
    } else {
        units_from(bytes, 0, false)
    };
    utf16_string(units.as_slice())
}

/// The value of a digit of the base64 alphabet.
pub open spec fn base64_value(b: u8) -> Option<u8> {
    if 65 <= b <= 90 {
        Some((b - 65) as u8)
    } else if 97 <= b <= 122 {
        Some((b - 71) as u8)
    } else if 48 <= b <= 57 {
        Some((b + 4) as u8)
    } else if b == 43 {
        Some(62)
    } else if b == 47 {
        Some(63)
    } else {
        None
    }
}

/// The value of a digit of the base64 alphabet.
pub fn base64_digit(b: u8) -> (r: Option<u8>)
    ensures
        r == base64_value(b),
        r matches Some(v) ==> v < 64,
{
    if 65 <= b && b <= 90 {
        Some(b - 65)
    } else if 97 <= b && b <= 122 {
        Some(b - 71)
    } else if 48 <= b && b <= 57 {
        Some(b + 4)
    } else if b == 43 {
        Some(62)
    } else if b == 47 {
        Some(63)
    } else {
        None
    }
}

/// The state of the UTF-7 decoder.
pub struct Utf7State {
    /// The code units decoded so far.
    pub units: Seq<u16>,
    /// Whether a base64 run is open.
    pub shifted: bool,
    /// Whether the open run has just begun.
    pub fresh: bool,
    /// The bits of the open run that do not yet make a code unit.
    pub bits: u32,
    /// How many such bits there are, less than 16.
    pub count: u32,
}

/// The code unit of a byte that stands for itself: bytes above 127 have no
/// place in UTF-7 and become U+FFFD.
pub open spec fn direct_unit(b: u8) -> u16 {
    if b < 128 {
        b as u16
    } else {
        0xfffd
    }
}

/// Reads one byte of UTF-7.
pub open spec fn utf7_step(s: Utf7State, b: u8) -> Utf7State {
    if !s.shifted {
        if b == 43 {
            Utf7State { shifted: true, fresh: true, bits: 0, count: 0, ..s }
        } else {
            Utf7State { units: s.units.push(direct_unit(b)), ..s }
        }
    } else {
        match base64_value(b) {
            Some(v) => {
                let bits = (s.bits * 64 + v) as u32;
                let count = (s.count + 6) as u32;
                if count >= 16 {
                    let spare = (count - 16) as u32;
                    let unit = if spare == 0 {
                        bits
                    } else if spare == 2 {
                        bits / 4
                    } else {
                        bits / 16
                    };
                    let left = if spare == 0 {
                        0
                    } else if spare == 2 {
                        bits % 4
                    } else {
                        bits % 16
                    };
                    Utf7State {
                        units: s.units.push(unit as u16),
                        fresh: false,
                        bits: left as u32,
                        count: spare,
                        ..s
                    }
                } else {
                    Utf7State { fresh: false, bits, count, ..s }
                }
            },
            None => if b == 45 {
                Utf7State {
                    units: if s.fresh {
                        s.units.push(43)
                    } else {
                        s.units
                    },
                    shifted: false,
                    fresh: false,
                    bits: 0,
                    count: 0,
                    ..s
                }
            } else {
                Utf7State {
                    units: s.units.push(direct_unit(b)),
                    shifted: false,
                    fresh: false,
                    bits: 0,
                    count: 0,
                    ..s
                }
            },
        }
    }
}

/// The state after the first `n` bytes.
pub open spec fn utf7_scan(bytes: Seq<u8>, n: int) -> Utf7State
    decreases n,
{
    if n <= 0 {
        Utf7State { units: Seq::empty(), shifted: false, fresh: false, bits: 0, count: 0 }
    } else {
        utf7_step(utf7_scan(bytes, n - 1), bytes[n - 1])
    }
}

/// The UTF-16 code units that a UTF-7 text stands for. `+` opens a run of
/// base64 digits that spell code units, sixteen bits each; the run ends at
/// the first byte that is no digit, and a `-` that ends it is dropped. `+-`
/// stands for `+`.
pub open spec fn utf7_units(bytes: Seq<u8>) -> Seq<u16> {
    utf7_scan(bytes, bytes.len() as int).units
}

/// Decodes UTF-7.
pub fn decoder_utf7(bytes: &[u8]) -> (res: String)
    ensures
        res@ == utf16_lossy(utf7_units(bytes@)),
{
    let mut units: Vec<u16> = Vec::new();
    let mut shifted: bool = false;
    let mut fresh: bool = false;
    let mut bits: u32 = 0;
    let mut count: u32 = 0;
    let mut i: usize = 0;
    while i < bytes.len()
        invariant
            i <= bytes@.len(),
            count < 16,
            count % 2 == 0,
            bits < 0x10000,
            count == 0 ==> bits == 0,
            count == 2 ==> bits < 4,
            count == 4 ==> bits < 16,
            count == 6 ==> bits < 64,
            count == 8 ==> bits < 256,
            count == 10 ==> bits < 1024,
            count == 12 ==> bits < 4096,
            count == 14 ==> bits < 16384,
            utf7_scan(bytes@, i as int) == (Utf7State {
                units: units@,
                shifted,
                fresh,
                bits,
                count,
            }),
        decreases bytes@.len() - i,
    {
        let b: u8 = bytes[i];
        let ghost s = utf7_scan(bytes@, i as int);
        assert(utf7_scan(bytes@, i + 1) == utf7_step(s, b));
        if !shifted {
            if b == 43 {
                shifted = true;
                fresh = true;
                bits = 0;
                count = 0;
            } else {
                units.push(if b < 128 {
                    b as u16
                } else {
                    0xfffd
                });
            }
        } else {
            match base64_digit(b) {
                Some(v) => {
                    let all: u32 = bits * 64 + (v as u32);
                    let n: u32 = count + 6;
                    fresh = false;
                    if n >= 16 {
                        let spare: u32 = n - 16;
                        if spare == 0 {
                            units.push(all as u16);
                            bits = 0;
                        } else if spare == 2 {
                            units.push((all / 4) as u16);
                            bits = all % 4;
                        } else {
                            units.push((all / 16) as u16);
                            bits = all % 16;
                        }
                        count = spare;
                    } else {
                        bits = all;
                        count = n;
                    }
                },
                None => {
                    if b == 45 {
                        if fresh {
                            units.push(43);
                        }
                    } else {
                        units.push(if b < 128 {
                            b as u16
                        } else {
                            0xfffd
                        });
                    }
                    shifted = false;
                    fresh = false;
                    bits = 0;
                    count = 0;
                },
            }
        }
        i += 1;
    }
    utf16_string(units.as_slice())
}

} // verus!
