//! Percent-decoding.

use crate::decoders::quoted_printable::hex_digit;
use crate::decoders::quoted_printable::hex_value;
use crate::decoders::quoted_printable::QpMode;
use vstd::prelude::*;

verus! {

/// The state of the percent-decoder.
pub struct HexState {
    /// The bytes decoded so far.
    pub out: Seq<u8>,
    pub mode: QpMode,
    /// Value of the first hexadecimal digit of an escape.
    pub high: u8,
    /// Whether every escape so far was well-formed.
    pub ok: bool,
}

/// Reads one byte.
pub open spec fn hex_step(s: HexState, b: u8) -> HexState {
    if !s.ok {
        s
    } else if b == 37 {
        if s.mode == QpMode::Plain {
            HexState { mode: QpMode::Escape, ..s }
        } else {
            HexState { ok: false, ..s }
        }
    } else {
        match s.mode {
            QpMode::Plain => HexState { out: s.out.push(b), ..s },
            QpMode::Escape => match hex_value(b) {
                Some(h) => HexState { mode: QpMode::HighDigit, high: h, ..s },
                None => HexState { ok: false, ..s },
            },
            QpMode::HighDigit => match hex_value(b) {
                Some(l) => HexState {
                    mode: QpMode::Plain,
                    out: s.out.push((s.high * 16 + l) as u8),
                    ..s
                },
                None => HexState { ok: false, ..s },
            },
        }
    }
}

/// The state after the first `n` bytes.
pub open spec fn hex_scan(bytes: Seq<u8>, n: int) -> HexState
    decreases n,
{
    if n <= 0 {
        HexState { out: Seq::empty(), mode: QpMode::Plain, high: 0, ok: true }
    } else {
        hex_step(hex_scan(bytes, n - 1), bytes[n - 1])
    }
}

/// The bytes that `bytes` stand for, where `%` and two hexadecimal digits
/// stand for one byte and every other byte for itself; `None` where a `%` is
/// followed by anything but two hexadecimal digits. An escape that the end of
/// the input cuts short is dropped.
pub open spec fn percent_decoded(bytes: Seq<u8>) -> Option<Seq<u8>> {
    let s = hex_scan(bytes, bytes.len() as int);
    if s.ok {
        Some(s.out)
    } else {
        None
    }
}

/// Percent-decodes `src`. The flag tells whether every escape was
/// well-formed; if one was not, the bytes are those decoded before it.
pub fn decode_hex(src: &[u8]) -> (r: (bool, Vec<u8>))
    ensures
        r.0 == percent_decoded(src@) is Some,
        r.1@ == hex_scan(src@, src@.len() as int).out,
        r.0 ==> r.1@ == percent_decoded(src@)->0,
{
    let mut out: Vec<u8> = Vec::new();
    let mut mode = QpMode::Plain;
    let mut high: u8 = 0;
    let mut i: usize = 0;
    while i < src.len()
        invariant
            i <= src@.len(),
            high < 16,
            hex_scan(src@, i as int) == (HexState { out: out@, mode, high, ok: true }),
        decreases src@.len() - i,
    {
        let b: u8 = src[i];
        let ghost s = hex_scan(src@, i as int);
        assert(hex_scan(src@, i + 1) == hex_step(s, b));
        let mut ok: bool = true;
        if b == 37 {
            if mode == QpMode::Plain {
                mode = QpMode::Escape;
            } else {
                ok = false;
            }
        } else {
            match mode {
                QpMode::Plain => {
                    out.push(b);
                },
                QpMode::Escape => match hex_digit(b) {
                    Some(h) => {
                        mode = QpMode::HighDigit;
                        high = h;
                    },
                    None => {
                        ok = false;
                    },
                },
                QpMode::HighDigit => match hex_digit(b) {
                    Some(l) => {
                        mode = QpMode::Plain;
                        out.push(high * 16 + l);
                    },
                    None => {
                        ok = false;
                    },
                },
            }
        }
        if !ok {
            proof {
                hex_failure_stays(src@, i + 1, src@.len() as int);
            }
            return (false, out);
        }
        i += 1;
    }
    (true, out)
}

/// Once an escape is malformed, nothing more is decoded.
proof fn hex_failure_stays(bytes: Seq<u8>, n: int, m: int)
    requires
        0 <= n <= m,
        !hex_scan(bytes, n).ok,
    ensures
        hex_scan(bytes, m) == hex_scan(bytes, n),
    decreases m - n,
{
    if n < m {
        hex_failure_stays(bytes, n, m - 1);
    }
}

} // verus!
