//! Base64 decoding that stops at a MIME boundary.

use crate::decoders::charsets::utf::base64_digit;
use crate::decoders::charsets::utf::base64_value;
use crate::decoders::DecodeResult;
use crate::decoders::DecodeResultView;
use crate::parsers::message::MessageStream;
use crate::parsers::mime::find_boundary;
use crate::parsers::mime::find_pattern;
use crate::parsers::mime::first_match_is_match;
use vstd::prelude::*;

verus! {

/// The state of the scan for base64 digits.
pub struct Base64State {
    /// The values of the digits found so far.
    pub digits: Seq<u8>,
    /// Whether padding was met: what follows it is not read.
    pub closed: bool,
    /// Whether every byte so far was a digit, padding or white space.
    pub ok: bool,
}

/// White space between base64 digits.
pub open spec fn is_base64_space(b: u8) -> bool {
    b == 32 || b == 9 || b == 13 || b == 10
}

/// Reads one byte.
pub open spec fn base64_step(s: Base64State, b: u8) -> Base64State {
    if !s.ok || s.closed || is_base64_space(b) {
        s
    } else if b == 61 {
        Base64State { closed: true, ..s }
    } else {
        match base64_value(b) {
            Some(v) => Base64State { digits: s.digits.push(v), ..s },
            None => Base64State { ok: false, ..s },
        }
    }
}

/// The state after the bytes of `data` from `from` up to `to`.
pub open spec fn base64_scan(data: Seq<u8>, from: int, to: int) -> Base64State
    decreases to - from,
{
    if to <= from {
        Base64State { digits: Seq::empty(), closed: false, ok: true }
    } else {
        base64_step(base64_scan(data, from, to - 1), data[to - 1])
    }
}

/// How many bytes `n` digits make: three for every four, and one or two for
/// a last group of two or three. A last single digit makes nothing.
pub open spec fn base64_len(n: int) -> int {
    n / 4 * 3 + if n % 4 == 2 {
        1int
    } else if n % 4 == 3 {
        2int
    } else {
        0int
    }
}

/// The byte at position `k` of what `digits` make.
pub open spec fn base64_byte(digits: Seq<u8>, k: int) -> u8 {
    let g = 4 * (k / 3);
    if k % 3 == 0 {
        (digits[g] * 4 + digits[g + 1] / 16) as u8
    } else if k % 3 == 1 {
        ((digits[g + 1] % 16) * 16 + digits[g + 2] / 4) as u8
    } else {
        ((digits[g + 2] % 4) * 64 + digits[g + 3]) as u8
    }
}

/// The bytes that `digits` make.
pub open spec fn base64_bytes(digits: Seq<u8>) -> Seq<u8> {
    Seq::new(base64_len(digits.len() as int) as nat, |k: int| base64_byte(digits, k))
}

/// Whether a line feed stands in `data[from..to]`.
pub open spec fn holds_line_feed(data: Seq<u8>, from: int, to: int) -> bool {
    exists|k: int| from <= k < to && 0 <= k < data.len() && #[trigger] data[k] == 10
}

/// What [`decode_base64`] returns: the number of bytes consumed, which is
/// zero on failure, and the decoded bytes. In an encoded word a line feed is
/// a failure.
pub open spec fn base64_result(data: Seq<u8>, start: int, boundary: Seq<u8>, is_word: bool) -> (
    int,
    DecodeResultView,
) {
    let end = if boundary.len() == 0 {
        Some(data.len() as int)
    } else {
        find_pattern(data, start, boundary, !is_word)
    };
    match end {
        Some(end) => {
            let s = base64_scan(data, start, end);
            if s.ok && !(is_word && holds_line_feed(data, start, end)) {
                (
                    end + boundary.len() - start,
                    if base64_len(s.digits.len() as int) > 0 {
                        DecodeResultView::Owned(base64_bytes(s.digits))
                    } else {
                        DecodeResultView::Empty
                    },
                )
            } else {
                (0, DecodeResultView::Empty)
            }
        },
        None => (0, DecodeResultView::Empty),
    }
}

/// Once a byte is no part of base64, nothing that follows mends it.
proof fn base64_failure_stays(data: Seq<u8>, from: int, n: int, m: int)
    requires
        from <= n <= m,
        !base64_scan(data, from, n).ok,
    ensures
        !base64_scan(data, from, m).ok,
    decreases m - n,
{
    if n < m {
        base64_failure_stays(data, from, n, m - 1);
    }
}

/// What follows the padding is not read.
proof fn base64_closed_stays(data: Seq<u8>, from: int, n: int, m: int)
    requires
        from <= n <= m,
        base64_scan(data, from, n).closed,
        base64_scan(data, from, n).ok,
    ensures
        base64_scan(data, from, m) == base64_scan(data, from, n),
    decreases m - n,
{
    if n < m {
        base64_closed_stays(data, from, n, m - 1);
    }
}

/// The digits of `data[from..to]`, or nothing if a byte there is neither a
/// digit nor padding nor white space.
fn base64_digits(data: &[u8], from: usize, to: usize) -> (r: Option<Vec<u8>>)
    requires
        from <= to <= data@.len(),
    ensures
        r is Some == base64_scan(data@, from as int, to as int).ok,
        r matches Some(d) ==> {
            &&& d@ == base64_scan(data@, from as int, to as int).digits
            &&& forall|k: int| 0 <= k < d@.len() ==> d@[k] < 64
        },
{
    let mut digits: Vec<u8> = Vec::new();
    let mut i: usize = from;
    while i < to
        invariant
            from <= i <= to <= data@.len(),
            base64_scan(data@, from as int, i as int) == (Base64State {
                digits: digits@,
                closed: false,
                ok: true,
            }),
            forall|k: int| 0 <= k < digits@.len() ==> digits@[k] < 64,
        decreases to - i,
    {
        let b: u8 = data[i];
        let ghost s = base64_scan(data@, from as int, i as int);
        assert(base64_scan(data@, from as int, i + 1) == base64_step(s, b));
        if b == 32 || b == 9 || b == 13 || b == 10 {
        } else if b == 61 {
            proof {
                base64_closed_stays(data@, from as int, i + 1, to as int);
            }
            return Some(digits);
        } else {
            match base64_digit(b) {
                Some(v) => {
                    digits.push(v);
                },
                None => {
                    proof {
                        base64_failure_stays(data@, from as int, i + 1, to as int);
                    }
                    return None;
                },
            }
        }
        i += 1;
    }
    Some(digits)
}

/// The bytes that `digits` make.
fn base64_join(digits: &Vec<u8>) -> (r: Vec<u8>)
    requires
        forall|k: int| 0 <= k < digits@.len() ==> digits@[k] < 64,
    ensures
        r@ == base64_bytes(digits@),
{
    let n: usize = digits.len();
    let total: usize = n / 4 * 3 + if n % 4 == 2 {
        1
    } else if n % 4 == 3 {
        2
    } else {
        0
    };
    let mut out: Vec<u8> = Vec::new();
    let mut k: usize = 0;
    while k < total
        invariant
            k <= total,
            n == digits@.len(),
            total == base64_len(n as int),
            forall|j: int| 0 <= j < digits@.len() ==> digits@[j] < 64,
            out@.len() == k,
            forall|j: int| 0 <= j < k ==> out@[j] == base64_byte(digits@, j),
        decreases total - k,
    {
        let g: usize = 4 * (k / 3);
        let byte: u8 = if k % 3 == 0 {
            (digits[g] % 64) * 4 + digits[g + 1] / 16
        } else if k % 3 == 1 {
            (digits[g + 1] % 16) * 16 + digits[g + 2] / 4
        } else {
            (digits[g + 2] % 4) * 64 + digits[g + 3]
        };
        out.push(byte);
        k += 1;
    }
    assert(out@ =~= base64_bytes(digits@));
    out
}

/// Whether a line feed stands in `data[from..to]`.
fn has_line_feed(data: &[u8], from: usize, to: usize) -> (r: bool)
    requires
        from <= to <= data@.len(),
    ensures
        r == holds_line_feed(data@, from as int, to as int),
{
    let mut i: usize = from;
    while i < to
        invariant
            from <= i <= to <= data@.len(),
            forall|k: int| from <= k < i ==> data@[k] != 10,
        decreases to - i,
    {
        if data[i] == 10 {
            return true;
        }
        i += 1;
    }
    false
}

/// An encoded word in base64 that was decoded holds no line feed, and lies
/// within the input.
pub proof fn base64_word_holds_no_line_feed(data: Seq<u8>, start: int, boundary: Seq<u8>)
    requires
        0 <= start <= data.len(),
        boundary.len() > 0,
        forall|j: int| 0 <= j < boundary.len() ==> boundary[j] != 10,
        base64_result(data, start, boundary, true).0 > 0,
    ensures
        start + base64_result(data, start, boundary, true).0 <= data.len(),
        forall|k: int|
            start <= k < start + base64_result(data, start, boundary, true).0 ==> #[trigger] data[k]
                != 10,
{
    first_match_is_match(data, start, boundary);
    let at = find_pattern(data, start, boundary, false)->0;
    assert forall|k: int|
        start <= k < start + base64_result(data, start, boundary, true).0 implies #[trigger] data[k]
        != 10 by {
        if k >= at {
            assert(data.subrange(at, at + boundary.len())[k - at] == boundary[k - at]);
        }
    }
}

/// Decodes the base64 text that starts at `start_pos`, up to `boundary` or,
/// if `boundary` is empty, to the end of the input. With `is_word` the
/// boundary needs no line break behind it.
///
/// Returns the number of bytes consumed, the boundary included, and the
/// decoded bytes. White space between the digits is skipped and nothing is
/// read behind the padding. Zero bytes consumed means failure: a byte that is
/// no part of base64, a line feed in an encoded word, or the boundary is
/// missing.
pub fn decode_base64(stream: &MessageStream, start_pos: usize, boundary: &[u8], is_word: bool) -> (r:
    (usize, DecodeResult))
    requires
        start_pos <= stream.data@.len(),
    ensures
        r.0 == base64_result(stream.data@, start_pos as int, boundary@, is_word).0,
        r.1@ == base64_result(stream.data@, start_pos as int, boundary@, is_word).1,
        start_pos + r.0 <= stream.data@.len(),
        !(r.1 is Borrowed),
{
    let len: usize = stream.data.len();
    let end: usize = if boundary.len() == 0 {
        len
    } else {
        match find_boundary(stream, start_pos, boundary, !is_word) {
            Some(at) => at,
            None => {
                return (0, DecodeResult::Empty);
            },
        }
    };
    assert(start_pos <= end && end + boundary@.len() <= stream.data@.len()) by {
        first_match_is_match(stream.data@, start_pos as int, boundary@);
    }
    if is_word && has_line_feed(stream.data, start_pos, end) {
        return (0, DecodeResult::Empty);
    }
    match base64_digits(stream.data, start_pos, end) {
        Some(digits) => {
            let bytes = base64_join(&digits);
            let consumed: usize = end + boundary.len() - start_pos;
            if bytes.len() > 0 {
                (consumed, DecodeResult::Owned(bytes))
            } else {
                (consumed, DecodeResult::Empty)
            }
        },
        None => (0, DecodeResult::Empty),
    }
}

} // verus!
