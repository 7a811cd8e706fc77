//! Scanning for line breaks and multipart boundaries.

use crate::decoders::DecodeResult;
use crate::decoders::DecodeResultView;
use crate::parsers::message::MessageStream;
use vstd::prelude::*;

verus! {

pub const LF: u8 = 10;

pub const CR: u8 = 13;

pub const SPACE: u8 = 32;

pub const TAB: u8 = 9;

pub const DASH: u8 = 45;

/// Space or horizontal tab.
pub open spec fn is_blank(b: u8) -> bool {
    b == SPACE || b == TAB
}

/// What may trail on a line before its line feed: blanks and carriage returns.
pub open spec fn is_padding(b: u8) -> bool {
    b == SPACE || b == TAB || b == CR
}

/// The first position at or after `pos` that holds no padding.
pub open spec fn skip_padding(data: Seq<u8>, pos: int) -> int
    decreases data.len() - pos,
{
    if 0 <= pos < data.len() && is_padding(data[pos]) {
        skip_padding(data, pos + 1)
    } else {
        pos
    }
}

/// The position after the padding at `pos` and after the line feed that
/// follows it, if one does.
pub open spec fn line_break_end(data: Seq<u8>, pos: int) -> int {
    let p = skip_padding(data, pos);
    if 0 <= p < data.len() && data[p] == LF {
        p + 1
    } else {
        p
    }
}

pub proof fn skip_padding_bounds(data: Seq<u8>, pos: int)
    requires
        0 <= pos <= data.len(),
    ensures
        pos <= skip_padding(data, pos) <= data.len(),
        pos <= line_break_end(data, pos) <= data.len(),
    decreases data.len() - pos,
{
    if pos < data.len() && is_padding(data[pos]) {
        skip_padding_bounds(data, pos + 1);
    }
}

/// Whether `pat` stands in `data` at position `i`.
pub open spec fn occurs_at(data: Seq<u8>, i: int, pat: Seq<u8>) -> bool {
    0 <= i && i + pat.len() <= data.len() && data.subrange(i, i + pat.len()) == pat
}

/// Whether a boundary that ends just before `pos` is properly terminated:
/// by the end of the input, by a line break, or by `--`.
pub open spec fn boundary_ends(data: Seq<u8>, pos: int) -> bool {
    pos >= data.len() || (0 <= pos && (data[pos] == LF || data[pos] == CR || (data[pos] == DASH
        && pos + 1 < data.len() && data[pos + 1] == DASH)))
}

/// The first position at or after `from` where `pat` stands in `data`.
pub open spec fn first_match(data: Seq<u8>, from: int, pat: Seq<u8>) -> Option<int>
    decreases data.len() - from,
{
    if from < 0 || from >= data.len() || from + pat.len() > data.len() {
        None
    } else if occurs_at(data, from, pat) {
        Some(from)
    } else {
        first_match(data, from + 1, pat)
    }
}

/// The first position at or after `from` where `pat` stands in `data` and is
/// properly terminated.
pub open spec fn first_boundary(data: Seq<u8>, from: int, pat: Seq<u8>) -> Option<int>
    decreases data.len() - from,
{
    if from < 0 || from >= data.len() || from + pat.len() > data.len() {
        None
    } else if occurs_at(data, from, pat) && boundary_ends(data, from + pat.len()) {
        Some(from)
    } else {
        first_boundary(data, from + 1, pat)
    }
}

/// The end of the content that starts at `start` and is followed by a
/// boundary at `at`: the line break in front of the boundary is no content.
pub open spec fn content_end(data: Seq<u8>, start: int, at: int) -> int {
    if start < at <= data.len() && data[at - 1] == LF {
        if start < at - 1 && data[at - 2] == CR {
            at - 2
        } else {
            at - 1
        }
    } else {
        at
    }
}

pub proof fn first_match_is_match(data: Seq<u8>, from: int, pat: Seq<u8>)
    ensures
        first_match(data, from, pat) matches Some(i) ==> from <= i && occurs_at(data, i, pat),
        first_boundary(data, from, pat) matches Some(i) ==> from <= i && occurs_at(data, i, pat)
            && boundary_ends(data, i + pat.len()),
    decreases data.len() - from,
{
    if !(from < 0 || from >= data.len() || from + pat.len() > data.len()) {
        first_match_is_match(data, from + 1, pat);
    }
}

/// Whether `pat` stands in `data` at position `i`.
pub fn matches_at(data: &[u8], i: usize, pat: &[u8]) -> (r: bool)
    ensures
        r == occurs_at(data@, i as int, pat@),
{
    if pat.len() > data.len() || i > data.len() - pat.len() {
        return false;
    }
    let mut k: usize = 0;
    while k < pat.len()
        invariant
            k <= pat@.len(),
            i + pat@.len() <= data@.len() <= usize::MAX,
            forall|j: int| 0 <= j < k ==> data@[i + j] == pat@[j],
        decreases pat.len() - k,
    {
        if data[i + k] != pat[k] {
            assert(data@.subrange(i as int, i + pat@.len())[k as int] != pat@[k as int]);
            return false;
        }
        k += 1;
    }
    assert(data@.subrange(i as int, i + pat@.len()) =~= pat@);
    true
}

/// Whether a boundary that ends just before `pos` is properly terminated:
/// by the end of the input, by a line break, or by `--`.
pub fn is_boundary_end(stream: &MessageStream, pos: usize) -> (r: bool)
    ensures
        r == boundary_ends(stream.data@, pos as int),
{
    if pos >= stream.data.len() {
        return true;
    }
    let ch = stream.data[pos];
    ch == LF || ch == CR || (ch == DASH && pos + 1 < stream.data.len() && stream.data[pos + 1]
        == DASH)
}

/// The position after the rest of the line that holds `start_pos`, if only
/// padding is left on it; else the position of what is left.
pub fn seek_crlf(stream: &MessageStream, start_pos: usize) -> (r: usize)
    requires
        start_pos <= stream.data@.len(),
    ensures
        r == line_break_end(stream.data@, start_pos as int),
        start_pos <= r <= stream.data@.len(),
{
    let mut p: usize = start_pos;
    proof {
        skip_padding_bounds(stream.data@, start_pos as int);
    }
    while p < stream.data.len() && (stream.data[p] == SPACE || stream.data[p] == TAB
        || stream.data[p] == CR)
        invariant
            start_pos <= p <= stream.data@.len(),
            skip_padding(stream.data@, start_pos as int) == skip_padding(stream.data@, p as int),
        decreases stream.data@.len() - p,
    {
        p += 1;
    }
    if p < stream.data.len() && stream.data[p] == LF {
        p + 1
    } else {
        p
    }
}

/// Moves past the rest of the current line, if only padding is left on it.
pub fn skip_crlf(stream: &mut MessageStream)
    requires
        old(stream).pos <= old(stream).data@.len(),
    ensures
        final(stream).data == old(stream).data,
        final(stream).pos == line_break_end(old(stream).data@, old(stream).pos as int),
        old(stream).pos <= final(stream).pos <= final(stream).data@.len(),
{
    let p = seek_crlf(stream, stream.pos);
    stream.pos = p;
}

/// Moves past `--` if the stream stands at one, and tells whether it did.
pub fn skip_multipart_end(stream: &mut MessageStream) -> (r: bool)
    requires
        old(stream).pos <= old(stream).data@.len(),
    ensures
        final(stream).data == old(stream).data,
        r == (old(stream).pos + 2 <= old(stream).data@.len() && old(stream).data@[old(
            stream,
        ).pos as int] == DASH && old(stream).data@[old(stream).pos + 1] == DASH),
        final(stream).pos == if r {
            old(stream).pos + 2
        } else {
            old(stream).pos as int
        },
{
    if stream.data.len() - stream.pos >= 2 && stream.data[stream.pos] == DASH
        && stream.data[stream.pos + 1] == DASH {
        stream.pos += 2;
        true
    } else {
        false
    }
}

/// Moves the stream behind the first occurrence of `boundary` at or after its
/// position, and tells whether there is one. An empty boundary is never found.
pub fn seek_next_part(stream: &mut MessageStream, boundary: &[u8]) -> (r: bool)
    requires
        old(stream).pos <= old(stream).data@.len(),
    ensures
        final(stream).data == old(stream).data,
        r == (boundary@.len() > 0 && first_match(
            old(stream).data@,
            old(stream).pos as int,
            boundary@,
        ) is Some),
        r ==> final(stream).pos == first_match(
            old(stream).data@,
            old(stream).pos as int,
            boundary@,
        )->0 + boundary@.len(),
        !r ==> final(stream).pos == old(stream).pos,
        old(stream).pos <= final(stream).pos <= final(stream).data@.len(),
{
    proof {
        first_match_is_match(stream.data@, stream.pos as int, boundary@);
    }
    if boundary.len() == 0 || boundary.len() > stream.data.len() {
        return false;
    }
    let last: usize = stream.data.len() - boundary.len();
    let mut i: usize = stream.pos;
    while i <= last
        invariant
            old(stream).pos <= i,
            boundary@.len() > 0,
            last + boundary@.len() == stream.data@.len() <= usize::MAX,
            stream.data == old(stream).data,
            stream.pos == old(stream).pos,
            first_match(stream.data@, old(stream).pos as int, boundary@) == first_match(
                stream.data@,
                i as int,
                boundary@,
            ),
        decreases last + 1 - i,
    {
        if matches_at(stream.data, i, boundary) {
            stream.pos = i + boundary.len();
            return true;
        }
        i += 1;
    }
    false
}

/// The first position at or after `from` where `pattern` stands; with
/// `terminated`, only a properly terminated occurrence counts.
pub open spec fn find_pattern(data: Seq<u8>, from: int, pattern: Seq<u8>, terminated: bool) -> Option<
    int,
> {
    if terminated {
        first_boundary(data, from, pattern)
    } else {
        first_match(data, from, pattern)
    }
}

/// Finds the first position at or after `from` where `pattern` stands; with
/// `terminated`, only a properly terminated occurrence counts.
pub fn find_boundary(stream: &MessageStream, from: usize, pattern: &[u8], terminated: bool) -> (r:
    Option<usize>)
    requires
        from <= stream.data@.len(),
    ensures
        r is Some == find_pattern(stream.data@, from as int, pattern@, terminated) is Some,
        r matches Some(at) ==> {
            &&& find_pattern(stream.data@, from as int, pattern@, terminated) == Some(at as int)
            &&& from <= at
            &&& at + pattern@.len() <= stream.data@.len()
        },
{
    let len: usize = stream.data.len();
    if pattern.len() > len {
        return None;
    }
    let last: usize = len - pattern.len();
    let mut i: usize = from;
    while i <= last && i < len
        invariant
            from <= i,
            len == stream.data@.len(),
            last + pattern@.len() == len,
            find_pattern(stream.data@, from as int, pattern@, terminated) == find_pattern(
                stream.data@,
                i as int,
                pattern@,
                terminated,
            ),
        decreases len - i,
    {
        if matches_at(stream.data, i, pattern) && (!terminated || is_boundary_end(
            stream,
            i + pattern.len(),
        )) {
            return Some(i);
        }
        i += 1;
    }
    None
}

/// What [`get_bytes_to_boundary`] returns.
pub open spec fn bytes_to_boundary(data: Seq<u8>, start: int, boundary: Seq<u8>) -> (
    int,
    DecodeResultView,
) {
    if boundary.len() == 0 {
        if start < data.len() {
            (data.len() - start, DecodeResultView::Borrowed((start as usize, data.len() as usize)))
        } else {
            (0, DecodeResultView::Empty)
        }
    } else {
        match first_boundary(data, start, boundary) {
            Some(at) => (
                at + boundary.len() - start,
                if start < content_end(data, start, at) {
                    DecodeResultView::Borrowed(
                        (start as usize, content_end(data, start, at) as usize),
                    )
                } else {
                    DecodeResultView::Empty
                },
            ),
            None => (0, DecodeResultView::Empty),
        }
    }
}

/// Reads the raw bytes from `start_pos` up to the first properly terminated
/// occurrence of `boundary`, or to the end of the input if `boundary` is
/// empty. Returns the number of bytes consumed, the boundary included, and the
/// range of the content; the line break in front of the boundary belongs to
/// neither. Zero bytes consumed means that the boundary was not found.
pub fn get_bytes_to_boundary(
    stream: &MessageStream,
    start_pos: usize,
    boundary: &[u8],
    _is_word: bool,
) -> (r: (usize, DecodeResult))
    requires
        start_pos <= stream.data@.len(),
    ensures
        r.0 == bytes_to_boundary(stream.data@, start_pos as int, boundary@).0,
        r.1@ == bytes_to_boundary(stream.data@, start_pos as int, boundary@).1,
        start_pos + r.0 <= stream.data@.len(),
        r.1 matches DecodeResult::Borrowed((from, to)) ==> from == start_pos && from < to
            <= start_pos + r.0,
        !(r.1 is Owned),
{
    let len: usize = stream.data.len();
    if boundary.len() == 0 {
        if start_pos < len {
            return (len - start_pos, DecodeResult::Borrowed((start_pos, len)));
        } else {
            return (0, DecodeResult::Empty);
        }
    }
    if boundary.len() > len {
        return (0, DecodeResult::Empty);
    }
    let last: usize = len - boundary.len();
    let mut i: usize = start_pos;
    while i <= last
        invariant
            start_pos <= i,
            boundary@.len() > 0,
            len == stream.data@.len(),
            last + boundary@.len() == len,
            first_boundary(stream.data@, start_pos as int, boundary@) == first_boundary(
                stream.data@,
                i as int,
                boundary@,
            ),
        decreases last + 1 - i,
    {
        if matches_at(stream.data, i, boundary) && is_boundary_end(stream, i + boundary.len()) {
            let mut end: usize = i;
            if start_pos < i && stream.data[i - 1] == LF {
                end = i - 1;
                if start_pos < end && stream.data[end - 1] == CR {
                    end = end - 1;
                }
            }
            let consumed: usize = i + boundary.len() - start_pos;
            if start_pos < end {
                return (consumed, DecodeResult::Borrowed((start_pos, end)));
            } else {
                return (consumed, DecodeResult::Empty);
            }
        }
        i += 1;
    }
    (0, DecodeResult::Empty)
}

} // verus!
