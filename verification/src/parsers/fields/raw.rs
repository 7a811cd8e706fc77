//! Header fields that are taken as they stand.

use crate::parsers::message::MessageStream;
use crate::parsers::mime::is_blank;
use crate::parsers::mime::CR;
use crate::parsers::mime::LF;
use crate::parsers::mime::SPACE;
use crate::parsers::mime::TAB;
use crate::text::text_of;
use crate::text::utf8_lossy;
use vstd::prelude::*;

verus! {

/// Whether the line feed at `i` ends a header field: the next line does not
/// begin with a blank, which would continue the field.
pub open spec fn is_field_end(data: Seq<u8>, i: int) -> bool {
    0 <= i < data.len() && data[i] == LF && !(i + 1 < data.len() && is_blank(data[i + 1]))
}

/// The position of the line feed that ends the field that `pos` stands in,
/// or the length of the input if nothing ends it.
pub open spec fn field_end(data: Seq<u8>, pos: int) -> int
    decreases data.len() - pos,
{
    if 0 <= pos < data.len() && !is_field_end(data, pos) {
        field_end(data, pos + 1)
    } else {
        pos
    }
}

/// The position behind the field that `pos` stands in: behind the line feed
/// that ends it, or the length of the input if nothing ends it.
pub open spec fn after_field(data: Seq<u8>, pos: int) -> int {
    if field_end(data, pos) < data.len() {
        field_end(data, pos) + 1
    } else {
        data.len() as int
    }
}

/// Where no line feed stands between two positions, they stand in the same
/// field.
pub proof fn same_field(data: Seq<u8>, from: int, to: int)
    requires
        0 <= from <= to <= data.len(),
        forall|k: int| from <= k < to ==> #[trigger] data[k] != 10,
    ensures
        field_end(data, from) == field_end(data, to),
        after_field(data, from) == after_field(data, to),
    decreases to - from,
{
    if from < to {
        same_field(data, from + 1, to);
    }
}

/// White space around the value of a field.
pub open spec fn is_field_space(b: u8) -> bool {
    b == SPACE || b == TAB || b == CR || b == LF
}

/// The first position in `from..to` that holds no white space, or `to`.
pub open spec fn first_text(data: Seq<u8>, from: int, to: int) -> int
    decreases to - from,
{
    if 0 <= from < to <= data.len() && is_field_space(data[from]) {
        first_text(data, from + 1, to)
    } else {
        from
    }
}

/// The position behind the last byte in `from..to` that is no white space,
/// or `from`.
pub open spec fn last_text(data: Seq<u8>, from: int, to: int) -> int
    decreases to - from,
{
    if 0 <= from < to <= data.len() && is_field_space(data[to - 1]) {
        last_text(data, from, to - 1)
    } else {
        to
    }
}

/// What [`parse_raw`] does to a stream at `pos`: the position behind the
/// field, and the value of the field without the white space around it.
/// There is no value where the field holds white space only, or where the
/// input ends before the field does.
pub open spec fn raw_field(data: Seq<u8>, pos: int) -> (int, Option<Seq<char>>) {
    let end = field_end(data, pos);
    if end >= data.len() {
        (data.len() as int, None)
    } else {
        let from = first_text(data, pos, end);
        let to = last_text(data, from, end);
        (
            end + 1,
            if from < to {
                Some(utf8_lossy(data.subrange(from, to)))
            } else {
                None
            },
        )
    }
}

pub proof fn field_end_bounds(data: Seq<u8>, pos: int)
    requires
        0 <= pos <= data.len(),
    ensures
        pos <= field_end(data, pos) <= data.len(),
        field_end(data, pos) < data.len() ==> is_field_end(data, field_end(data, pos)),
    decreases data.len() - pos,
{
    if pos < data.len() && !is_field_end(data, pos) {
        field_end_bounds(data, pos + 1);
    }
}

/// Finds the line feed that ends the field that `pos` stands in.
pub fn seek_field_end(data: &[u8], pos: usize) -> (r: usize)
    requires
        pos <= data@.len(),
    ensures
        r == field_end(data@, pos as int),
        pos <= r <= data@.len(),
{
    let len: usize = data.len();
    let mut i: usize = pos;
    while i < len && !(data[i] == LF && !(i + 1 < len && (data[i + 1] == SPACE || data[i + 1]
        == TAB)))
        invariant
            pos <= i <= len,
            len == data@.len(),
            field_end(data@, pos as int) == field_end(data@, i as int),
        decreases len - i,
    {
        i += 1;
    }
    i
}

/// Finds the first byte in `from..to` that is no white space.
pub fn trim_start(data: &[u8], from: usize, to: usize) -> (r: usize)
    requires
        from <= to <= data@.len(),
    ensures
        r == first_text(data@, from as int, to as int),
        from <= r <= to,
{
    let mut i: usize = from;
    while i < to && (data[i] == SPACE || data[i] == TAB || data[i] == CR || data[i] == LF)
        invariant
            from <= i <= to <= data@.len(),
            first_text(data@, from as int, to as int) == first_text(data@, i as int, to as int),
        decreases to - i,
    {
        i += 1;
    }
    i
}

/// Finds the end of the last byte in `from..to` that is no white space.
pub fn trim_end(data: &[u8], from: usize, to: usize) -> (r: usize)
    requires
        from <= to <= data@.len(),
    ensures
        r == last_text(data@, from as int, to as int),
        from <= r <= to,
{
    let mut i: usize = to;
    while from < i && (data[i - 1] == SPACE || data[i - 1] == TAB || data[i - 1] == CR || data[i
        - 1] == LF)
        invariant
            from <= i <= to <= data@.len(),
            last_text(data@, from as int, to as int) == last_text(data@, from as int, i as int),
        decreases i - from,
    {
        i -= 1;
    }
    i
}

/// Reads the field at the stream's position as plain text, without the white
/// space around it, and moves behind the field.
pub fn parse_raw(stream: &mut MessageStream) -> (r: Option<String>)
    requires
        old(stream).pos <= old(stream).data@.len(),
    ensures
        final(stream).data == old(stream).data,
        final(stream).pos == raw_field(old(stream).data@, old(stream).pos as int).0,
        final(stream).pos == after_field(old(stream).data@, old(stream).pos as int),
        old(stream).pos <= final(stream).pos <= final(stream).data@.len(),
        r is Some == raw_field(old(stream).data@, old(stream).pos as int).1 is Some,
        r matches Some(t) ==> t@ == raw_field(old(stream).data@, old(stream).pos as int).1->0,
{
    let len: usize = stream.data.len();
    let end: usize = seek_field_end(stream.data, stream.pos);
    if end >= len {
        stream.pos = len;
        return None;
    }
    let from: usize = trim_start(stream.data, stream.pos, end);
    let to: usize = trim_end(stream.data, from, end);
    stream.pos = end + 1;
    if from < to {
        Some(text_of(stream.data, from, to))
    } else {
        None
    }
}

/// Moves behind the field at the stream's position.
pub fn parse_and_ignore(stream: &mut MessageStream)
    requires
        old(stream).pos <= old(stream).data@.len(),
    ensures
        final(stream).data == old(stream).data,
        final(stream).pos == raw_field(old(stream).data@, old(stream).pos as int).0,
        old(stream).pos <= final(stream).pos <= final(stream).data@.len(),
{
    let len: usize = stream.data.len();
    let end: usize = seek_field_end(stream.data, stream.pos);
    if end >= len {
        stream.pos = len;
    } else {
        stream.pos = end + 1;
    }
}

} // verus!
