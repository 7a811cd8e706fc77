//! The block of header fields at the start of a message or of a part.

use crate::parsers::fields::content_type::content_type_at;
use crate::parsers::fields::content_type::parse_content_type;
use crate::parsers::fields::continuation::bytes_order;
use crate::parsers::fields::list::list_at;
use crate::parsers::fields::list::parse_comma_separared;
use crate::parsers::fields::raw::first_text;
use crate::parsers::fields::raw::last_text;
use crate::parsers::fields::raw::parse_and_ignore;
use crate::parsers::fields::raw::parse_raw;
use crate::parsers::fields::raw::raw_field;
use crate::parsers::fields::raw::trim_end;
use crate::parsers::fields::raw::trim_start;
use crate::parsers::message::MessageStream;
use crate::text::lossy_string;
use crate::text::lower_bytes;
use crate::text::lowercased;
use crate::text::utf8_lossy;
use crate::Header;
use crate::HeaderName;
use crate::HeaderNameView;
use crate::HeaderValue;
use crate::HeaderValueView;
use crate::HeaderView;
use crate::headers_view;
use vstd::prelude::*;
use vstd::string::StringSliceAdditionalSpecFns;

verus! {

/// The end of the name of the field that starts at `pos`: the position of
/// the first `:` or line feed, or the length of the input.
pub open spec fn name_end(data: Seq<u8>, pos: int) -> int
    decreases data.len() - pos,
{
    if 0 <= pos < data.len() && data[pos] != 58 && data[pos] != 10 {
        name_end(data, pos + 1)
    } else {
        pos
    }
}

/// The name of a field, from its bytes in lower case.
pub open spec fn header_name(low: Seq<u8>) -> HeaderNameView {
    if low == "content-type".spec_bytes() {
        HeaderNameView::ContentType
    } else if low == "content-disposition".spec_bytes() {
        HeaderNameView::ContentDisposition
    } else if low == "content-transfer-encoding".spec_bytes() {
        HeaderNameView::ContentTransferEncoding
    } else if low == "keywords".spec_bytes() {
        HeaderNameView::Keywords
    } else {
        HeaderNameView::Other(utf8_lossy(low))
    }
}

/// The position behind the value that starts at `pos` of a field called
/// `name`, and the value: content types and dispositions and lists of
/// keywords are parsed, every other field is taken as text.
pub open spec fn header_value(data: Seq<u8>, pos: int, name: HeaderNameView) -> (
    int,
    HeaderValueView,
) {
    match name {
        HeaderNameView::ContentType | HeaderNameView::ContentDisposition => content_type_at(
            data,
            pos,
        ),
        HeaderNameView::Keywords => list_at(data, pos),
        _ => (
            raw_field(data, pos).0,
            match raw_field(data, pos).1 {
                Some(text) => HeaderValueView::Text(text),
                None => HeaderValueView::Empty,
            },
        ),
    }
}

/// What a line at the start of which the parser stands leads to.
pub enum Line {
    /// The block ends here: at an empty line, which is left unread, or at the
    /// end of the input.
    End(int),
    /// The line is no field and is passed over; the next line starts at the
    /// position given.
    Skip(int),
    /// The line starts a field, which ends before the position given.
    Field(int, HeaderView),
}

/// Reads the line that starts at `pos`. A line with a `:` starts a field: the
/// name stands before the `:`, without the white space around it, and the
/// value behind it. A field without a name is passed over, and so is a line
/// without a `:` that is not empty. A line of white space only ends the
/// block.
pub open spec fn header_line(data: Seq<u8>, pos: int) -> Line {
    let end = name_end(data, pos);
    if pos < 0 || end >= data.len() {
        Line::End(data.len() as int)
    } else {
        let from = first_text(data, pos, end);
        let to = last_text(data, from, end);
        if data[end] == 10 {
            if from < to {
                Line::Skip(end + 1)
            } else {
                Line::End(pos)
            }
        } else if from < to {
            let name = header_name(lower_bytes(data.subrange(from, to)));
            Line::Field(
                header_value(data, end + 1, name).0,
                HeaderView { name, value: header_value(data, end + 1, name).1 },
            )
        } else {
            Line::Skip(raw_field(data, end + 1).0)
        }
    }
}

/// The position at which the block of header fields that starts at `pos`
/// ends, and its fields.
pub open spec fn headers_from(data: Seq<u8>, pos: int) -> (int, Seq<HeaderView>)
    decreases data.len() - pos,
{
    match header_line(data, pos) {
        Line::End(end) => (end, Seq::empty()),
        Line::Skip(next) => if pos < next <= data.len() {
            headers_from(data, next)
        } else {
            (next, Seq::empty())
        },
        Line::Field(next, header) => if pos < next <= data.len() {
            (headers_from(data, next).0, seq![header] + headers_from(data, next).1)
        } else {
            (next, seq![header])
        },
    }
}

/// The position at which the block of header fields that starts at `pos`
/// ends, and its fields.
#[verifier::opaque]
pub open spec fn headers_at(data: Seq<u8>, pos: int) -> (int, Seq<HeaderView>) {
    headers_from(data, pos)
}

/// Whether `low` spells `name`.
fn is_name(low: &Vec<u8>, name: &str) -> (r: bool)
    ensures
        r == (low@ == name.spec_bytes()),
{
    bytes_order(low.as_slice(), name.as_bytes()) == 0
}

/// The name of a field, from its bytes in lower case.
pub fn classify_name(low: Vec<u8>) -> (r: HeaderName)
    ensures
        r@ == header_name(low@),
{
    if is_name(&low, "content-type") {
        HeaderName::ContentType
    } else if is_name(&low, "content-disposition") {
        HeaderName::ContentDisposition
    } else if is_name(&low, "content-transfer-encoding") {
        HeaderName::ContentTransferEncoding
    } else if is_name(&low, "keywords") {
        HeaderName::Keywords
    } else {
        HeaderName::Other(lossy_string(low.as_slice()))
    }
}

/// Parses the value of the field called `name` that starts at the stream's
/// position, and moves behind the field.
pub fn parse_value(stream: &mut MessageStream, name: &HeaderName) -> (r: HeaderValue)
    requires
        old(stream).pos <= old(stream).data@.len(),
    ensures
        final(stream).data == old(stream).data,
        final(stream).pos == header_value(old(stream).data@, old(stream).pos as int, name@).0,
        r@ == header_value(old(stream).data@, old(stream).pos as int, name@).1,
        old(stream).pos <= final(stream).pos <= final(stream).data@.len(),
{
    match name {
        HeaderName::ContentType | HeaderName::ContentDisposition => parse_content_type(stream),
        HeaderName::Keywords => parse_comma_separared(stream),
        _ => match parse_raw(stream) {
            Some(text) => HeaderValue::Text(text),
            None => HeaderValue::Empty,
        },
    }
}

/// `headers_view` of a list with one more field.
pub proof fn headers_view_push(v: Seq<Header>, x: Header)
    ensures
        headers_view(v.push(x)) == headers_view(v).push(x@),
{
    assert(headers_view(v.push(x)) =~= headers_view(v).push(x@));
}

/// Reads the block of header fields at the stream's position and appends its
/// fields to `headers`, in their order. The stream is left at the empty line
/// that ends the block, or at the end of the input. Tells whether any field
/// was read.
pub fn parse_headers(headers: &mut Vec<Header>, stream: &mut MessageStream) -> (r: bool)
    requires
        old(stream).pos <= old(stream).data@.len(),
    ensures
        final(stream).data == old(stream).data,
        final(stream).pos == headers_at(old(stream).data@, old(stream).pos as int).0,
        headers_view(final(headers)@) == headers_view(old(headers)@) + headers_at(
            old(stream).data@,
            old(stream).pos as int,
        ).1,
        r == (headers_at(old(stream).data@, old(stream).pos as int).1.len() > 0),
        old(stream).pos <= final(stream).pos <= final(stream).data@.len(),
        r ==> old(stream).pos < final(stream).pos,
{
    reveal(headers_at);
    let len: usize = stream.data.len();
    let ghost all = headers_at(stream.data@, stream.pos as int);
    let ghost before = headers_view(headers@);
    let ghost mut found: Seq<HeaderView> = Seq::empty();
    let mut any: bool = false;
    assert(before + found =~= before);
    loop
        invariant
            stream.data == old(stream).data,
            len == stream.data@.len(),
            old(stream).pos <= stream.pos <= len,
            any == (found.len() > 0),
            any ==> old(stream).pos < stream.pos,
            headers_view(headers@) == before + found,
            all.0 == headers_from(stream.data@, stream.pos as int).0,
            all.1 == found + headers_from(stream.data@, stream.pos as int).1,
        ensures
            stream.data == old(stream).data,
            old(stream).pos <= stream.pos <= len,
            any == (all.1.len() > 0),
            any ==> old(stream).pos < stream.pos,
            stream.pos == all.0,
            headers_view(headers@) == before + all.1,
        decreases len - stream.pos,
    {
        let start: usize = stream.pos;
        let mut end: usize = start;
        while end < len && stream.data[end] != 58 && stream.data[end] != 10
            invariant
                start <= end <= len,
                len == stream.data@.len(),
                name_end(stream.data@, start as int) == name_end(stream.data@, end as int),
            decreases len - end,
        {
            end += 1;
        }
        if end >= len {
            stream.pos = len;
            assert(found + Seq::<HeaderView>::empty() =~= found);
            break ;
        }
        let from: usize = trim_start(stream.data, start, end);
        let to: usize = trim_end(stream.data, from, end);
        if stream.data[end] == 10 {
            if from < to {
                stream.pos = end + 1;
            } else {
                assert(found + Seq::<HeaderView>::empty() =~= found);
                break ;
            }
        } else if from < to {
            let name = classify_name(lowercased(stream.data, from, to));
            stream.pos = end + 1;
            let value = parse_value(stream, &name);
            let header = Header { name, value };
            proof {
                headers_view_push(headers@, header);
                let rest = headers_from(stream.data@, stream.pos as int).1;
                assert(found + (seq![header@] + rest) =~= found.push(header@) + rest);
                assert((before + found).push(header@) =~= before + found.push(header@));
                found = found.push(header@);
            }
            headers.push(header);
            any = true;
        } else {
            stream.pos = end + 1;
            parse_and_ignore(stream);
        }
    }
    any
}

} // verus!
