//! Encoded words (RFC 2047): `=?charset?encoding?text?=`.

use crate::decoders::base64::base64_result;
use crate::decoders::base64::decode_base64;
use crate::decoders::charsets::map::charset_lookup;
use crate::decoders::charsets::map::get_charset_decoder;
use crate::decoders::quoted_printable::decode_quoted_printable;
use crate::decoders::quoted_printable::qp_result;
use crate::decoders::DecodeResult;
use crate::decoders::DecodeResultView;
use crate::parsers::message::MessageStream;
use crate::text::lossy_string;
use crate::text::utf8_lossy;
use vstd::prelude::*;

verus! {

/// The end of the character set name that starts at `pos`: the position of
/// the first `?` or line feed, or the end of the input.
pub open spec fn charset_end(data: Seq<u8>, pos: int) -> int
    decreases data.len() - pos,
{
    if 0 <= pos < data.len() && data[pos] != 63 && data[pos] != 10 {
        charset_end(data, pos + 1)
    } else {
        pos
    }
}

/// The head of an encoded word, from behind the `=` to the start of the text.
pub struct WordHead {
    /// Where the name of the character set starts and ends.
    pub charset: (int, int),
    /// Whether the text is base64; else it is quoted-printable.
    pub base64: bool,
    /// Where the text starts.
    pub text: int,
}

/// The head that stands at `start`, behind the `=`: a `?`, the name of a
/// character set, a `?`, one of the letters `Q` and `B` in either case, and
/// a `?`.
pub open spec fn word_head(data: Seq<u8>, start: int) -> Option<WordHead> {
    let end = charset_end(data, start + 1);
    if 0 <= start < data.len() && data[start] == 63 && start + 1 < end && end + 2 < data.len()
        && data[end] == 63 && data[end + 2] == 63 && (data[end + 1] == 81 || data[end + 1] == 113
        || data[end + 1] == 66 || data[end + 1] == 98) {
        Some(
            WordHead {
                charset: (start + 1, end),
                base64: data[end + 1] == 66 || data[end + 1] == 98,
                text: end + 3,
            },
        )
    } else {
        None
    }
}

/// The end mark of an encoded word.
pub open spec fn word_end() -> Seq<u8> {
    seq![63u8, 61u8]
}

/// The bytes of a decoding result that is not a range of the input.
pub open spec fn owned_bytes(r: DecodeResultView) -> Seq<u8> {
    match r {
        DecodeResultView::Owned(b) => b,
        _ => Seq::empty(),
    }
}

/// The text of `bytes` in the character set called `name`, or as UTF-8 if
/// there is no such character set.
pub open spec fn text_in(name: Seq<u8>, bytes: Seq<u8>) -> Seq<char> {
    match charset_lookup(name) {
        Some(charset) => charset.text(bytes),
        None => utf8_lossy(bytes),
    }
}

/// What [`decode_rfc2047`] returns.
#[verifier::opaque]
pub open spec fn encoded_word(data: Seq<u8>, start: int) -> (int, Option<Seq<char>>) {
    match word_head(data, start) {
        Some(head) => {
            let r = if head.base64 {
                base64_result(data, head.text, word_end(), true)
            } else {
                qp_result(data, head.text, word_end(), true)
            };
            if r.0 > 0 {
                (
                    head.text + r.0 - start,
                    Some(text_in(data.subrange(head.charset.0, head.charset.1), owned_bytes(r.1))),
                )
            } else {
                (0, None)
            }
        },
        None => (0, None),
    }
}

/// The name of a character set holds no line feed.
proof fn charset_holds_no_line_feed(data: Seq<u8>, pos: int)
    requires
        0 <= pos,
    ensures
        pos <= charset_end(data, pos),
        forall|k: int| pos <= k < charset_end(data, pos) ==> #[trigger] data[k] != 10,
        charset_end(data, pos) <= data.len() || charset_end(data, pos) == pos,
    decreases data.len() - pos,
{
    if pos < data.len() && data[pos] != 63 && data[pos] != 10 {
        charset_holds_no_line_feed(data, pos + 1);
    }
}

/// An encoded word that was decoded holds no line feed, and lies within the
/// input.
pub proof fn encoded_word_holds_no_line_feed(data: Seq<u8>, start: int)
    requires
        encoded_word(data, start).1 is Some,
    ensures
        0 <= start,
        encoded_word(data, start).0 > 0,
        start + encoded_word(data, start).0 <= data.len(),
        forall|k: int| start <= k < start + encoded_word(data, start).0 ==> #[trigger] data[k] != 10,
{
    reveal(encoded_word);
    let head = word_head(data, start)->0;
    charset_holds_no_line_feed(data, start + 1);
    assert(word_end() =~= seq![63u8, 61u8]);
    if head.base64 {
        crate::decoders::base64::base64_word_holds_no_line_feed(data, head.text, word_end());
    } else {
        crate::decoders::quoted_printable::qp_word_holds_no_line_feed(data, head.text);
    }
}

/// Decodes `bytes` in the character set called `name`, or as UTF-8 if there
/// is no such character set.
pub fn decode_text_in(name: &[u8], bytes: &[u8]) -> (r: String)
    ensures
        r@ == text_in(name@, bytes@),
{
    match get_charset_decoder(name) {
        Some(charset) => charset.decode(bytes),
        None => lossy_string(bytes),
    }
}

/// Decodes the encoded word whose `=` stands just before `start_pos`.
/// Returns the number of bytes consumed from `start_pos` on and the text, or
/// zero and nothing if no well-formed encoded word stands there.
pub fn decode_rfc2047(stream: &MessageStream, start_pos: usize) -> (r: (usize, Option<String>))
    requires
        start_pos <= stream.data@.len(),
    ensures
        r.0 == encoded_word(stream.data@, start_pos as int).0,
        r.1 is Some == encoded_word(stream.data@, start_pos as int).1 is Some,
        r.1 matches Some(t) ==> t@ == encoded_word(stream.data@, start_pos as int).1->0,
        start_pos + r.0 <= stream.data@.len(),
{
    reveal(encoded_word);
    let data = stream.data;
    let len: usize = data.len();
    if start_pos >= len || data[start_pos] != 63 {
        return (0, None);
    }
    let from: usize = start_pos + 1;
    let mut end: usize = from;
    while end < len && data[end] != 63 && data[end] != 10
        invariant
            from <= end <= len,
            len == data@.len(),
            charset_end(data@, from as int) == charset_end(data@, end as int),
        decreases len - end,
    {
        end += 1;
    }
    if end == from || len - end < 3 || data[end] != 63 || data[end + 2] != 63 {
        return (0, None);
    }
    let kind: u8 = data[end + 1];
    let base64: bool = kind == 66 || kind == 98;
    if !base64 && kind != 81 && kind != 113 {
        return (0, None);
    }
    let text: usize = end + 3;
    let mut mark: Vec<u8> = Vec::new();
    mark.push(63);
    mark.push(61);
    assert(mark@ =~= word_end());
    let (consumed, decoded) = if base64 {
        decode_base64(stream, text, mark.as_slice(), true)
    } else {
        decode_quoted_printable(stream, text, mark.as_slice(), true)
    };
    if consumed == 0 {
        return (0, None);
    }
    let name = vstd::slice::slice_subrange(data, from, end);
    let value = match decoded {
        DecodeResult::Owned(bytes) => decode_text_in(name, bytes.as_slice()),
        _ => {
            let none: Vec<u8> = Vec::new();
            decode_text_in(name, none.as_slice())
        },
    };
    (text + consumed - start_pos, Some(value))
}

} // verus!
