//! Fields that hold a list of texts separated by commas.

use crate::decoders::encoded_word::decode_rfc2047;
use crate::decoders::encoded_word::encoded_word;
use crate::parsers::fields::raw::after_field;
use crate::parsers::fields::raw::field_end;
use crate::parsers::fields::raw::same_field;
use crate::parsers::message::MessageStream;
use crate::parsers::mime::is_blank;
use crate::strings_view;
use crate::text::text_of;
use crate::text::utf8_lossy;
use crate::HeaderValue;
use crate::HeaderValueView;
use vstd::prelude::*;
use vstd::string::StringExecFns;

verus! {

/// The state of the list parser between two bytes.
pub struct ListParser {
    /// One more than the position of the first byte of the token, or zero if
    /// there is no token.
    pub token_start: usize,
    /// The position behind the last byte of the token.
    pub token_end: usize,
    /// The next byte begins a word.
    pub is_token_start: bool,
    /// The tokens of the item that is being read, joined.
    pub item: String,
    /// Whether the item has any token.
    pub has_item: bool,
    /// The items read so far.
    pub list: Vec<String>,
}

/// The mathematical value of a [`ListParser`].
pub struct ListView {
    pub token_start: int,
    pub token_end: int,
    pub is_token_start: bool,
    pub item: Seq<char>,
    pub has_item: bool,
    pub list: Seq<Seq<char>>,
}

impl View for ListParser {
    type V = ListView;

    open spec fn view(&self) -> ListView {
        ListView {
            token_start: self.token_start as int,
            token_end: self.token_end as int,
            is_token_start: self.is_token_start,
            item: self.item@,
            has_item: self.has_item,
            list: strings_view(self.list@),
        }
    }
}

/// What reading one byte of a list leads to.
pub enum ListFlow {
    /// Reading goes on at the position given.
    Next(ListView, int),
    /// The field has ended at the position given, with the value given.
    Done(int, HeaderValueView),
}

impl ListView {
    /// The state before the first byte.
    pub open spec fn start() -> ListView {
        ListView {
            token_start: 0,
            token_end: 0,
            is_token_start: true,
            item: Seq::empty(),
            has_item: false,
            list: Seq::empty(),
        }
    }

    /// The token lies within the bytes read so far, of which there are `pos`.
    pub open spec fn token_within(self, pos: int) -> bool {
        self.token_start == 0 || 1 <= self.token_start <= self.token_end <= pos
    }

    /// Adds the token to the item, a space between it and what the item
    /// holds, and with `add_space` a space behind it.
    pub open spec fn add_token(self, data: Seq<u8>, add_space: bool) -> ListView {
        if self.token_start > 0 {
            let token = utf8_lossy(data.subrange(self.token_start - 1, self.token_end));
            let before = if self.has_item {
                self.item + seq![' ']
            } else {
                self.item
            };
            ListView {
                item: if add_space {
                    before + token + seq![' ']
                } else {
                    before + token
                },
                has_item: true,
                token_start: 0,
                is_token_start: true,
                ..self
            }
        } else {
            self
        }
    }

    /// Ends the item: if it has any token, it joins the list.
    pub open spec fn add_tokens_to_list(self) -> ListView {
        if self.has_item {
            ListView {
                list: self.list.push(self.item),
                item: Seq::empty(),
                has_item: false,
                ..self
            }
        } else {
            self
        }
    }

    /// The value of the field, once it has ended: the text of a single item,
    /// the list of several, nothing for none.
    pub open spec fn finish(self) -> HeaderValueView {
        if self.list.len() == 1 {
            HeaderValueView::Text(self.list[0])
        } else if self.list.len() == 0 {
            HeaderValueView::Empty
        } else {
            HeaderValueView::TextList(self.list)
        }
    }

    /// Reads the byte `ch`, which stands before `pos`. A comma ends an item
    /// and a line feed the field, unless the next line begins with a blank.
    /// Blanks separate the words of an item, which are joined by single
    /// spaces; encoded words are decoded and join their neighbours as they
    /// are.
    pub open spec fn on_byte(self, data: Seq<u8>, pos: int, ch: u8) -> ListFlow {
        if ch == 10 {
            let p = self.add_token(data, false);
            if 0 <= pos < data.len() && is_blank(data[pos]) {
                ListFlow::Next(ListView { is_token_start: true, ..p }, pos + 1)
            } else {
                ListFlow::Done(pos, p.add_tokens_to_list().finish())
            }
        } else if ch == 32 || ch == 9 {
            ListFlow::Next(ListView { is_token_start: true, ..self }, pos)
        } else if ch == 61 && self.is_token_start && encoded_word(data, pos).1 is Some {
            let p = self.add_token(data, true);
            ListFlow::Next(
                ListView { item: p.item + encoded_word(data, pos).1->0, has_item: true, ..p },
                pos + encoded_word(data, pos).0,
            )
        } else if ch == 44 {
            ListFlow::Next(self.add_token(data, false).add_tokens_to_list(), pos)
        } else if ch == 13 {
            ListFlow::Next(self, pos)
        } else {
            ListFlow::Next(
                ListView {
                    is_token_start: false,
                    token_start: if self.token_start == 0 {
                        pos
                    } else {
                        self.token_start
                    },
                    token_end: pos,
                    ..self
                },
                pos,
            )
        }
    }
}

/// What [`parse_comma_separared`] leaves and returns when it goes on from
/// `pos` in the state `p`: the position behind the field, and its value. A
/// field that the end of the input cuts short has no value.
pub open spec fn list_from(data: Seq<u8>, pos: int, p: ListView) -> (int, HeaderValueView)
    decreases data.len() - pos,
{
    if pos < 0 || pos >= data.len() {
        (data.len() as int, HeaderValueView::Empty)
    } else {
        match p.on_byte(data, pos + 1, data[pos]) {
            ListFlow::Next(q, next) => if pos < next <= data.len() {
                list_from(data, next, q)
            } else {
                (data.len() as int, HeaderValueView::Empty)
            },
            ListFlow::Done(end, value) => (end, value),
        }
    }
}

/// The parser ends behind the field in which it began: behind the first line
/// feed that is not followed by a blank, or at the end of the input.
pub proof fn list_ends_behind_the_field(data: Seq<u8>, pos: int, p: ListView)
    requires
        0 <= pos <= data.len(),
    ensures
        list_from(data, pos, p).0 == after_field(data, pos),
    decreases data.len() - pos,
{
    if pos < data.len() {
        let next_pos = pos + 1;
        if data[pos] == 10 {
            if next_pos < data.len() && is_blank(data[next_pos]) {
                assert(field_end(data, pos) == field_end(data, next_pos));
                assert(field_end(data, next_pos) == field_end(data, next_pos + 1));
            } else {
                assert(field_end(data, pos) == pos);
            }
        } else {
            assert(field_end(data, pos) == field_end(data, next_pos));
            if data[pos] == 61 && encoded_word(data, next_pos).1 is Some {
                crate::decoders::encoded_word::encoded_word_holds_no_line_feed(data, next_pos);
                same_field(data, next_pos, next_pos + encoded_word(data, next_pos).0);
            }
        }
        match p.on_byte(data, next_pos, data[pos]) {
            ListFlow::Next(q, next) => {
                list_ends_behind_the_field(data, next, q);
            },
            ListFlow::Done(_, _) => {},
        }
    }
}

/// What [`parse_comma_separared`] leaves and returns for a field whose value
/// starts at `pos`.
#[verifier::opaque]
pub open spec fn list_at(data: Seq<u8>, pos: int) -> (int, HeaderValueView) {
    list_from(data, pos, ListView::start())
}

/// `strings_view` of a list with one more string.
pub proof fn strings_view_push(v: Seq<String>, x: String)
    ensures
        strings_view(v.push(x)) == strings_view(v).push(x@),
{
    assert(strings_view(v.push(x)) =~= strings_view(v).push(x@));
}

/// Adds the token to the item.
pub fn add_token(parser: &mut ListParser, stream: &MessageStream, add_space: bool)
    requires
        old(parser)@.token_within(stream.pos as int),
        stream.pos <= stream.data@.len(),
    ensures
        final(parser)@ == old(parser)@.add_token(stream.data@, add_space),
{
    if parser.token_start > 0 {
        proof {
            reveal_strlit(" ");
            assert(" "@ =~= seq![' ']);
        }
        if parser.has_item {
            parser.item.append(" ");
        }
        let token = text_of(stream.data, parser.token_start - 1, parser.token_end);
        parser.item.append(token.as_str());
        if add_space {
            parser.item.append(" ");
        }
        parser.has_item = true;
        parser.token_start = 0;
        parser.is_token_start = true;
    }
}

/// Ends the item: if it has any token, it joins the list.
pub fn add_tokens_to_list(parser: &mut ListParser)
    ensures
        final(parser)@ == old(parser)@.add_tokens_to_list(),
{
    if parser.has_item {
        let mut item = String::new();
        core::mem::swap(&mut item, &mut parser.item);
        proof {
            strings_view_push(parser.list@, item);
        }
        parser.list.push(item);
        parser.has_item = false;
    }
}

/// The value of the field, once it has ended.
fn finish(parser: &mut ListParser) -> (r: HeaderValue)
    ensures
        r@ == old(parser)@.finish(),
{
    let mut list: Vec<String> = Vec::new();
    core::mem::swap(&mut list, &mut parser.list);
    assert(strings_view(list@).len() == list@.len());
    if list.len() == 1 {
        let item = list.pop().unwrap();
        HeaderValue::Text(item)
    } else if list.len() == 0 {
        HeaderValue::Empty
    } else {
        HeaderValue::TextList(list)
    }
}

/// Parses a list of texts separated by commas that starts at the stream's
/// position, and moves behind the field: behind the first line feed that is
/// not followed by a blank, or to the end of the input.
pub fn parse_comma_separared(stream: &mut MessageStream) -> (r: HeaderValue)
    requires
        old(stream).pos <= old(stream).data@.len(),
    ensures
        final(stream).data == old(stream).data,
        final(stream).pos == list_at(old(stream).data@, old(stream).pos as int).0,
        r@ == list_at(old(stream).data@, old(stream).pos as int).1,
        final(stream).pos == after_field(old(stream).data@, old(stream).pos as int),
        old(stream).pos <= final(stream).pos <= final(stream).data@.len(),
{
    reveal(list_at);
    proof {
        list_ends_behind_the_field(stream.data@, stream.pos as int, ListView::start());
    }
    let mut parser = ListParser {
        token_start: 0,
        token_end: 0,
        is_token_start: true,
        item: String::new(),
        has_item: false,
        list: Vec::new(),
    };
    assert(parser@.list =~= Seq::empty());
    let len: usize = stream.data.len();
    while stream.pos < len
        invariant
            stream.data == old(stream).data,
            len == stream.data@.len(),
            old(stream).pos <= stream.pos <= len,
            parser@.token_within(stream.pos as int),
            list_at(old(stream).data@, old(stream).pos as int).0 == after_field(
                old(stream).data@,
                old(stream).pos as int,
            ),
            list_at(old(stream).data@, old(stream).pos as int) == list_from(
                stream.data@,
                stream.pos as int,
                parser@,
            ),
        decreases len - stream.pos,
    {
        let ch: u8 = stream.data[stream.pos];
        stream.pos += 1;
        if ch == 10 {
            add_token(&mut parser, stream, false);
            if stream.pos < len && (stream.data[stream.pos] == 32 || stream.data[stream.pos]
                == 9) {
                parser.is_token_start = true;
                stream.pos += 1;
            } else {
                add_tokens_to_list(&mut parser);
                return finish(&mut parser);
            }
        } else if ch == 32 || ch == 9 {
            parser.is_token_start = true;
        } else if ch == 61 && parser.is_token_start {
            let (consumed, word) = decode_rfc2047(stream, stream.pos);
            match word {
                Some(text) => {
                    add_token(&mut parser, stream, true);
                    parser.item.append(text.as_str());
                    parser.has_item = true;
                    stream.pos += consumed;
                },
                None => {
                    parser.is_token_start = false;
                    if parser.token_start == 0 {
                        parser.token_start = stream.pos;
                    }
                    parser.token_end = stream.pos;
                },
            }
        } else if ch == 44 {
            add_token(&mut parser, stream, false);
            add_tokens_to_list(&mut parser);
        } else if ch == 13 {
        } else {
            parser.is_token_start = false;
            if parser.token_start == 0 {
                parser.token_start = stream.pos;
            }
            parser.token_end = stream.pos;
        }
    }
    HeaderValue::Empty
}

} // verus!
