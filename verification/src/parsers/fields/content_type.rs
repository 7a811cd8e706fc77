//! The `Content-Type` and `Content-Disposition` fields.

use crate::decoders::encoded_word::decode_rfc2047;
use crate::decoders::encoded_word::encoded_word;
use crate::parsers::fields::continuation::distinct_names;
use crate::parsers::fields::continuation::merge_continuations;
use crate::parsers::fields::continuation::merged_keeps_names_distinct;
use crate::parsers::fields::continuation::sort_segments;
use crate::parsers::fields::parser_state::add_attribute_parameter_keeps_names_distinct;
use crate::parsers::fields::parser_state::add_value_keeps_names_distinct;
use crate::parsers::fields::continuation::merge_segments;
use crate::parsers::fields::continuation::Continuation;
use crate::parsers::fields::parser_state::add_attr_position;
use crate::parsers::fields::parser_state::add_attribute;
use crate::parsers::fields::parser_state::add_attribute_parameter;
use crate::parsers::fields::parser_state::add_partial_value;
use crate::parsers::fields::parser_state::add_value;
use crate::parsers::fields::parser_state::reset_parser;
use crate::parsers::fields::parser_state::ContentState;
use crate::parsers::fields::parser_state::ContentTypeParser;
use crate::parsers::fields::parser_state::ParserView;
use crate::parsers::fields::raw::after_field;
use crate::parsers::fields::raw::field_end;
use crate::parsers::fields::raw::same_field;
use crate::parsers::message::MessageStream;
use crate::parsers::mime::is_blank;
use crate::ContentType;
use crate::ContentTypeView;
use crate::HeaderValue;
use crate::HeaderValueView;
use vstd::prelude::*;
use vstd::string::StringExecFns;

verus! {

/// What reading one byte leads to.
pub enum Flow {
    /// The byte is no part of a token; reading goes on at the position given.
    Next(ParserView, int),
    /// The byte is part of a token.
    Token(ParserView),
    /// The field has ended at the position given, with the value given.
    Done(int, HeaderValueView),
}

/// What the parser does after reading a byte.
pub enum Action {
    /// The byte is no part of a token.
    Next,
    /// The byte is part of a token.
    Token,
    /// The field has ended with this value.
    Done(HeaderValue),
}

/// The mathematical value of an [`Action`], with the state and the position
/// that it leaves.
pub open spec fn flow_of(action: Action, parser: ParserView, pos: int) -> Flow {
    match action {
        Action::Next => Flow::Next(parser, pos),
        Action::Token => Flow::Token(parser),
        Action::Done(value) => Flow::Done(pos, value@),
    }
}

impl ParserView {
    /// Whether a type, a subtype or the name of a parameter is being read.
    pub open spec fn in_name(self) -> bool {
        self.state == ContentState::Type || self.state == ContentState::SubType || self.state
            == ContentState::AttributeName
    }

    /// Whether a value is being read, quoted or not.
    pub open spec fn in_value(self) -> bool {
        self.state == ContentState::AttributeValue || self.state
            == ContentState::AttributeQuotedValue
    }

    /// Ends what is being read, before a line break or a comment.
    pub open spec fn end_item(self, data: Seq<u8>) -> ParserView {
        if self.in_name() {
            self.add_attribute(data).0
        } else if self.state == ContentState::AttributeValue {
            self.add_value(data)
        } else {
            self
        }
    }

    /// The byte read, at the position before `pos`, joins the token.
    pub open spec fn take_token(self, pos: int) -> ParserView {
        ParserView {
            is_escaped: false,
            is_token_start: false,
            token_start: if self.token_start == 0 {
                pos
            } else {
                self.token_start
            },
            token_end: pos,
            ..self
        }
    }

    /// The value of the field, once it has ended: the numbered segments are
    /// merged into the parameters. Without a type there is no value.
    pub open spec fn finish(self) -> HeaderValueView {
        let attrs = if self.continuations.len() > 0 {
            merge_segments(self.attributes, self.continuations)
        } else {
            self.attributes
        };
        match self.c_type {
            Some(c_type) => HeaderValueView::ContentType(
                ContentTypeView {
                    c_type,
                    c_subtype: self.c_subtype,
                    attributes: if attrs.len() > 0 {
                        Some(attrs)
                    } else {
                        None
                    },
                },
            ),
            None => HeaderValueView::Empty,
        }
    }

    /// A blank separates words; inside quotes it belongs to the value.
    pub open spec fn on_blank(self, pos: int) -> Flow {
        let p = ParserView { is_token_start: true, ..self };
        if self.state == ContentState::AttributeQuotedValue {
            Flow::Next(
                ParserView {
                    token_start: if self.token_start == 0 {
                        pos
                    } else {
                        self.token_start
                    },
                    token_end: pos,
                    ..p
                },
                pos,
            )
        } else {
            Flow::Next(p, pos)
        }
    }

    /// A line feed ends the field, unless the next line begins with a blank:
    /// then the field goes on there with the name of a parameter, or, inside
    /// quotes, with the value.
    pub open spec fn on_line_feed(self, data: Seq<u8>, pos: int) -> Flow {
        let folded = 0 <= pos < data.len() && is_blank(data[pos]);
        if self.state == ContentState::AttributeQuotedValue && folded {
            Flow::Next(ParserView { remove_crlf: true, ..self }, pos)
        } else {
            let p = if self.state == ContentState::AttributeQuotedValue {
                self.add_value(data)
            } else {
                self.end_item(data)
            };
            if folded {
                Flow::Next(
                    ParserView { state: ContentState::AttributeName, is_token_start: true, ..p },
                    pos + 1,
                )
            } else {
                Flow::Done(pos, p.finish())
            }
        }
    }

    /// A `;` ends a name or an unquoted value; the name of a parameter
    /// follows.
    pub open spec fn on_semicolon(self, data: Seq<u8>, pos: int) -> Flow {
        if self.in_name() {
            Flow::Next(
                ParserView { state: ContentState::AttributeName, ..self.add_attribute(data).0 },
                pos,
            )
        } else if self.state == ContentState::AttributeValue {
            if !self.is_escaped {
                Flow::Next(
                    ParserView { state: ContentState::AttributeName, ..self.add_value(data) },
                    pos,
                )
            } else {
                Flow::Next(ParserView { is_escaped: false, ..self }, pos)
            }
        } else {
            Flow::Token(self)
        }
    }

    /// A `*` in the name of a parameter: the first ends the name and makes
    /// the parameter a continuation, the second ends the number of the
    /// segment and makes the value percent-encoded.
    pub open spec fn on_star(self, data: Seq<u8>, pos: int) -> Flow {
        if !self.is_continuation {
            let (p, added) = self.add_attribute(data);
            Flow::Next(ParserView { is_continuation: added, ..p }, pos)
        } else if !self.is_encoded_attribute {
            Flow::Next(
                ParserView { is_encoded_attribute: true, ..self.add_attr_position(data).0 },
                pos,
            )
        } else {
            Flow::Next(self.reset(), pos)
        }
    }

    /// An `=` ends the name of a parameter. In a value, at the start of a
    /// word, it may begin an encoded word, whose text becomes a piece of the
    /// value.
    pub open spec fn on_equals(self, data: Seq<u8>, pos: int) -> Flow {
        if self.state == ContentState::AttributeName {
            if !self.is_continuation {
                let (p, added) = self.add_attribute(data);
                if added {
                    Flow::Next(ParserView { state: ContentState::AttributeValue, ..p }, pos)
                } else {
                    Flow::Next(p, pos)
                }
            } else if !self.is_encoded_attribute {
                let (p, added) = self.add_attr_position(data);
                Flow::Next(
                    ParserView {
                        state: ContentState::AttributeValue,
                        is_encoded_attribute: !added,
                        ..p
                    },
                    pos,
                )
            } else {
                Flow::Next(
                    ParserView { state: ContentState::AttributeValue, ..self.reset() },
                    pos,
                )
            }
        } else if self.in_value() && self.is_token_start && encoded_word(data, pos).1 is Some {
            let p = self.add_partial_value(data, pos, false);
            Flow::Next(
                ParserView {
                    value: p.value + encoded_word(data, pos).1->0,
                    has_values: true,
                    ..p
                },
                pos + encoded_word(data, pos).0,
            )
        } else {
            Flow::Token(self)
        }
    }

    /// A `"` opens a quoted value or, unless escaped, closes it.
    pub open spec fn on_quote(self, data: Seq<u8>, pos: int) -> Flow {
        if self.state == ContentState::AttributeValue {
            Flow::Next(
                ParserView {
                    state: ContentState::AttributeQuotedValue,
                    is_token_start: true,
                    ..self
                },
                pos,
            )
        } else if self.state == ContentState::AttributeQuotedValue {
            if !self.is_escaped {
                Flow::Next(
                    ParserView { state: ContentState::AttributeName, ..self.add_value(data) },
                    pos,
                )
            } else {
                Flow::Token(ParserView { is_escaped: false, ..self })
            }
        } else {
            Flow::Next(self, pos)
        }
    }

    /// A `\` in a value escapes the next byte: what was read of the value is
    /// set aside, so that the `\` is left out. An escaped `\` is text.
    pub open spec fn on_backslash(self, data: Seq<u8>, pos: int) -> Flow {
        if self.in_value() {
            if !self.is_escaped {
                Flow::Next(
                    ParserView { is_escaped: true, ..self.add_partial_value(data, pos, true) },
                    pos,
                )
            } else {
                Flow::Token(ParserView { is_escaped: false, ..self })
            }
        } else if self.state == ContentState::Comment {
            Flow::Token(ParserView { is_escaped: !self.is_escaped, ..self })
        } else {
            Flow::Next(self, pos)
        }
    }

    /// A `(` outside quotes opens a comment, unless escaped: what is being
    /// read ends, and is gone back to when the comment closes.
    pub open spec fn on_open(self, data: Seq<u8>, pos: int) -> Flow {
        if !self.is_escaped {
            let p = self.end_item(data);
            Flow::Next(
                ParserView {
                    state_stack: p.state_stack.push(p.state),
                    state: ContentState::Comment,
                    ..p
                },
                pos,
            )
        } else {
            Flow::Next(ParserView { is_escaped: false, ..self }, pos)
        }
    }

    /// A `)` closes a comment, unless escaped.
    pub open spec fn on_close(self, pos: int) -> Flow {
        if !self.is_escaped {
            if self.state_stack.len() > 0 {
                Flow::Next(
                    ParserView {
                        state: self.state_stack.last(),
                        state_stack: self.state_stack.drop_last(),
                        ..self
                    }.reset(),
                    pos,
                )
            } else {
                Flow::Next(self.reset(), pos)
            }
        } else {
            Flow::Next(ParserView { is_escaped: false, ..self }, pos)
        }
    }

    /// Reads the byte `ch`, which stands before `pos`.
    pub open spec fn on_byte(self, data: Seq<u8>, pos: int, ch: u8) -> Flow {
        if ch == 32 || ch == 9 {
            self.on_blank(pos)
        } else if ch == 10 {
            self.on_line_feed(data, pos)
        } else if ch == 47 && self.state == ContentState::Type {
            Flow::Next(
                ParserView { state: ContentState::SubType, ..self.add_attribute(data).0 },
                pos,
            )
        } else if ch == 59 {
            self.on_semicolon(data, pos)
        } else if ch == 42 && self.state == ContentState::AttributeName {
            self.on_star(data, pos)
        } else if ch == 61 {
            self.on_equals(data, pos)
        } else if ch == 34 {
            self.on_quote(data, pos)
        } else if ch == 92 {
            self.on_backslash(data, pos)
        } else if ch == 39 && self.is_encoded_attribute && !self.is_escaped && self.in_value() {
            Flow::Next(self.add_attribute_parameter(data), pos)
        } else if ch == 40 && self.state != ContentState::AttributeQuotedValue {
            self.on_open(data, pos)
        } else if ch == 41 && self.state == ContentState::Comment {
            self.on_close(pos)
        } else if ch == 13 {
            Flow::Next(self, pos)
        } else {
            Flow::Token(self)
        }
    }
}

/// Whether the parameters of a content type, if it has any, are one at least
/// and have names that are distinct.
pub open spec fn unique_names(value: HeaderValueView) -> bool {
    match value {
        HeaderValueView::ContentType(c) => match c.attributes {
            Some(attrs) => attrs.len() > 0 && distinct_names(attrs),
            None => true,
        },
        _ => true,
    }
}

/// The value of a field whose parameters have distinct names has parameters
/// with distinct names: merging the numbered segments adds no name twice.
pub proof fn finish_has_unique_names(p: ParserView)
    requires
        distinct_names(p.attributes),
    ensures
        unique_names(p.finish()),
{
    merged_keeps_names_distinct(
        p.attributes,
        sort_segments(p.continuations),
        p.continuations.len() as int,
    );
}

/// The value of a field does not depend on the order in which its numbered
/// segments were met: two parsers that have read the same type, subtype and
/// parameters and the same numbered segments, in whatever order, end with the
/// same value.
pub proof fn value_ignores_the_order_of_segments(p: ParserView, q: ParserView)
    requires
        p.c_type == q.c_type,
        p.c_subtype == q.c_subtype,
        p.attributes == q.attributes,
        p.continuations.to_multiset() == q.continuations.to_multiset(),
    ensures
        p.finish() == q.finish(),
{
    crate::parsers::fields::segment_order::merging_ignores_the_order_of_segments(
        p.attributes,
        p.continuations,
        q.continuations,
    );
    vstd::seq_lib::to_multiset_len(p.continuations);
    vstd::seq_lib::to_multiset_len(q.continuations);
}

/// Whether what reading a byte leads to has parameters with distinct names.
pub open spec fn keeps_names_distinct(flow: Flow) -> bool {
    match flow {
        Flow::Next(q, _) => distinct_names(q.attributes),
        Flow::Token(q) => distinct_names(q.attributes),
        Flow::Done(_, value) => unique_names(value),
    }
}

proof fn end_item_keeps_names_distinct(p: ParserView, data: Seq<u8>)
    requires
        distinct_names(p.attributes),
    ensures
        distinct_names(p.end_item(data).attributes),
{
    add_value_keeps_names_distinct(p, data);
}

proof fn line_feed_keeps_names_distinct(p: ParserView, data: Seq<u8>, pos: int)
    requires
        distinct_names(p.attributes),
    ensures
        keeps_names_distinct(p.on_line_feed(data, pos)),
{
    add_value_keeps_names_distinct(p, data);
    end_item_keeps_names_distinct(p, data);
    finish_has_unique_names(p.add_value(data));
    finish_has_unique_names(p.end_item(data));
}

proof fn semicolon_keeps_names_distinct(p: ParserView, data: Seq<u8>, pos: int)
    requires
        distinct_names(p.attributes),
    ensures
        keeps_names_distinct(p.on_semicolon(data, pos)),
{
    add_value_keeps_names_distinct(p, data);
}

proof fn star_keeps_names_distinct(p: ParserView, data: Seq<u8>, pos: int)
    requires
        distinct_names(p.attributes),
    ensures
        keeps_names_distinct(p.on_star(data, pos)),
{
}

proof fn equals_keeps_names_distinct(p: ParserView, data: Seq<u8>, pos: int)
    requires
        distinct_names(p.attributes),
    ensures
        keeps_names_distinct(p.on_equals(data, pos)),
{
}

proof fn quote_keeps_names_distinct(p: ParserView, data: Seq<u8>, pos: int)
    requires
        distinct_names(p.attributes),
    ensures
        keeps_names_distinct(p.on_quote(data, pos)),
{
    add_value_keeps_names_distinct(p, data);
}

proof fn backslash_keeps_names_distinct(p: ParserView, data: Seq<u8>, pos: int)
    requires
        distinct_names(p.attributes),
    ensures
        keeps_names_distinct(p.on_backslash(data, pos)),
{
}

proof fn open_keeps_names_distinct(p: ParserView, data: Seq<u8>, pos: int)
    requires
        distinct_names(p.attributes),
    ensures
        keeps_names_distinct(p.on_open(data, pos)),
{
    end_item_keeps_names_distinct(p, data);
}

/// Reading a byte leaves the names of the parameters distinct, and a field
/// that ends has parameters with distinct names.
pub proof fn on_byte_keeps_names_distinct(p: ParserView, data: Seq<u8>, pos: int, ch: u8)
    requires
        distinct_names(p.attributes),
    ensures
        keeps_names_distinct(p.on_byte(data, pos, ch)),
{
    if ch == 32 || ch == 9 {
    } else if ch == 10 {
        line_feed_keeps_names_distinct(p, data, pos);
    } else if ch == 47 && p.state == ContentState::Type {
    } else if ch == 59 {
        semicolon_keeps_names_distinct(p, data, pos);
    } else if ch == 42 && p.state == ContentState::AttributeName {
        star_keeps_names_distinct(p, data, pos);
    } else if ch == 61 {
        equals_keeps_names_distinct(p, data, pos);
    } else if ch == 34 {
        quote_keeps_names_distinct(p, data, pos);
    } else if ch == 92 {
        backslash_keeps_names_distinct(p, data, pos);
    } else if ch == 39 && p.is_encoded_attribute && !p.is_escaped && p.in_value() {
        add_attribute_parameter_keeps_names_distinct(p, data);
    } else if ch == 40 && p.state != ContentState::AttributeQuotedValue {
        open_keeps_names_distinct(p, data, pos);
    } else if ch == 41 && p.state == ContentState::Comment {
    } else {
    }
}

/// Whether `flow` goes on behind the byte that was read, which stands
/// before `pos`.
pub open spec fn goes_on_at(flow: Flow, pos: int) -> bool {
    match flow {
        Flow::Next(_, next) => next == pos,
        Flow::Token(_) => true,
        Flow::Done(_, _) => false,
    }
}

proof fn equals_goes_on(p: ParserView, data: Seq<u8>, pos: int)
    ensures
        match p.on_equals(data, pos) {
            Flow::Next(_, next) => next == pos || (encoded_word(data, pos).1 is Some && next == pos
                + encoded_word(data, pos).0),
            Flow::Token(_) => true,
            Flow::Done(_, _) => false,
        },
{
}

proof fn line_feed_goes_on(p: ParserView, data: Seq<u8>, pos: int)
    ensures
        match p.on_line_feed(data, pos) {
            Flow::Next(_, next) => 0 <= pos < data.len() && is_blank(data[pos]) && (next == pos
                || next == pos + 1),
            Flow::Token(_) => false,
            Flow::Done(end, _) => end == pos && !(0 <= pos < data.len() && is_blank(data[pos])),
        },
{
}

proof fn others_go_on(p: ParserView, data: Seq<u8>, pos: int)
    ensures
        goes_on_at(p.on_blank(pos), pos),
        goes_on_at(p.on_semicolon(data, pos), pos),
        goes_on_at(p.on_star(data, pos), pos),
        goes_on_at(p.on_quote(data, pos), pos),
        goes_on_at(p.on_backslash(data, pos), pos),
        goes_on_at(p.on_open(data, pos), pos),
        goes_on_at(p.on_close(pos), pos),
{
}

/// Whether what reading the byte at `at` leads to stays in the field of that
/// byte, or ends behind it.
pub open spec fn stays_in_field(data: Seq<u8>, at: int, flow: Flow) -> bool {
    match flow {
        Flow::Next(_, next) => at < next <= data.len() && after_field(data, next) == after_field(
            data,
            at,
        ),
        Flow::Token(_) => at + 1 <= data.len() && after_field(data, at + 1) == after_field(
            data,
            at,
        ),
        Flow::Done(end, _) => end == after_field(data, at),
    }
}

proof fn on_byte_stays_in_field(p: ParserView, data: Seq<u8>, at: int)
    requires
        0 <= at < data.len(),
    ensures
        stays_in_field(data, at, p.on_byte(data, at + 1, data[at])),
{
    let pos = at + 1;
    let ch = data[at];
    others_go_on(p, data, pos);
    if ch == 10 {
        line_feed_goes_on(p, data, pos);
        if pos < data.len() && is_blank(data[pos]) {
            assert(field_end(data, at) == field_end(data, pos));
            assert(field_end(data, pos) == field_end(data, pos + 1));
        } else {
            assert(field_end(data, at) == at);
        }
    } else {
        assert(field_end(data, at) == field_end(data, pos));
        if ch == 61 {
            equals_goes_on(p, data, pos);
            if encoded_word(data, pos).1 is Some {
                crate::decoders::encoded_word::encoded_word_holds_no_line_feed(data, pos);
                same_field(data, pos, pos + encoded_word(data, pos).0);
            }
        }
    }
}

/// The parser ends behind the field in which it began: behind the first line
/// feed that is not followed by a blank, or at the end of the input.
pub proof fn content_type_ends_behind_the_field(data: Seq<u8>, pos: int, p: ParserView)
    requires
        0 <= pos <= data.len(),
    ensures
        content_type_from(data, pos, p).0 == after_field(data, pos),
    decreases data.len() - pos,
{
    if pos < data.len() {
        on_byte_stays_in_field(p, data, pos);
        match p.on_byte(data, pos + 1, data[pos]) {
            Flow::Next(q, next) => {
                content_type_ends_behind_the_field(data, next, q);
            },
            Flow::Token(q) => {
                content_type_ends_behind_the_field(data, pos + 1, q.take_token(pos + 1));
            },
            Flow::Done(_, _) => {},
        }
    }
}

/// What [`parse_content_type`] leaves and returns when it goes on from `pos`
/// in the state `p`: the position behind the field, and its value. A field
/// that the end of the input cuts short has no value.
pub open spec fn content_type_from(data: Seq<u8>, pos: int, p: ParserView) -> (
    int,
    HeaderValueView,
)
    decreases data.len() - pos,
{
    if pos < 0 || pos >= data.len() {
        (data.len() as int, HeaderValueView::Empty)
    } else {
        match p.on_byte(data, pos + 1, data[pos]) {
            Flow::Next(q, next) => if pos < next <= data.len() {
                content_type_from(data, next, q)
            } else {
                (data.len() as int, HeaderValueView::Empty)
            },
            Flow::Token(q) => content_type_from(data, pos + 1, q.take_token(pos + 1)),
            Flow::Done(end, value) => (end, value),
        }
    }
}

/// What [`parse_content_type`] leaves and returns for a field whose value
/// starts at `pos`.
#[verifier::opaque]
pub open spec fn content_type_at(data: Seq<u8>, pos: int) -> (int, HeaderValueView) {
    content_type_from(data, pos, ParserView::start())
}

/// Ends what is being read, before a line break or a comment.
pub fn end_item(parser: &mut ContentTypeParser, stream: &MessageStream)
    requires
        old(parser)@.token_within(stream.pos as int),
        stream.pos <= stream.data@.len(),
    ensures
        final(parser)@ == old(parser)@.end_item(stream.data@),
{
    match parser.state {
        ContentState::Type | ContentState::SubType | ContentState::AttributeName => {
            add_attribute(parser, stream);
        },
        ContentState::AttributeValue => {
            add_value(parser, stream);
        },
        _ => {},
    }
}

/// The value of the field, once it has ended.
pub fn finish(parser: &mut ContentTypeParser) -> (r: HeaderValue)
    ensures
        r@ == old(parser)@.finish(),
{
    assert(parser.continuations@.len() == parser@.continuations.len());
    if parser.continuations.len() > 0 {
        let mut taken: Vec<Continuation> = Vec::new();
        core::mem::swap(&mut taken, &mut parser.continuations);
        merge_continuations(&mut parser.attributes, taken);
    }
    let c_subtype = match &parser.c_subtype {
        Some(s) => Some(s.clone()),
        None => None,
    };
    match &parser.c_type {
        Some(c_type) => {
            let c_type = c_type.clone();
            let mut attrs: Vec<(String, String)> = Vec::new();
            core::mem::swap(&mut attrs, &mut parser.attributes);
            HeaderValue::ContentType(
                ContentType {
                    c_type,
                    c_subtype,
                    attributes: if attrs.len() > 0 {
                        Some(attrs)
                    } else {
                        None
                    },
                },
            )
        },
        None => HeaderValue::Empty,
    }
}

/// Reads a line feed.
pub fn on_line_feed(parser: &mut ContentTypeParser, stream: &mut MessageStream) -> (r: Action)
    requires
        old(parser)@.token_within(old(stream).pos as int),
        old(stream).pos <= old(stream).data@.len(),
    ensures
        final(stream).data == old(stream).data,
        flow_of(r, final(parser)@, final(stream).pos as int) == old(parser)@.on_line_feed(
            old(stream).data@,
            old(stream).pos as int,
        ),
        old(stream).pos <= final(stream).pos <= final(stream).data@.len(),
        !(r is Done) ==> final(parser)@.token_within(final(stream).pos as int),
        r is Token ==> final(stream).pos == old(stream).pos,
{
    let folded: bool = stream.pos < stream.data.len() && (stream.data[stream.pos] == 32
        || stream.data[stream.pos] == 9);
    if parser.state == ContentState::AttributeQuotedValue {
        if folded {
            parser.remove_crlf = true;
            return Action::Next;
        }
        add_value(parser, stream);
    } else {
        end_item(parser, stream);
    }
    if folded {
        parser.state = ContentState::AttributeName;
        parser.is_token_start = true;
        stream.pos += 1;
        Action::Next
    } else {
        Action::Done(finish(parser))
    }
}

/// Reads a `;`.
pub fn on_semicolon(parser: &mut ContentTypeParser, stream: &MessageStream) -> (r: Action)
    requires
        old(parser)@.token_within(stream.pos as int),
        stream.pos <= stream.data@.len(),
    ensures
        flow_of(r, final(parser)@, stream.pos as int) == old(parser)@.on_semicolon(
            stream.data@,
            stream.pos as int,
        ),
        final(parser)@.token_within(stream.pos as int),
{
    match parser.state {
        ContentState::Type | ContentState::SubType | ContentState::AttributeName => {
            add_attribute(parser, stream);
            parser.state = ContentState::AttributeName;
            Action::Next
        },
        ContentState::AttributeValue => {
            if !parser.is_escaped {
                add_value(parser, stream);
                parser.state = ContentState::AttributeName;
            } else {
                parser.is_escaped = false;
            }
            Action::Next
        },
        _ => Action::Token,
    }
}

/// Reads a `*` in the name of a parameter.
pub fn on_star(parser: &mut ContentTypeParser, stream: &MessageStream) -> (r: Action)
    requires
        old(parser)@.token_within(stream.pos as int),
        stream.pos <= stream.data@.len(),
    ensures
        flow_of(r, final(parser)@, stream.pos as int) == old(parser)@.on_star(
            stream.data@,
            stream.pos as int,
        ),
        final(parser)@.token_within(stream.pos as int),
{
    if !parser.is_continuation {
        let added = add_attribute(parser, stream);
        parser.is_continuation = added;
    } else if !parser.is_encoded_attribute {
        add_attr_position(parser, stream);
        parser.is_encoded_attribute = true;
    } else {
        reset_parser(parser);
    }
    Action::Next
}

/// Reads an `=`.
pub fn on_equals(parser: &mut ContentTypeParser, stream: &mut MessageStream) -> (r: Action)
    requires
        old(parser)@.token_within(old(stream).pos as int),
        old(stream).pos <= old(stream).data@.len(),
    ensures
        final(stream).data == old(stream).data,
        flow_of(r, final(parser)@, final(stream).pos as int) == old(parser)@.on_equals(
            old(stream).data@,
            old(stream).pos as int,
        ),
        old(stream).pos <= final(stream).pos <= final(stream).data@.len(),
        final(parser)@.token_within(final(stream).pos as int),
        r is Token ==> final(stream).pos == old(stream).pos,
{
    match parser.state {
        ContentState::AttributeName => {
            if !parser.is_continuation {
                if !add_attribute(parser, stream) {
                    return Action::Next;
                }
            } else if !parser.is_encoded_attribute {
                let added = add_attr_position(parser, stream);
                parser.is_encoded_attribute = !added;
            } else {
                reset_parser(parser);
            }
            parser.state = ContentState::AttributeValue;
            Action::Next
        },
        ContentState::AttributeValue | ContentState::AttributeQuotedValue => {
            if parser.is_token_start {
                let len: usize = stream.data.len();
                let (consumed, word) = decode_rfc2047(stream, stream.pos);
                match word {
                    Some(text) => {
                        add_partial_value(parser, stream, false);
                        parser.value.append(text.as_str());
                        parser.has_values = true;
                        stream.pos += consumed;
                        return Action::Next;
                    },
                    None => {},
                }
            }
            Action::Token
        },
        _ => Action::Token,
    }
}

/// Reads a `"`.
pub fn on_quote(parser: &mut ContentTypeParser, stream: &MessageStream) -> (r: Action)
    requires
        old(parser)@.token_within(stream.pos as int),
        stream.pos <= stream.data@.len(),
    ensures
        flow_of(r, final(parser)@, stream.pos as int) == old(parser)@.on_quote(
            stream.data@,
            stream.pos as int,
        ),
        final(parser)@.token_within(stream.pos as int),
{
    match parser.state {
        ContentState::AttributeValue => {
            parser.is_token_start = true;
            parser.state = ContentState::AttributeQuotedValue;
            Action::Next
        },
        ContentState::AttributeQuotedValue => {
            if !parser.is_escaped {
                add_value(parser, stream);
                parser.state = ContentState::AttributeName;
                Action::Next
            } else {
                parser.is_escaped = false;
                Action::Token
            }
        },
        _ => Action::Next,
    }
}

/// Reads a `\`.
pub fn on_backslash(parser: &mut ContentTypeParser, stream: &MessageStream) -> (r: Action)
    requires
        old(parser)@.token_within(stream.pos as int),
        stream.pos <= stream.data@.len(),
    ensures
        flow_of(r, final(parser)@, stream.pos as int) == old(parser)@.on_backslash(
            stream.data@,
            stream.pos as int,
        ),
        final(parser)@.token_within(stream.pos as int),
{
    match parser.state {
        ContentState::AttributeQuotedValue | ContentState::AttributeValue => {
            if !parser.is_escaped {
                add_partial_value(parser, stream, true);
                parser.is_escaped = true;
                Action::Next
            } else {
                parser.is_escaped = false;
                Action::Token
            }
        },
        ContentState::Comment => {
            parser.is_escaped = !parser.is_escaped;
            Action::Token
        },
        _ => Action::Next,
    }
}

/// Reads a `(` outside quotes.
pub fn on_open(parser: &mut ContentTypeParser, stream: &MessageStream) -> (r: Action)
    requires
        old(parser)@.token_within(stream.pos as int),
        stream.pos <= stream.data@.len(),
    ensures
        flow_of(r, final(parser)@, stream.pos as int) == old(parser)@.on_open(
            stream.data@,
            stream.pos as int,
        ),
        final(parser)@.token_within(stream.pos as int),
{
    if !parser.is_escaped {
        end_item(parser, stream);
        parser.state_stack.push(parser.state);
        parser.state = ContentState::Comment;
    } else {
        parser.is_escaped = false;
    }
    Action::Next
}

/// Reads a `)` in a comment.
pub fn on_close(parser: &mut ContentTypeParser, stream: &MessageStream) -> (r: Action)
    requires
        old(parser)@.token_within(stream.pos as int),
    ensures
        flow_of(r, final(parser)@, stream.pos as int) == old(parser)@.on_close(stream.pos as int),
        final(parser)@.token_within(stream.pos as int),
{
    if !parser.is_escaped {
        match parser.state_stack.pop() {
            Some(state) => {
                parser.state = state;
            },
            None => {},
        }
        reset_parser(parser);
    } else {
        parser.is_escaped = false;
    }
    Action::Next
}

/// Reads the byte `ch`, which stands just before the stream's position.
pub fn on_byte(parser: &mut ContentTypeParser, stream: &mut MessageStream, ch: u8) -> (r: Action)
    requires
        old(parser)@.token_within(old(stream).pos as int),
        old(stream).pos <= old(stream).data@.len(),
    ensures
        final(stream).data == old(stream).data,
        flow_of(r, final(parser)@, final(stream).pos as int) == old(parser)@.on_byte(
            old(stream).data@,
            old(stream).pos as int,
            ch,
        ),
        old(stream).pos <= final(stream).pos <= final(stream).data@.len(),
        !(r is Done) ==> final(parser)@.token_within(final(stream).pos as int),
        r is Token ==> final(stream).pos == old(stream).pos,
{
    let in_value: bool = parser.state == ContentState::AttributeValue || parser.state
        == ContentState::AttributeQuotedValue;
    if ch == 32 || ch == 9 {
        parser.is_token_start = true;
        if parser.state == ContentState::AttributeQuotedValue {
            if parser.token_start == 0 {
                parser.token_start = stream.pos;
            }
            parser.token_end = stream.pos;
        }
        Action::Next
    } else if ch == 10 {
        on_line_feed(parser, stream)
    } else if ch == 47 && parser.state == ContentState::Type {
        add_attribute(parser, stream);
        parser.state = ContentState::SubType;
        Action::Next
    } else if ch == 59 {
        on_semicolon(parser, stream)
    } else if ch == 42 && parser.state == ContentState::AttributeName {
        on_star(parser, stream)
    } else if ch == 61 {
        on_equals(parser, stream)
    } else if ch == 34 {
        on_quote(parser, stream)
    } else if ch == 92 {
        on_backslash(parser, stream)
    } else if ch == 39 && parser.is_encoded_attribute && !parser.is_escaped && in_value {
        add_attribute_parameter(parser, stream);
        Action::Next
    } else if ch == 40 && parser.state != ContentState::AttributeQuotedValue {
        on_open(parser, stream)
    } else if ch == 41 && parser.state == ContentState::Comment {
        on_close(parser, stream)
    } else if ch == 13 {
        Action::Next
    } else {
        Action::Token
    }
}

/// Parses the value of a `Content-Type` or `Content-Disposition` field that
/// starts at the stream's position, and moves behind the field.
///
/// The type, the subtype and the names of the parameters are given in lower
/// case. Comments are left out, quoted values are unquoted, encoded words in
/// values are decoded, and the segments of continued parameters are joined
/// in the order of their numbers. No two parameters have the same name: of a
/// name that is given twice the first value is kept. A field without a type
/// has no value. The stream is left behind the first line feed that is not
/// followed by a blank, or at the end of the input.
pub fn parse_content_type(stream: &mut MessageStream) -> (r: HeaderValue)
    requires
        old(stream).pos <= old(stream).data@.len(),
    ensures
        final(stream).data == old(stream).data,
        final(stream).pos == content_type_at(old(stream).data@, old(stream).pos as int).0,
        r@ == content_type_at(old(stream).data@, old(stream).pos as int).1,
        final(stream).pos == after_field(old(stream).data@, old(stream).pos as int),
        old(stream).pos <= final(stream).pos <= final(stream).data@.len(),
        unique_names(r@),
{
    reveal(content_type_at);
    proof {
        content_type_ends_behind_the_field(stream.data@, stream.pos as int, ParserView::start());
    }
    let mut parser = ContentTypeParser::new();
    let len: usize = stream.data.len();
    while stream.pos < len
        invariant
            stream.data == old(stream).data,
            len == stream.data@.len(),
            old(stream).pos <= stream.pos <= len,
            parser@.token_within(stream.pos as int),
            distinct_names(parser@.attributes),
            content_type_at(old(stream).data@, old(stream).pos as int).0 == after_field(
                old(stream).data@,
                old(stream).pos as int,
            ),
            content_type_at(old(stream).data@, old(stream).pos as int) == content_type_from(
                stream.data@,
                stream.pos as int,
                parser@,
            ),
        decreases len - stream.pos,
    {
        let ch: u8 = stream.data[stream.pos];
        stream.pos += 1;
        proof {
            on_byte_keeps_names_distinct(parser@, stream.data@, stream.pos as int, ch);
        }
        match on_byte(&mut parser, stream, ch) {
            Action::Next => {},
            Action::Token => {
                parser.is_escaped = false;
                parser.is_token_start = false;
                if parser.token_start == 0 {
                    parser.token_start = stream.pos;
                }
                parser.token_end = stream.pos;
            },
            Action::Done(value) => {
                return value;
            },
        }
    }
    HeaderValue::Empty
}

} // verus!
