//! The state of the content type parser and what it does with a token.

use crate::decoders::encoded_word::decode_text_in;
use crate::decoders::encoded_word::encoded_word;
use crate::decoders::encoded_word::text_in;
use crate::decoders::hex::decode_hex;
use crate::decoders::hex::percent_decoded;
use crate::pairs_view;
use crate::parsers::fields::continuation::continuations_view;
use crate::parsers::fields::continuation::distinct_names;
use crate::parsers::fields::continuation::pairs_view_push;
use crate::parsers::fields::continuation::continuations_view_push;
use crate::parsers::fields::continuation::Continuation;
use crate::parsers::fields::continuation::ContinuationView;
use crate::parsers::message::MessageStream;
use crate::parsers::mime::CR;
use crate::parsers::mime::LF;
use crate::text::lossy_string;
use crate::text::lower_bytes;
use crate::text::lower_text_of;
use crate::text::text_of;
use crate::text::utf8_lossy;
use vstd::prelude::*;
use vstd::string::StringExecFns;
use vstd::utf8::encode_utf8;

verus! {

/// What the parser is reading.
#[derive(Clone, Copy, Debug, PartialEq, Eq, Structural)]
pub enum ContentState {
    Type,
    SubType,
    AttributeName,
    AttributeValue,
    AttributeQuotedValue,
    Comment,
}

/// The state of the parser between two bytes.
pub struct ContentTypeParser {
    pub state: ContentState,
    /// The states that the open comments have interrupted.
    pub state_stack: Vec<ContentState>,
    pub c_type: Option<String>,
    pub c_subtype: Option<String>,
    /// The name of the parameter that is being read.
    pub attr_name: Option<String>,
    /// The character set that an extended value has named.
    pub attr_charset: Option<Vec<u8>>,
    /// The number of the segment that is being read.
    pub attr_position: u32,
    /// The pieces of the value that were set aside, joined.
    pub value: String,
    /// Whether any piece was set aside.
    pub has_values: bool,
    pub attributes: Vec<(String, String)>,
    pub continuations: Vec<Continuation>,
    /// One more than the position of the first byte of the token, or zero if
    /// there is no token.
    pub token_start: usize,
    /// The position behind the last byte of the token.
    pub token_end: usize,
    /// The name ended in `*`.
    pub is_continuation: bool,
    /// The value is percent-encoded.
    pub is_encoded_attribute: bool,
    /// The last byte was a `\`.
    pub is_escaped: bool,
    /// A quoted value runs over a line break, which is no part of it.
    pub remove_crlf: bool,
    /// The next byte begins a word.
    pub is_token_start: bool,
}

/// The mathematical value of a [`ContentTypeParser`].
pub struct ParserView {
    pub state: ContentState,
    pub state_stack: Seq<ContentState>,
    pub c_type: Option<Seq<char>>,
    pub c_subtype: Option<Seq<char>>,
    pub attr_name: Option<Seq<char>>,
    pub attr_charset: Option<Seq<u8>>,
    pub attr_position: u32,
    pub value: Seq<char>,
    pub has_values: bool,
    pub attributes: Seq<(Seq<char>, Seq<char>)>,
    pub continuations: Seq<ContinuationView>,
    pub token_start: int,
    pub token_end: int,
    pub is_continuation: bool,
    pub is_encoded_attribute: bool,
    pub is_escaped: bool,
    pub remove_crlf: bool,
    pub is_token_start: bool,
}

/// The view of an optional string.
pub open spec fn opt_view(s: Option<String>) -> Option<Seq<char>> {
    match s {
        Some(s) => Some(s@),
        None => None,
    }
}

impl View for ContentTypeParser {
    type V = ParserView;

    open spec fn view(&self) -> ParserView {
        ParserView {
            state: self.state,
            state_stack: self.state_stack@,
            c_type: opt_view(self.c_type),
            c_subtype: opt_view(self.c_subtype),
            attr_name: opt_view(self.attr_name),
            attr_charset: match self.attr_charset {
                Some(c) => Some(c@),
                None => None,
            },
            attr_position: self.attr_position,
            value: self.value@,
            has_values: self.has_values,
            attributes: pairs_view(self.attributes@),
            continuations: continuations_view(self.continuations@),
            token_start: self.token_start as int,
            token_end: self.token_end as int,
            is_continuation: self.is_continuation,
            is_encoded_attribute: self.is_encoded_attribute,
            is_escaped: self.is_escaped,
            remove_crlf: self.remove_crlf,
            is_token_start: self.is_token_start,
        }
    }
}

impl ParserView {
    /// The state before the first byte.
    pub open spec fn start() -> ParserView {
        ParserView {
            state: ContentState::Type,
            state_stack: Seq::empty(),
            c_type: None,
            c_subtype: None,
            attr_name: None,
            attr_charset: None,
            attr_position: 0,
            value: Seq::empty(),
            has_values: false,
            attributes: Seq::empty(),
            continuations: Seq::empty(),
            token_start: 0,
            token_end: 0,
            is_continuation: false,
            is_encoded_attribute: false,
            is_escaped: false,
            remove_crlf: false,
            is_token_start: true,
        }
    }

    /// The token lies within the bytes read so far, of which there are `pos`.
    pub open spec fn token_within(self, pos: int) -> bool {
        self.token_start == 0 || 1 <= self.token_start <= self.token_end <= pos
    }

    /// The bytes of the token.
    pub open spec fn token(self, data: Seq<u8>) -> Seq<u8> {
        data.subrange(self.token_start - 1, self.token_end)
    }

    /// Forgets the token.
    pub open spec fn reset(self) -> ParserView {
        ParserView { token_start: 0, is_token_start: true, ..self }
    }

    /// Takes the token, in lower case, as the type, the subtype or the name
    /// of a parameter, whichever is being read. Tells whether there was a
    /// token.
    pub open spec fn add_attribute(self, data: Seq<u8>) -> (ParserView, bool) {
        if self.token_start > 0 {
            let text = Some(utf8_lossy(lower_bytes(self.token(data))));
            (
                match self.state {
                    ContentState::AttributeName => ParserView { attr_name: text, ..self },
                    ContentState::Type => ParserView { c_type: text, ..self },
                    ContentState::SubType => ParserView { c_subtype: text, ..self },
                    _ => self,
                }.reset(),
                true,
            )
        } else {
            (self, false)
        }
    }

    /// The name under which the language of the parameter that is being read
    /// is kept.
    pub open spec fn language_name(self) -> Seq<char> {
        match self.attr_name {
            Some(name) => name + "-language"@,
            None => "unknown"@ + "-language"@,
        }
    }

    /// Takes the token as a part of the prefix of an extended value: the
    /// first is the character set, the second the language. A further one is
    /// text.
    pub open spec fn add_attribute_parameter(self, data: Seq<u8>) -> ParserView {
        if self.token_start > 0 {
            if self.attr_charset is None {
                ParserView { attr_charset: Some(self.token(data)), ..self }.reset()
            } else if !has_name(self.attributes, self.language_name()) {
                ParserView {
                    attributes: self.attributes.push(
                        (self.language_name(), utf8_lossy(self.token(data))),
                    ),
                    ..self
                }.reset()
            } else {
                ParserView {
                    value: self.value + seq!['\''] + utf8_lossy(self.token(data)),
                    has_values: true,
                    ..self
                }.reset()
            }
        } else {
            self
        }
    }

    /// Sets the token aside as a piece of the value. In a quoted value and
    /// with `to_cur_pos` the piece runs up to the byte before the last one
    /// read; outside quotes a space follows the piece.
    pub open spec fn add_partial_value(self, data: Seq<u8>, pos: int, to_cur_pos: bool) -> ParserView {
        if self.token_start > 0 {
            let in_quote = self.state == ContentState::AttributeQuotedValue;
            let piece = utf8_lossy(
                data.subrange(
                    self.token_start - 1,
                    if in_quote && to_cur_pos {
                        pos - 1
                    } else {
                        self.token_end
                    },
                ),
            );
            ParserView {
                value: if in_quote {
                    self.value + piece
                } else {
                    self.value + piece + seq![' ']
                },
                has_values: true,
                ..self
            }.reset()
        } else {
            self
        }
    }

    /// Takes the token as the number of a segment. Tells whether there was a
    /// token.
    pub open spec fn add_attr_position(self, data: Seq<u8>) -> (ParserView, bool) {
        if self.token_start > 0 {
            (ParserView { attr_position: segment_number(self.token(data)), ..self }.reset(), true)
        } else {
            (self, false)
        }
    }
}

/// Whether a pair of `attrs` is called `name`.
pub open spec fn has_name(attrs: Seq<(Seq<char>, Seq<char>)>, name: Seq<char>) -> bool {
    exists|i: int| 0 <= i < attrs.len() && #[trigger] attrs[i].0 == name
}

/// The parameters with one more, unless one of that name is there already:
/// of a name that is given twice the first value is kept.
pub open spec fn with_parameter(
    attrs: Seq<(Seq<char>, Seq<char>)>,
    name: Seq<char>,
    value: Seq<char>,
) -> Seq<(Seq<char>, Seq<char>)> {
    if has_name(attrs, name) {
        attrs
    } else {
        attrs.push((name, value))
    }
}

/// Adding a parameter leaves the names of the parameters distinct.
pub proof fn with_parameter_keeps_names_distinct(
    attrs: Seq<(Seq<char>, Seq<char>)>,
    name: Seq<char>,
    value: Seq<char>,
)
    requires
        distinct_names(attrs),
    ensures
        distinct_names(with_parameter(attrs, name, value)),
        with_parameter(attrs, name, value).len() > 0,
{
    let after = with_parameter(attrs, name, value);
    if !has_name(attrs, name) {
        assert forall|a: int, b: int| 0 <= a < b < after.len() implies after[a].0
            != after[b].0 by {
            if b < attrs.len() {
                assert(after[a] == attrs[a] && after[b] == attrs[b]);
            } else {
                assert(after[a] == attrs[a]);
            }
        }
    } else {
        let i = choose|i: int| 0 <= i < attrs.len() && #[trigger] attrs[i].0 == name;
    }
}

/// The largest number that a segment can have.
pub const MAX_SEGMENT: u32 = 9999;

/// The number that the first `n` bytes of `s` spell in decimal digits.
pub open spec fn decimal(s: Seq<u8>, n: int) -> int
    decreases n,
{
    if n <= 0 {
        0
    } else {
        decimal(s, n - 1) * 10 + (s[n - 1] - 48)
    }
}

/// Whether `s` holds decimal digits only.
pub open spec fn all_digits(s: Seq<u8>) -> bool {
    forall|i: int| 0 <= i < s.len() ==> 48 <= #[trigger] s[i] <= 57
}

/// The number of the segment that `s` spells: `s` in decimal if it is made
/// of digits and is at most `MAX_SEGMENT`, else zero.
pub open spec fn segment_number(s: Seq<u8>) -> u32 {
    if s.len() > 0 && all_digits(s) && decimal(s, s.len() as int) <= MAX_SEGMENT {
        decimal(s, s.len() as int) as u32
    } else {
        0
    }
}

proof fn decimal_grows(s: Seq<u8>, n: int, m: int)
    requires
        0 <= n <= m <= s.len(),
        all_digits(s),
    ensures
        0 <= decimal(s, n) <= decimal(s, m),
    decreases m - n,
{
    decimal_positive(s, n);
    if n < m {
        decimal_grows(s, n, m - 1);
    }
}

proof fn decimal_positive(s: Seq<u8>, n: int)
    requires
        0 <= n <= s.len(),
        all_digits(s),
    ensures
        0 <= decimal(s, n),
    decreases n,
{
    if n > 0 {
        decimal_positive(s, n - 1);
    }
}

/// Reads the number of a segment from `data[from..to]`.
pub fn parse_segment_number(data: &[u8], from: usize, to: usize) -> (r: u32)
    requires
        from <= to <= data@.len(),
    ensures
        r == segment_number(data@.subrange(from as int, to as int)),
{
    let ghost s = data@.subrange(from as int, to as int);
    if from == to {
        return 0;
    }
    let mut value: u32 = 0;
    let mut i: usize = from;
    while i < to
        invariant
            from <= i <= to <= data@.len(),
            s == data@.subrange(from as int, to as int),
            value == decimal(s, i - from),
            value <= MAX_SEGMENT,
            forall|k: int| 0 <= k < i - from ==> 48 <= #[trigger] s[k] <= 57,
        decreases to - i,
    {
        let b: u8 = data[i];
        assert(s[i - from] == b);
        if b < 48 || b > 57 {
            return 0;
        }
        value = value * 10 + ((b - 48) as u32);
        assert(value == decimal(s, i - from + 1));
        if value > MAX_SEGMENT {
            proof {
                if all_digits(s) {
                    decimal_grows(s, i - from + 1, s.len() as int);
                }
            }
            return 0;
        }
        i += 1;
    }
    value
}

impl ContentTypeParser {
    /// A parser before the first byte.
    pub fn new() -> (p: ContentTypeParser)
        ensures
            p@ == ParserView::start(),
    {
        let p = ContentTypeParser {
            state: ContentState::Type,
            state_stack: Vec::new(),
            c_type: None,
            c_subtype: None,
            attr_name: None,
            attr_charset: None,
            attr_position: 0,
            value: String::new(),
            has_values: false,
            attributes: Vec::new(),
            continuations: Vec::new(),
            token_start: 0,
            token_end: 0,
            is_continuation: false,
            is_encoded_attribute: false,
            is_escaped: false,
            remove_crlf: false,
            is_token_start: true,
        };
        assert(p@.attributes =~= Seq::empty());
        assert(p@.continuations =~= Seq::empty());
        p
    }
}

/// Forgets the token.
pub fn reset_parser(parser: &mut ContentTypeParser)
    ensures
        final(parser)@ == old(parser)@.reset(),
{
    parser.token_start = 0;
    parser.is_token_start = true;
}

/// Takes the token, in lower case, as the type, the subtype or the name of a
/// parameter, whichever is being read. Tells whether there was a token.
pub fn add_attribute(parser: &mut ContentTypeParser, stream: &MessageStream) -> (r: bool)
    requires
        old(parser)@.token_within(stream.pos as int),
        stream.pos <= stream.data@.len(),
    ensures
        final(parser)@ == old(parser)@.add_attribute(stream.data@).0,
        r == old(parser)@.add_attribute(stream.data@).1,
{
    if parser.token_start > 0 {
        let attr = lower_text_of(stream.data, parser.token_start - 1, parser.token_end);
        match parser.state {
            ContentState::AttributeName => {
                parser.attr_name = Some(attr);
            },
            ContentState::Type => {
                parser.c_type = Some(attr);
            },
            ContentState::SubType => {
                parser.c_subtype = Some(attr);
            },
            _ => {},
        }
        reset_parser(parser);
        true
    } else {
        false
    }
}

/// Whether a pair of `attrs` is called `name`.
pub fn contains_name(attrs: &Vec<(String, String)>, name: &String) -> (r: bool)
    ensures
        r == has_name(pairs_view(attrs@), name@),
{
    let mut i: usize = 0;
    while i < attrs.len()
        invariant
            i <= attrs@.len(),
            forall|k: int| 0 <= k < i ==> pairs_view(attrs@)[k].0 != name@,
        decreases attrs@.len() - i,
    {
        if attrs[i].0 == *name {
            assert(pairs_view(attrs@)[i as int].0 == name@);
            return true;
        }
        i += 1;
    }
    false
}

/// Takes the token as a part of the prefix of an extended value: the first
/// is the character set, the second the language. A further one is text.
pub fn add_attribute_parameter(parser: &mut ContentTypeParser, stream: &MessageStream)
    requires
        old(parser)@.token_within(stream.pos as int),
        stream.pos <= stream.data@.len(),
    ensures
        final(parser)@ == old(parser)@.add_attribute_parameter(stream.data@),
{
    if parser.token_start > 0 {
        if parser.attr_charset.is_none() {
            parser.attr_charset = Some(
                crate::text::copy_range(stream.data, parser.token_start - 1, parser.token_end),
            );
        } else {
            let attr_part = text_of(stream.data, parser.token_start - 1, parser.token_end);
            let mut attr_name = match &parser.attr_name {
                Some(name) => name.clone(),
                None => String::from_str("unknown"),
            };
            attr_name.append("-language");
            if !contains_name(&parser.attributes, &attr_name) {
                proof {
                    pairs_view_push(parser.attributes@, (attr_name, attr_part));
                }
                parser.attributes.push((attr_name, attr_part));
            } else {
                parser.value.append("'");
                parser.value.append(attr_part.as_str());
                parser.has_values = true;
                proof {
                    reveal_strlit("'");
                    assert("'"@ =~= seq!['\'']);
                }
            }
        }
        reset_parser(parser);
    }
}

/// Sets the token aside as a piece of the value. In a quoted value and with
/// `to_cur_pos` the piece runs up to the byte before the last one read;
/// outside quotes a space follows the piece.
pub fn add_partial_value(parser: &mut ContentTypeParser, stream: &MessageStream, to_cur_pos: bool)
    requires
        old(parser)@.token_within(stream.pos as int),
        old(parser)@.token_start <= stream.pos,
        stream.pos <= stream.data@.len(),
    ensures
        final(parser)@ == old(parser)@.add_partial_value(
            stream.data@,
            stream.pos as int,
            to_cur_pos,
        ),
{
    if parser.token_start > 0 {
        let in_quote = parser.state == ContentState::AttributeQuotedValue;
        let end: usize = if in_quote && to_cur_pos {
            stream.pos - 1
        } else {
            parser.token_end
        };
        let piece = text_of(stream.data, parser.token_start - 1, end);
        parser.value.append(piece.as_str());
        if !in_quote {
            parser.value.append(" ");
            proof {
                reveal_strlit(" ");
                assert(" "@ =~= seq![' ']);
            }
        }
        parser.has_values = true;
        reset_parser(parser);
    }
}

/// Takes the token as the number of a segment. Tells whether there was a
/// token.
pub fn add_attr_position(parser: &mut ContentTypeParser, stream: &MessageStream) -> (r: bool)
    requires
        old(parser)@.token_within(stream.pos as int),
        stream.pos <= stream.data@.len(),
    ensures
        final(parser)@ == old(parser)@.add_attr_position(stream.data@).0,
        r == old(parser)@.add_attr_position(stream.data@).1,
{
    if parser.token_start > 0 {
        parser.attr_position = parse_segment_number(
            stream.data,
            parser.token_start - 1,
            parser.token_end,
        );
        reset_parser(parser);
        true
    } else {
        false
    }
}

/// The first `n` bytes of `s` without carriage returns and line feeds.
pub open spec fn unfolded(s: Seq<u8>, n: int) -> Seq<u8>
    decreases n,
{
    if n <= 0 {
        Seq::empty()
    } else if s[n - 1] == CR || s[n - 1] == LF {
        unfolded(s, n - 1)
    } else {
        unfolded(s, n - 1).push(s[n - 1])
    }
}

/// The text of a percent-encoded value in the character set that its prefix
/// named, or in UTF-8 if it named none that is known. A value with a
/// malformed escape is kept as it stands.
pub open spec fn extended_text(charset: Option<Seq<u8>>, value: Seq<char>) -> Seq<char> {
    match percent_decoded(encode_utf8(value)) {
        Some(bytes) => match charset {
            Some(name) => text_in(name, bytes),
            None => utf8_lossy(bytes),
        },
        None => value,
    }
}

impl ParserView {
    /// The text of the token as a value: inside a quoted value that ran over
    /// a line break, without the line breaks.
    pub open spec fn token_text(self, data: Seq<u8>) -> Seq<char> {
        if self.remove_crlf {
            utf8_lossy(unfolded(self.token(data), self.token(data).len() as int))
        } else {
            utf8_lossy(self.token(data))
        }
    }

    /// Ends the value of the parameter that is being read: the pieces set
    /// aside and the token make the value. A plain parameter is added to the
    /// parameters; so is the segment of a continuation that bears no number or
    /// the number zero, after percent-decoding if it asks for it; a numbered
    /// segment is kept for merging. A parameter whose name is there already
    /// is left out, so that names stay distinct. Without a name, or without
    /// any value, nothing happens.
    pub open spec fn add_value(self, data: Seq<u8>) -> ParserView {
        if self.attr_name is None || (self.token_start == 0 && !self.has_values) {
            self
        } else {
            let has_token = self.token_start > 0;
            let whole = if has_token {
                if self.has_values {
                    self.value + self.token_text(data)
                } else {
                    self.token_text(data)
                }
            } else {
                self.value
            };
            let name = self.attr_name->0;
            let kept = ParserView {
                attr_name: None,
                remove_crlf: if has_token {
                    false
                } else {
                    self.remove_crlf
                },
                value: if self.has_values {
                    Seq::empty()
                } else {
                    self.value
                },
                has_values: false,
                ..self
            }.reset();
            if !self.is_continuation {
                ParserView { attributes: with_parameter(self.attributes, name, whole), ..kept }
            } else {
                let text = if self.is_encoded_attribute {
                    extended_text(self.attr_charset, whole)
                } else {
                    whole
                };
                let closed = ParserView {
                    is_encoded_attribute: false,
                    is_continuation: false,
                    attr_charset: None,
                    ..kept
                };
                if self.attr_position > 0 {
                    ParserView {
                        continuations: self.continuations.push(
                            ContinuationView { name, position: self.attr_position, value: text },
                        ),
                        attr_position: 0,
                        ..closed
                    }
                } else {
                    ParserView { attributes: with_parameter(self.attributes, name, text), ..closed }
                }
            }
        }
    }
}

/// A copy of `data[from..to]` without carriage returns and line feeds.
pub fn without_line_breaks(data: &[u8], from: usize, to: usize) -> (r: Vec<u8>)
    requires
        from <= to <= data@.len(),
    ensures
        r@ == unfolded(data@.subrange(from as int, to as int), to - from),
{
    let ghost s = data@.subrange(from as int, to as int);
    let mut out: Vec<u8> = Vec::new();
    let mut i: usize = from;
    while i < to
        invariant
            from <= i <= to <= data@.len(),
            s == data@.subrange(from as int, to as int),
            out@ == unfolded(s, i - from),
        decreases to - i,
    {
        let b: u8 = data[i];
        assert(s[i - from] == b);
        if b != CR && b != LF {
            out.push(b);
        }
        i += 1;
    }
    out
}

/// Decodes a percent-encoded value.
pub fn decode_extended(charset: &Option<Vec<u8>>, value: String) -> (r: String)
    ensures
        r@ == extended_text(
            match charset {
                Some(c) => Some(c@),
                None => None,
            },
            value@,
        ),
{
    let (ok, bytes) = decode_hex(value.as_str().as_bytes());
    if ok {
        match charset {
            Some(name) => decode_text_in(name.as_slice(), bytes.as_slice()),
            None => lossy_string(bytes.as_slice()),
        }
    } else {
        value
    }
}

/// Adds a parameter, unless one of that name is there already.
pub fn push_parameter(attrs: &mut Vec<(String, String)>, name: String, value: String)
    ensures
        pairs_view(final(attrs)@) == with_parameter(pairs_view(old(attrs)@), name@, value@),
{
    if !contains_name(attrs, &name) {
        proof {
            pairs_view_push(attrs@, (name, value));
        }
        attrs.push((name, value));
    }
}

/// Ending a value leaves the names of the parameters distinct.
pub proof fn add_value_keeps_names_distinct(p: ParserView, data: Seq<u8>)
    requires
        distinct_names(p.attributes),
    ensures
        distinct_names(p.add_value(data).attributes),
        p.add_value(data).attributes.len() >= p.attributes.len(),
{
    if !(p.attr_name is None || (p.token_start == 0 && !p.has_values)) {
        let q = p.add_value(data);
        let name = p.attr_name->0;
        if !p.is_continuation || p.attr_position == 0 {
            let value = choose|value: Seq<char>|
                q.attributes == with_parameter(p.attributes, name, value);
            with_parameter_keeps_names_distinct(p.attributes, name, value);
        }
    }
}

/// Reading a part of the prefix of an extended value leaves the names of the
/// parameters distinct.
pub proof fn add_attribute_parameter_keeps_names_distinct(p: ParserView, data: Seq<u8>)
    requires
        distinct_names(p.attributes),
    ensures
        distinct_names(p.add_attribute_parameter(data).attributes),
        p.add_attribute_parameter(data).attributes.len() >= p.attributes.len(),
{
    let q = p.add_attribute_parameter(data);
    if q.attributes != p.attributes {
        with_parameter_keeps_names_distinct(
            p.attributes,
            p.language_name(),
            utf8_lossy(p.token(data)),
        );
        assert(q.attributes == with_parameter(
            p.attributes,
            p.language_name(),
            utf8_lossy(p.token(data)),
        ));
    }
}

/// Ends the value of the parameter that is being read.
pub fn add_value(parser: &mut ContentTypeParser, stream: &MessageStream)
    requires
        old(parser)@.token_within(stream.pos as int),
        stream.pos <= stream.data@.len(),
    ensures
        final(parser)@ == old(parser)@.add_value(stream.data@),
{
    let name = match &parser.attr_name {
        Some(name) => name.clone(),
        None => {
            return ;
        },
    };
    let has_values = parser.has_values;
    let has_token = parser.token_start > 0;
    if !has_token && !has_values {
        return ;
    }
    let whole = if has_token {
        let token = if !parser.remove_crlf {
            text_of(stream.data, parser.token_start - 1, parser.token_end)
        } else {
            parser.remove_crlf = false;
            let bytes = without_line_breaks(stream.data, parser.token_start - 1, parser.token_end);
            lossy_string(bytes.as_slice())
        };
        if has_values {
            let mut joined = parser.value.clone();
            joined.append(token.as_str());
            joined
        } else {
            token
        }
    } else {
        parser.value.clone()
    };
    parser.attr_name = None;
    if !parser.is_continuation {
        push_parameter(&mut parser.attributes, name, whole);
    } else {
        let text = if parser.is_encoded_attribute {
            decode_extended(&parser.attr_charset, whole)
        } else {
            whole
        };
        parser.is_encoded_attribute = false;
        if parser.attr_position > 0 {
            let segment = Continuation { name, position: parser.attr_position, value: text };
            proof {
                continuations_view_push(parser.continuations@, segment);
            }
            parser.continuations.push(segment);
            parser.attr_position = 0;
        } else {
            push_parameter(&mut parser.attributes, name, text);
        }
        parser.is_continuation = false;
        parser.attr_charset = None;
    }
    if has_values {
        parser.value = String::new();
        parser.has_values = false;
    }
    reset_parser(parser);
}

} // verus!
