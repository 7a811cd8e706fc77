//! A parser for Internet messages (RFC 5322) with MIME structure
//! (RFC 2045 - 2049), written in Verus.
//!
//! The entry point is [`parsers::message`]: `Message::parse` turns a byte
//! buffer into a flat list of parts together with the indices of the parts
//! that make up the text body, the HTML body and the attachments.

use vstd::prelude::*;

pub mod decoders;
pub mod parsers;
pub mod text;

verus! {

/// Index of a part in [`Message::parts`].
pub type MessagePartId = usize;

/// The content transfer encoding that a part declared and that was applied.
#[derive(Clone, Copy, Debug, PartialEq, Eq, Structural)]
pub enum Encoding {
    /// No transformation: the body is taken as it stands.
    Identity,
    QuotedPrintable,
    Base64,
}

/// A parsed `Content-Type` or `Content-Disposition` value.
#[derive(Clone, Debug, PartialEq, Eq)]
pub struct ContentType {
    /// The type, in lower case.
    pub c_type: String,
    /// The subtype, in lower case.
    pub c_subtype: Option<String>,
    /// The parameters in the order in which they were found; names are in
    /// lower case.
    pub attributes: Option<Vec<(String, String)>>,
}

/// The mathematical value of a [`ContentType`].
pub struct ContentTypeView {
    pub c_type: Seq<char>,
    pub c_subtype: Option<Seq<char>>,
    pub attributes: Option<Seq<(Seq<char>, Seq<char>)>>,
}

/// The views of a list of name and value pairs.
pub open spec fn pairs_view(v: Seq<(String, String)>) -> Seq<(Seq<char>, Seq<char>)> {
    Seq::new(v.len(), |i: int| (v[i].0@, v[i].1@))
}

/// The views of a list of strings.
pub open spec fn strings_view(v: Seq<String>) -> Seq<Seq<char>> {
    Seq::new(v.len(), |i: int| v[i]@)
}

impl View for ContentType {
    type V = ContentTypeView;

    open spec fn view(&self) -> ContentTypeView {
        ContentTypeView {
            c_type: self.c_type@,
            c_subtype: match self.c_subtype {
                Some(s) => Some(s@),
                None => None,
            },
            attributes: match self.attributes {
                Some(a) => Some(pairs_view(a@)),
                None => None,
            },
        }
    }
}

/// The value of the first pair of `attrs` named `name`.
pub open spec fn lookup(attrs: Seq<(Seq<char>, Seq<char>)>, name: Seq<char>) -> Option<Seq<char>>
    decreases attrs.len(),
{
    if attrs.len() == 0 {
        None
    } else if attrs[0].0 == name {
        Some(attrs[0].1)
    } else {
        lookup(attrs.drop_first(), name)
    }
}

impl ContentTypeView {
    /// The value of the first parameter called `name`.
    pub open spec fn attribute(&self, name: Seq<char>) -> Option<Seq<char>> {
        match self.attributes {
            Some(a) => lookup(a, name),
            None => None,
        }
    }
}

impl ContentType {
    /// The type, in lower case.
    pub fn get_type(&self) -> (r: &str)
        ensures
            r@ == self@.c_type,
    {
        self.c_type.as_str()
    }

    /// The subtype, in lower case.
    pub fn get_subtype(&self) -> (r: Option<&str>)
        ensures
            r is Some == self@.c_subtype is Some,
            r is Some ==> r->0@ == self@.c_subtype->0,
    {
        match &self.c_subtype {
            Some(s) => Some(s.as_str()),
            None => None,
        }
    }

    /// The value of the first parameter called `name`.
    pub fn get_attribute(&self, name: &str) -> (r: Option<&str>)
        ensures
            r is Some == self@.attribute(name@) is Some,
            r is Some ==> r->0@ == self@.attribute(name@)->0,
    {
        match &self.attributes {
            Some(attrs) => {
                let mut i: usize = 0;
                assert(pairs_view(attrs@).skip(0) =~= pairs_view(attrs@));
                while i < attrs.len()
                    invariant
                        i <= attrs.len(),
                        self@.attributes == Some(pairs_view(attrs@)),
                        lookup(pairs_view(attrs@), name@) == lookup(
                            pairs_view(attrs@).skip(i as int),
                            name@,
                        ),
                    decreases attrs.len() - i,
                {
                    let ghost rest = pairs_view(attrs@).skip(i as int);
                    assert(rest.drop_first() =~= pairs_view(attrs@).skip(i + 1));
                    assert(rest[0] == pairs_view(attrs@)[i as int]);
                    if crate::text::str_eq(attrs[i].0.as_str(), name) {
                        return Some(attrs[i].1.as_str());
                    }
                    i += 1;
                }
                None
            },
            None => None,
        }
    }

    /// Whether a parameter called `name` is present.
    pub fn has_attribute(&self, name: &str) -> (r: bool)
        ensures
            r == self@.attribute(name@) is Some,
    {
        self.get_attribute(name).is_some()
    }

    /// Whether this disposition is `attachment`.
    pub fn is_attachment(&self) -> (r: bool)
        ensures
            r == (self@.c_type == "attachment"@),
    {
        crate::text::str_eq(self.c_type.as_str(), "attachment")
    }

    /// Whether this disposition is `inline`.
    pub fn is_inline(&self) -> (r: bool)
        ensures
            r == (self@.c_type == "inline"@),
    {
        crate::text::str_eq(self.c_type.as_str(), "inline")
    }
}

/// The name of a header field.
#[derive(Clone, Debug, PartialEq, Eq)]
pub enum HeaderName {
    ContentType,
    ContentDisposition,
    ContentTransferEncoding,
    Keywords,
    /// Any other field, by its name in lower case.
    Other(String),
}

/// The mathematical value of a [`HeaderName`].
pub enum HeaderNameView {
    ContentType,
    ContentDisposition,
    ContentTransferEncoding,
    Keywords,
    Other(Seq<char>),
}

impl View for HeaderName {
    type V = HeaderNameView;

    open spec fn view(&self) -> HeaderNameView {
        match self {
            HeaderName::ContentType => HeaderNameView::ContentType,
            HeaderName::ContentDisposition => HeaderNameView::ContentDisposition,
            HeaderName::ContentTransferEncoding => HeaderNameView::ContentTransferEncoding,
            HeaderName::Keywords => HeaderNameView::Keywords,
            HeaderName::Other(name) => HeaderNameView::Other(name@),
        }
    }
}

/// The parsed value of a header field.
#[derive(Clone, Debug, PartialEq, Eq)]
pub enum HeaderValue {
    /// A single piece of text.
    Text(String),
    /// A list of texts.
    TextList(Vec<String>),
    /// A content type or a content disposition.
    ContentType(ContentType),
    /// The field had no value.
    Empty,
}

/// The mathematical value of a [`HeaderValue`].
pub enum HeaderValueView {
    Text(Seq<char>),
    TextList(Seq<Seq<char>>),
    ContentType(ContentTypeView),
    Empty,
}

impl View for HeaderValue {
    type V = HeaderValueView;

    open spec fn view(&self) -> HeaderValueView {
        match self {
            HeaderValue::Text(s) => HeaderValueView::Text(s@),
            HeaderValue::TextList(l) => HeaderValueView::TextList(strings_view(l@)),
            HeaderValue::ContentType(c) => HeaderValueView::ContentType(c@),
            HeaderValue::Empty => HeaderValueView::Empty,
        }
    }
}

impl HeaderValue {
    /// The content type held by this value, if it is one.
    pub fn as_content_type_ref(&self) -> (r: Option<&ContentType>)
        ensures
            r == (match self {
                HeaderValue::ContentType(c) => Some(c),
                _ => None,
            }),
    {
        match self {
            HeaderValue::ContentType(c) => Some(c),
            _ => None,
        }
    }
}

/// A header field: its name and its parsed value.
#[derive(Clone, Debug, PartialEq, Eq)]
pub struct Header {
    pub name: HeaderName,
    pub value: HeaderValue,
}

/// The mathematical value of a [`Header`].
pub struct HeaderView {
    pub name: HeaderNameView,
    pub value: HeaderValueView,
}

impl View for Header {
    type V = HeaderView;

    open spec fn view(&self) -> HeaderView {
        HeaderView { name: self.name@, value: self.value@ }
    }
}

/// The views of a list of header fields.
pub open spec fn headers_view(v: Seq<Header>) -> Seq<HeaderView> {
    Seq::new(v.len(), |i: int| v[i]@)
}

/// The content of a part that holds a message.
#[derive(Debug, PartialEq, Eq)]
pub enum MessageAttachment {
    /// The message, parsed.
    Parsed(Box<Message>),
    /// The bytes of a message that was not parsed.
    Raw(Vec<u8>),
}

/// The body of a part.
#[derive(Debug, PartialEq, Eq)]
pub enum PartType {
    /// Plain text, decoded.
    Text(String),
    /// HTML, decoded.
    Html(String),
    /// An attachment.
    Binary(Vec<u8>),
    /// An attachment that is shown with the text, such as an image.
    InlineBinary(Vec<u8>),
    /// A message of its own.
    Message(MessageAttachment),
    /// The parts that this part is made of.
    Multipart(Vec<MessagePartId>),
}

/// One MIME entity: its header fields and its body.
#[derive(Debug, PartialEq, Eq)]
pub struct MessagePart {
    /// The header fields in their order, repeated ones included.
    pub headers: Vec<Header>,
    /// The body could not be decoded as its transfer encoding asks, and was
    /// taken in another way.
    pub is_encoding_problem: bool,
    pub body: PartType,
    /// The transfer encoding that was applied.
    pub encoding: Encoding,
    /// Where the header fields start in the raw message.
    pub offset_header: usize,
    /// Where the body starts.
    pub offset_body: usize,
    /// Where the body ends.
    pub offset_end: usize,
}

/// A parsed message.
#[derive(Debug, PartialEq, Eq)]
pub struct Message {
    /// The parts that make up the HTML body.
    pub html_body: Vec<MessagePartId>,
    /// The parts that make up the text body.
    pub text_body: Vec<MessagePartId>,
    /// The parts that are attachments.
    pub attachments: Vec<MessagePartId>,
    /// All parts; the first is the root.
    pub parts: Vec<MessagePart>,
    /// The bytes that were parsed.
    pub raw_message: Vec<u8>,
}

/// The mathematical value of a [`MessageAttachment`].
pub enum AttachmentView {
    Parsed(MessageView),
    Raw(Seq<u8>),
}

/// The mathematical value of a [`PartType`].
pub enum BodyView {
    Text(Seq<char>),
    Html(Seq<char>),
    Binary(Seq<u8>),
    InlineBinary(Seq<u8>),
    Message(AttachmentView),
    Multipart(Seq<MessagePartId>),
}

/// The mathematical value of a [`MessagePart`].
pub struct PartView {
    pub headers: Seq<HeaderView>,
    pub is_encoding_problem: bool,
    pub body: BodyView,
    pub encoding: Encoding,
    pub offset_header: usize,
    pub offset_body: usize,
    pub offset_end: usize,
}

/// The mathematical value of a [`Message`].
pub struct MessageView {
    pub html_body: Seq<MessagePartId>,
    pub text_body: Seq<MessagePartId>,
    pub attachments: Seq<MessagePartId>,
    pub parts: Seq<PartView>,
    pub raw_message: Seq<u8>,
}

/// The value of a message.
pub open spec fn message_view(m: Message) -> MessageView
    decreases m,
{
    MessageView {
        html_body: m.html_body@,
        text_body: m.text_body@,
        attachments: m.attachments@,
        parts: parts_view(m.parts@),
        raw_message: m.raw_message@,
    }
}

/// The values of a list of parts.
pub open spec fn parts_view(parts: Seq<MessagePart>) -> Seq<PartView>
    decreases parts,
{
    if parts.len() == 0 {
        Seq::empty()
    } else {
        parts_view(parts.drop_last()).push(part_view(parts.last()))
    }
}

/// The value of the body of a part.
pub open spec fn body_view(body: PartType) -> BodyView
    decreases body,
{
    match body {
        PartType::Text(text) => BodyView::Text(text@),
        PartType::Html(text) => BodyView::Html(text@),
        PartType::Binary(bytes) => BodyView::Binary(bytes@),
        PartType::InlineBinary(bytes) => BodyView::InlineBinary(bytes@),
        PartType::Message(MessageAttachment::Parsed(nested)) => BodyView::Message(
            AttachmentView::Parsed(message_view(*nested)),
        ),
        PartType::Message(MessageAttachment::Raw(bytes)) => BodyView::Message(
            AttachmentView::Raw(bytes@),
        ),
        PartType::Multipart(children) => BodyView::Multipart(children@),
    }
}

/// The value of a part.
pub open spec fn part_view(part: MessagePart) -> PartView
    decreases part,
{
    PartView {
        headers: headers_view(part.headers@),
        is_encoding_problem: part.is_encoding_problem,
        body: body_view(part.body),
        encoding: part.encoding,
        offset_header: part.offset_header,
        offset_body: part.offset_body,
        offset_end: part.offset_end,
    }
}

impl View for MessagePart {
    type V = PartView;

    open spec fn view(&self) -> PartView {
        part_view(*self)
    }
}

impl View for Message {
    type V = MessageView;

    open spec fn view(&self) -> MessageView {
        message_view(*self)
    }
}

impl MessageView {
    /// A message without parts.
    pub open spec fn empty() -> MessageView {
        MessageView {
            html_body: Seq::empty(),
            text_body: Seq::empty(),
            attachments: Seq::empty(),
            parts: Seq::empty(),
            raw_message: Seq::empty(),
        }
    }

    /// The message with one more part, whose number joins the lists asked
    /// for.
    pub open spec fn with_part(
        self,
        part: PartView,
        to_html: bool,
        to_text: bool,
        to_attachments: bool,
    ) -> MessageView {
        let id = self.parts.len() as usize;
        MessageView {
            html_body: if to_html {
                self.html_body.push(id)
            } else {
                self.html_body
            },
            text_body: if to_text {
                self.text_body.push(id)
            } else {
                self.text_body
            },
            attachments: if to_attachments {
                self.attachments.push(id)
            } else {
                self.attachments
            },
            parts: self.parts.push(part),
            raw_message: self.raw_message,
        }
    }

    /// The message with the body and the end of the part `id` replaced.
    pub open spec fn with_body(self, id: int, body: BodyView, offset_end: usize) -> MessageView {
        MessageView {
            parts: self.parts.update(id, PartView { body, offset_end, ..self.parts[id] }),
            ..self
        }
    }

    /// The message after a `multipart/alternative` has ended, where the
    /// bodies were `html_parts` and `text_parts` long when it began. If it
    /// brought HTML only, the HTML parts that it brought stand in for the
    /// text. If it brought text only, the text parts stand in for the HTML,
    /// from the index `html_parts` on.
    pub open spec fn mirrored(self, html_parts: int, text_parts: int) -> MessageView {
        MessageView {
            text_body: if text_parts == self.text_body.len() && html_parts
                != self.html_body.len() && 0 <= html_parts <= self.html_body.len() {
                self.text_body + self.html_body.skip(html_parts)
            } else {
                self.text_body
            },
            html_body: if html_parts == self.html_body.len() && text_parts
                != self.text_body.len() && 0 <= html_parts <= self.text_body.len() {
                self.html_body + self.text_body.skip(html_parts)
            } else {
                self.html_body
            },
            ..self
        }
    }
}

/// The values of a list of parts to which a part was added.
pub proof fn parts_view_push(parts: Seq<MessagePart>, part: MessagePart)
    ensures
        parts_view(parts.push(part)) == parts_view(parts).push(part_view(part)),
{
    assert(parts.push(part).drop_last() =~= parts);
}

/// The values of a list of parts are as many as the parts, and each is the
/// value of its part.
pub proof fn parts_view_index(parts: Seq<MessagePart>)
    ensures
        parts_view(parts).len() == parts.len(),
        forall|i: int| 0 <= i < parts.len() ==> #[trigger] parts_view(parts)[i] == part_view(parts[i]),
    decreases parts.len(),
{
    if parts.len() > 0 {
        parts_view_index(parts.drop_last());
        assert forall|i: int| 0 <= i < parts.len() implies #[trigger] parts_view(parts)[i]
            == part_view(parts[i]) by {
            if i < parts.len() - 1 {
                assert(parts.drop_last()[i] == parts[i]);
            }
        }
    }
}

/// The values of a list of parts of which one was replaced.
pub proof fn parts_view_update(parts: Seq<MessagePart>, i: int, part: MessagePart)
    requires
        0 <= i < parts.len(),
    ensures
        parts_view(parts.update(i, part)) == parts_view(parts).update(i, part_view(part)),
{
    parts_view_index(parts);
    parts_view_index(parts.update(i, part));
    assert(parts_view(parts.update(i, part)) =~= parts_view(parts).update(i, part_view(part)));
}

/// Whether every number of `ids` is less than `bound`.
pub open spec fn all_below(ids: Seq<MessagePartId>, bound: int) -> bool {
    forall|i: int| 0 <= i < ids.len() ==> #[trigger] ids[i] < bound
}

impl MessagePart {
    /// Whether the offsets are in order and within a raw message of `len`
    /// bytes.
    pub open spec fn offsets_ordered(&self, len: int) -> bool {
        self.offset_header <= self.offset_body <= self.offset_end <= len
    }

    /// Whether this part has parts of its own.
    pub open spec fn is_multipart(&self) -> bool {
        self.body is Multipart
    }
}

impl Message {
    /// Whether the part `id` is in one of the three lists.
    pub open spec fn listed(&self, id: MessagePartId) -> bool {
        self.text_body@.contains(id) || self.html_body@.contains(id) || self.attachments@.contains(
            id,
        )
    }

    /// Whether this message is sound as the result of parsing the raw
    /// message `raw`:
    /// every part that the lists or a multipart name exists;
    /// the offsets of every part are in order and within the raw message;
    /// a part is in one of the lists if and only if it is no multipart, and a
    /// part that holds a message is among the attachments;
    /// the body of a part to which no transfer encoding was applied is what
    /// stands in the raw message between its offsets;
    /// and the same holds of every message within.
    #[verifier::opaque]
    pub open spec fn wf(&self, raw: Seq<u8>) -> bool
        decreases self,
    {
        &&& all_below(self.text_body@, self.parts@.len() as int)
        &&& all_below(self.html_body@, self.parts@.len() as int)
        &&& all_below(self.attachments@, self.parts@.len() as int)
        &&& forall|i: int|
            0 <= i < self.parts@.len() ==> {
                &&& (#[trigger] self.parts[i]).offsets_ordered(raw.len() as int)
                &&& self.listed(i as usize) == !self.parts[i].is_multipart()
                &&& crate::parsers::part::part_is_slice(self.parts[i], raw)
                &&& match self.parts[i].body {
                    PartType::Multipart(children) => all_below(children@, self.parts@.len() as int),
                    PartType::Message(MessageAttachment::Parsed(nested)) => {
                        &&& self.attachments@.contains(i as usize)
                        &&& nested.wf(raw)
                    },
                    PartType::Message(MessageAttachment::Raw(_)) => self.attachments@.contains(
                        i as usize,
                    ),
                    _ => true,
                }
            }
    }

    /// What soundness says of a message, part by part: the lists and the
    /// multiparts name parts that exist; the offsets of every part are in
    /// order and within the raw message; a part is in one of the lists if
    /// and only if it is no multipart; a part that holds a message is among
    /// the attachments, and a message that was parsed within is sound too;
    /// and the body of a part to which no transfer encoding was applied is
    /// what stands in the raw message between its offsets.
    pub proof fn sound_parts(self, raw: Seq<u8>)
        requires
            self.wf(raw),
        ensures
            all_below(self.text_body@, self.parts@.len() as int),
            all_below(self.html_body@, self.parts@.len() as int),
            all_below(self.attachments@, self.parts@.len() as int),
            forall|i: int|
                0 <= i < self.parts@.len() ==> {
                    &&& (#[trigger] self.parts[i]).offset_header <= self.parts[i].offset_body
                    &&& self.parts[i].offset_body <= self.parts[i].offset_end
                    &&& self.parts[i].offset_end <= raw.len()
                    &&& self.listed(i as usize) == !(self.parts[i].body is Multipart)
                    &&& self.parts[i].body is Message ==> self.attachments@.contains(i as usize)
                    &&& crate::parsers::part::part_is_slice(self.parts[i], raw)
                    &&& match self.parts[i].body {
                        PartType::Multipart(children) => all_below(
                            children@,
                            self.parts@.len() as int,
                        ),
                        PartType::Message(MessageAttachment::Parsed(nested)) => nested.wf(raw),
                        _ => true,
                    }
                },
    {
        reveal_with_fuel(Message::wf, 2);
        assert forall|i: int| 0 <= i < self.parts@.len() implies {
            &&& (#[trigger] self.parts[i]).offset_header <= self.parts[i].offset_body
            &&& self.parts[i].offset_body <= self.parts[i].offset_end
            &&& self.parts[i].offset_end <= raw.len()
            &&& self.listed(i as usize) == !(self.parts[i].body is Multipart)
            &&& self.parts[i].body is Message ==> self.attachments@.contains(i as usize)
            &&& crate::parsers::part::part_is_slice(self.parts[i], raw)
            &&& match self.parts[i].body {
                PartType::Multipart(children) => all_below(children@, self.parts@.len() as int),
                PartType::Message(MessageAttachment::Parsed(nested)) => nested.wf(raw),
                _ => true,
            }
        } by {
            assert(self.parts[i].offsets_ordered(raw.len() as int));
        }
    }

    /// A message without parts.
    pub fn new() -> (m: Message)
        ensures
            m.parts@.len() == 0,
            m.html_body@.len() == 0,
            m.text_body@.len() == 0,
            m.attachments@.len() == 0,
            m.raw_message@.len() == 0,
            forall|raw: Seq<u8>| m.wf(raw),
            m@ == MessageView::empty(),
    {
        let m = Message {
            html_body: Vec::new(),
            text_body: Vec::new(),
            attachments: Vec::new(),
            parts: Vec::new(),
            raw_message: Vec::new(),
        };
        assert forall|raw: Seq<u8>| m.wf(raw) by {
            reveal_with_fuel(Message::wf, 1);
        }
        assert(m@.parts =~= Seq::empty());
        assert(m@.html_body =~= Seq::empty());
        assert(m@.text_body =~= Seq::empty());
        assert(m@.attachments =~= Seq::empty());
        assert(m@.raw_message =~= Seq::empty());
        m
    }

    /// Whether no part was parsed.
    pub fn is_empty(&self) -> (r: bool)
        ensures
            r == (self.parts@.len() == 0),
    {
        self.parts.len() == 0
    }
}

} // verus!
