//! The state of a level of the walk, and how a level is ended.

use crate::all_below;
use crate::parsers::part::MimeType;
use crate::parsers::tree::close_multipart;
use crate::parsers::walk;
use crate::parsers::walk::StateView;
use crate::Message;
use crate::MessagePart;
use crate::MessagePartId;
use vstd::prelude::*;

verus! {

/// What the walker knows of the level that it is reading: of a multipart, of
/// a message within the message, or of the message itself.
pub struct MessageParserState {
    /// The kind of the part whose parts are being read; `Message` for the
    /// message itself and for a message within.
    pub mime_type: MimeType,
    /// The line that ends each part of this level.
    pub mime_boundary: Option<Vec<u8>>,
    /// Whether this level is inside a `multipart/alternative`.
    pub in_alternative: bool,
    /// How many parts of this level were read.
    pub parts: usize,
    /// How long the HTML body was when this level began.
    pub html_parts: usize,
    /// How long the text body was when this level began.
    pub text_parts: usize,
    pub need_html_body: bool,
    pub need_text_body: bool,
    /// The part whose parts are being read, if this level is a multipart.
    pub part_id: MessagePartId,
    /// The parts of this level.
    pub sub_part_ids: Vec<MessagePartId>,
    pub offset_header: usize,
    pub offset_body: usize,
    pub offset_end: usize,
}

impl View for MessageParserState {
    type V = StateView;

    open spec fn view(&self) -> StateView {
        StateView {
            mime_type: self.mime_type,
            mime_boundary: match self.mime_boundary {
                Some(line) => Some(line@),
                None => None,
            },
            in_alternative: self.in_alternative,
            parts: self.parts,
            html_parts: self.html_parts,
            text_parts: self.text_parts,
            need_html_body: self.need_html_body,
            need_text_body: self.need_text_body,
            part_id: self.part_id,
            sub_part_ids: self.sub_part_ids@,
            offset_header: self.offset_header,
            offset_body: self.offset_body,
            offset_end: self.offset_end,
        }
    }
}

impl MessageParserState {
    /// The state at the start of a message.
    pub fn new() -> (s: MessageParserState)
        ensures
            s@ == StateView::start(),
            s.mime_type == MimeType::Message,
            s.mime_boundary is None,
            !s.in_alternative,
            s.parts == 0,
            s.need_html_body,
            s.need_text_body,
            s.sub_part_ids@.len() == 0,
    {
        MessageParserState {
            mime_type: MimeType::Message,
            mime_boundary: None,
            in_alternative: false,
            parts: 0,
            html_parts: 0,
            text_parts: 0,
            need_html_body: true,
            need_text_body: true,
            part_id: 0,
            sub_part_ids: Vec::new(),
            offset_header: 0,
            offset_body: 0,
            offset_end: 0,
        }
    }

    /// The part whose parts this level reads, if it is a multipart.
    pub open spec fn own(&self) -> Option<int> {
        if self.mime_type != MimeType::Message {
            Some(self.part_id as int)
        } else {
            None
        }
    }

    /// Whether this level belongs to `message` while the stream stands at
    /// `pos`: its parts exist, and so does its multipart, whose body began
    /// before `pos`.
    pub open spec fn fits(&self, message: Message, pos: int) -> bool {
        &&& all_below(self.sub_part_ids@, message.parts@.len() as int)
        &&& self.mime_type != MimeType::Message ==> {
            &&& self.part_id < message.parts@.len()
            &&& message.parts[self.part_id as int].is_multipart()
            &&& message.parts[self.part_id as int].offset_body <= pos
        }
    }
}

/// Whether two parts have the same header fields and begin at the same
/// offsets.
pub open spec fn same_head(a: MessagePart, b: MessagePart) -> bool {
    a.headers == b.headers && a.offset_header == b.offset_header && a.offset_body == b.offset_body
}

/// What the reading of a level leaves of the message as it was: parts are
/// added, and none that was there is changed but the multipart of the level,
/// which stays a multipart with the same header fields.
#[verifier::opaque]
pub open spec fn extends(before: Message, after: Message, own: Option<int>) -> bool {
    &&& after.parts@.len() >= before.parts@.len()
    &&& after.raw_message == before.raw_message
    &&& forall|i: int|
        0 <= i < before.parts@.len() ==> (#[trigger] after.parts[i] == before.parts[i] || (own
            == Some(i) && same_head(before.parts[i], after.parts[i])
            && after.parts[i].is_multipart()))
}

/// A message extends itself.
pub proof fn extends_itself(m: Message, own: Option<int>)
    ensures
        extends(m, m, own),
{
    reveal(extends);
}

/// What extends an extension of a message extends the message, where the
/// first step changed no part and the second none but `own`.
pub proof fn extends_twice(a: Message, b: Message, c: Message, own: Option<int>)
    requires
        extends(a, b, None),
        extends(b, c, own),
    ensures
        extends(a, c, own),
{
    reveal(extends);
    assert forall|i: int| 0 <= i < a.parts@.len() implies (#[trigger] c.parts[i] == a.parts[i]
        || (own == Some(i) && same_head(a.parts[i], c.parts[i]) && c.parts[i].is_multipart())) by {
        assert(b.parts[i] == a.parts[i]);
        assert(c.parts[i] == b.parts[i] || (own == Some(i) && same_head(b.parts[i], c.parts[i])
            && c.parts[i].is_multipart()));
    }
}

/// An extension that changes the part `own` alone, which was added after
/// `a`, changes no part of `a`.
pub proof fn extends_behind(a: Message, b: Message, c: Message, own: int)
    requires
        extends(a, b, None),
        extends(b, c, Some(own)),
        own >= a.parts@.len(),
    ensures
        extends(a, c, None),
{
    reveal(extends);
    assert forall|i: int| 0 <= i < a.parts@.len() implies #[trigger] c.parts[i] == a.parts[i] by {
        assert(b.parts[i] == a.parts[i]);
        assert(c.parts[i] == b.parts[i] || (Some(own) == Some(i) && same_head(
            b.parts[i],
            c.parts[i],
        ) && c.parts[i].is_multipart()));
    }
}

/// What an extension keeps of the part `i`.
pub proof fn extends_keeps(a: Message, b: Message, own: Option<int>, i: int)
    requires
        extends(a, b, own),
        0 <= i < a.parts@.len(),
    ensures
        b.parts@.len() >= a.parts@.len(),
        b.raw_message == a.raw_message,
        same_head(a.parts[i], b.parts[i]),
        own != Some(i) ==> b.parts[i] == a.parts[i],
        a.parts[i].is_multipart() ==> b.parts[i].is_multipart(),
{
    reveal(extends);
    assert(b.parts[i] == a.parts[i] || (own == Some(i) && same_head(a.parts[i], b.parts[i])
        && b.parts[i].is_multipart()));
}

/// An extension has the parts of the message at least.
pub proof fn extends_len(a: Message, b: Message, own: Option<int>)
    requires
        extends(a, b, own),
    ensures
        b.parts@.len() >= a.parts@.len(),
        b.raw_message == a.raw_message,
{
    reveal(extends);
}

/// A message to which parts were added, and of which nothing else was
/// changed, extends the message.
pub proof fn extends_by_adding(a: Message, b: Message)
    requires
        b.parts@.len() >= a.parts@.len(),
        b.raw_message == a.raw_message,
        forall|i: int| 0 <= i < a.parts@.len() ==> #[trigger] b.parts[i] == a.parts[i],
    ensures
        extends(a, b, None),
{
    reveal(extends);
}

/// Ends the level: if it is a multipart, the multipart gets its parts and
/// the offset at which it ends.
pub fn close_level(
    message: &mut Message,
    state: &mut MessageParserState,
    offset_end: usize,
    Ghost(raw): Ghost<Seq<u8>>,
)
    requires
        old(message).wf(raw),
        old(state).fits(*old(message), offset_end as int),
        offset_end <= raw.len(),
    ensures
        final(message).wf(raw),
        final(message).parts@.len() == old(message).parts@.len(),
        extends(*old(message), *final(message), old(state).own()),
        final(state).mime_type == old(state).mime_type,
        final(state).part_id == old(state).part_id,
        final(state).mime_boundary == old(state).mime_boundary,
        final(message).html_body == old(message).html_body,
        final(message).text_body == old(message).text_body,
        final(message).attachments == old(message).attachments,
        (final(message)@, final(state)@) == walk::close_level(
            old(message)@,
            old(state)@,
            offset_end,
        ),
{
    proof {
        reveal(extends);
    }
    match state.mime_type {
        MimeType::Message => {},
        _ => {
            let mut ids: Vec<MessagePartId> = Vec::new();
            core::mem::swap(&mut ids, &mut state.sub_part_ids);
            close_multipart(message, state.part_id, ids, offset_end, Ghost(raw));
        },
    }
}

} // verus!
