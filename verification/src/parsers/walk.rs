//! What the message walker computes, as a function of the raw message.

use crate::decoders::charsets::Charset;
use crate::decoders::DecodeResultView;
use crate::parsers::header::headers_at;
use crate::parsers::mime::first_match;
use crate::parsers::mime::line_break_end;
use crate::parsers::part::body_bytes;
use crate::parsers::part::body_text;
use crate::parsers::part::leaf_end;
use crate::parsers::part::leaf_read;
use crate::parsers::part::part_info_of;
use crate::parsers::part::route;
use crate::parsers::part::LeafReadView;
use crate::parsers::part::Level;
use crate::parsers::part::MimeType;
use crate::parsers::part::PartInfoView;
use crate::AttachmentView;
use crate::BodyView;
use crate::Encoding;
use crate::HeaderView;
use crate::MessagePartId;
use crate::MessageView;
use crate::PartView;
use vstd::prelude::*;

verus! {

/// How deep multiparts and messages may be nested. What lies deeper is read
/// as a leaf and marked as an encoding problem.
pub const MAX_NESTING: usize = 100;

/// How the reading of a level ended.
#[derive(Clone, Copy, Debug, PartialEq, Eq, Structural)]
pub enum LevelEnd {
    /// The multipart was closed by its last boundary.
    Closed,
    /// Nothing more can be read.
    Stop,
    /// A message within the message ended at the boundary of the multipart
    /// that holds it.
    Boundary,
}

/// The mathematical value of the state of a level.
pub struct StateView {
    pub mime_type: MimeType,
    pub mime_boundary: Option<Seq<u8>>,
    pub in_alternative: bool,
    pub parts: usize,
    pub html_parts: usize,
    pub text_parts: usize,
    pub need_html_body: bool,
    pub need_text_body: bool,
    pub part_id: MessagePartId,
    pub sub_part_ids: Seq<MessagePartId>,
    pub offset_header: usize,
    pub offset_body: usize,
    pub offset_end: usize,
}

impl StateView {
    /// The state at the start of a message.
    pub open spec fn start() -> StateView {
        StateView {
            mime_type: MimeType::Message,
            mime_boundary: None,
            in_alternative: false,
            parts: 0,
            html_parts: 0,
            text_parts: 0,
            need_html_body: true,
            need_text_body: true,
            part_id: 0,
            sub_part_ids: Seq::empty(),
            offset_header: 0,
            offset_body: 0,
            offset_end: 0,
        }
    }

    /// The length of the boundary of the level, if it has one.
    pub open spec fn boundary_len(self) -> Option<int> {
        match self.mime_boundary {
            Some(line) => Some(line.len() as int),
            None => None,
        }
    }

    /// The state of the level of a multipart of the kind `mime_type` that
    /// begins in this level, in the message `m`: the part `part_id`, whose
    /// parts `line` separates.
    pub open spec fn multipart(
        self,
        m: MessageView,
        mime_type: MimeType,
        line: Seq<u8>,
        part_id: MessagePartId,
    ) -> StateView {
        StateView {
            mime_type,
            mime_boundary: Some(line),
            in_alternative: self.in_alternative || mime_type == MimeType::MultipartAlternative,
            parts: 0,
            html_parts: m.html_body.len() as usize,
            text_parts: m.text_body.len() as usize,
            need_html_body: self.need_html_body,
            need_text_body: self.need_text_body,
            part_id,
            sub_part_ids: Seq::empty(),
            offset_header: 0,
            offset_body: 0,
            offset_end: 0,
        }
    }
}

/// Where the walker stands: the position in the raw message, the message as
/// far as it is built, and the state of the level.
pub struct Step {
    pub pos: int,
    pub message: MessageView,
    pub state: StateView,
}

/// Ends a level where the stream stands at `offset_end`: a multipart gets
/// its parts and its end.
pub open spec fn close_level(m: MessageView, s: StateView, offset_end: usize) -> (
    MessageView,
    StateView,
) {
    if s.mime_type != MimeType::Message {
        (
            m.with_body(s.part_id as int, BodyView::Multipart(s.sub_part_ids), offset_end),
            StateView { sub_part_ids: Seq::empty(), ..s },
        )
    } else {
        (m, s)
    }
}

/// The body of a leaf: a message that was not parsed, text or HTML in the
/// character set of the leaf, or bytes.
pub open spec fn leaf_body(
    bytes: DecodeResultView,
    data: Seq<u8>,
    charset: Option<Charset>,
    mime_type: MimeType,
    is_text: bool,
    is_inline: bool,
) -> BodyView {
    if mime_type == MimeType::Message {
        BodyView::Message(AttachmentView::Raw(body_bytes(bytes, data)))
    } else if is_text {
        if mime_type == MimeType::TextHtml {
            BodyView::Html(body_text(bytes, data, charset))
        } else {
            BodyView::Text(body_text(bytes, data, charset))
        }
    } else if is_inline {
        BodyView::InlineBinary(body_bytes(bytes, data))
    } else {
        BodyView::Binary(body_bytes(bytes, data))
    }
}

/// Adds the leaf whose body begins at `pos` and could not be read: an
/// empty attachment.
#[verifier::opaque]
pub open spec fn leaf_lost(
    pos: int,
    m: MessageView,
    s: StateView,
    headers: Seq<HeaderView>,
    encoding: Encoding,
    is_encoding_problem: bool,
) -> Step {
    let part = PartView {
        headers,
        encoding,
        is_encoding_problem,
        body: BodyView::Binary(Seq::empty()),
        offset_header: s.offset_header,
        offset_body: pos as usize,
        offset_end: pos as usize,
    };
    Step {
        pos,
        message: m.with_part(part, false, false, true),
        state: StateView {
            offset_body: pos as usize,
            sub_part_ids: s.sub_part_ids.push(m.parts.len() as usize),
            ..s
        },
    }
}

/// What is settled about a leaf once its body was read.
pub struct LeafPlan {
    /// The kind of the leaf: text of no known kind if the body was not read
    /// as its encoding asks.
    pub mime_type: MimeType,
    pub is_text: bool,
    /// The boundary of the level, which is given up if it was not found.
    pub boundary: Option<Seq<u8>>,
    /// Where the body ends.
    pub offset_end: int,
    pub routing: crate::parsers::part::Routing,
}

/// Settles the kind, the end and the filing of the leaf whose body begins at
/// `pos` and was read as `read` says.
///
/// A body that was not read as its encoding asks is text of no known kind.
/// The leaf ends before the line break in front of its boundary, and is
/// filed as [`route`] says; a message that was not parsed is an attachment.
#[verifier::opaque]
pub open spec fn leaf_plan(
    data: Seq<u8>,
    pos: int,
    s: StateView,
    info: PartInfoView,
    kind: MimeType,
    text: bool,
    read: LeafReadView,
) -> LeafPlan {
    let mime_type = if read.is_encoding_problem {
        MimeType::TextOther
    } else {
        kind
    };
    let is_text = read.is_encoding_problem || text;
    let can_be_inline = !read.is_encoding_problem && info.is_inline;
    let boundary = if read.unbounded {
        None
    } else {
        s.mime_boundary
    };
    LeafPlan {
        mime_type,
        is_text,
        boundary,
        offset_end: leaf_end(
            data,
            pos + read.consumed,
            match boundary {
                Some(line) => Some(line.len() as int),
                None => None,
            },
            pos,
        ),
        routing: if mime_type == MimeType::Message {
            route(
                Level {
                    mime_type: MimeType::Other,
                    in_alternative: false,
                    is_first: false,
                    need_html_body: s.need_html_body,
                    need_text_body: s.need_text_body,
                },
                MimeType::Other,
                false,
                false,
                true,
                true,
            )
        } else {
            route(
                Level {
                    mime_type: s.mime_type,
                    in_alternative: s.in_alternative,
                    is_first: s.parts == 1,
                    need_html_body: s.need_html_body,
                    need_text_body: s.need_text_body,
                },
                mime_type,
                is_text,
                can_be_inline,
                info.is_attachment,
                info.has_name,
            )
        },
    }
}

/// The leaf whose body begins at `pos` and was read as `read` says.
pub open spec fn leaf_part(
    data: Seq<u8>,
    pos: int,
    offset_header: usize,
    headers: Seq<HeaderView>,
    charset: Option<Charset>,
    too_deep: bool,
    read: LeafReadView,
    plan: LeafPlan,
) -> PartView {
    PartView {
        headers,
        encoding: read.encoding,
        is_encoding_problem: read.is_encoding_problem || too_deep,
        body: leaf_body(
            read.bytes,
            data,
            charset,
            plan.mime_type,
            plan.is_text,
            plan.routing.is_inline,
        ),
        offset_header,
        offset_body: pos as usize,
        offset_end: plan.offset_end as usize,
    }
}

/// Adds the leaf whose body begins at `pos` and was read as `read` says.
pub open spec fn leaf_kept(
    data: Seq<u8>,
    pos: int,
    m: MessageView,
    s: StateView,
    headers: Seq<HeaderView>,
    info: PartInfoView,
    kind: MimeType,
    text: bool,
    too_deep: bool,
    read: LeafReadView,
) -> Step {
    let plan = leaf_plan(data, pos, s, info, kind, text, read);
    Step {
        pos: pos + read.consumed,
        message: m.with_part(
            leaf_part(data, pos, s.offset_header, headers, info.charset, too_deep, read, plan),
            plan.routing.to_html,
            plan.routing.to_text,
            plan.routing.to_attachments,
        ),
        state: StateView {
            mime_boundary: plan.boundary,
            offset_body: pos as usize,
            offset_end: plan.offset_end as usize,
            need_html_body: plan.routing.need_html_body,
            need_text_body: plan.routing.need_text_body,
            sub_part_ids: s.sub_part_ids.push(m.parts.len() as usize),
            ..s
        },
    }
}

/// Reads the leaf whose body begins at `pos` and adds it to the message.
/// Tells whether the body could be read.
#[verifier::opaque]
pub open spec fn leaf_added(
    data: Seq<u8>,
    pos: int,
    m: MessageView,
    s: StateView,
    headers: Seq<HeaderView>,
    info: PartInfoView,
    kind: MimeType,
    text: bool,
    too_deep: bool,
) -> (bool, Step) {
    let read = leaf_read(data, pos, s.mime_boundary, info.encoding);
    if read.consumed <= 0 {
        (
            false,
            leaf_lost(pos, m, s, headers, read.encoding, read.is_encoding_problem || too_deep),
        )
    } else {
        (true, leaf_kept(data, pos, m, s, headers, info, kind, text, too_deep, read))
    }
}

/// What follows a boundary that ends at `step.pos`. A message within the
/// message ends there. In a multipart, `--` closes the multipart: after a
/// `multipart/alternative` that still wanted both bodies the one body stands
/// in for the other, and the multipart gets its parts and ends behind the
/// rest of the line. Anything else is the rest of the line before the next
/// part, and reading goes on.
#[verifier::opaque]
pub open spec fn boundary_passed(data: Seq<u8>, step: Step) -> (Option<LevelEnd>, Step) {
    let pos = step.pos;
    let s = step.state;
    if s.mime_type == MimeType::Message {
        (Some(LevelEnd::Boundary), step)
    } else if 0 <= pos && pos + 2 <= data.len() && data[pos] == 45 && data[pos + 1] == 45 {
        let mirrored = if s.mime_type == MimeType::MultipartAlternative && s.need_html_body
            && s.need_text_body {
            step.message.mirrored(s.html_parts as int, s.text_parts as int)
        } else {
            step.message
        };
        let closed = close_level(mirrored, s, line_break_end(data, pos + 2) as usize);
        (Some(LevelEnd::Closed), Step { pos: pos + 2, message: closed.0, state: closed.1 })
    } else {
        (None, Step { pos: line_break_end(data, pos), ..step })
    }
}

/// What reading one part leads to: whether reading goes on, whether the
/// stream stands behind a boundary of the level, and where the walker
/// stands.
pub struct Round {
    pub go_on: bool,
    pub at_boundary: bool,
    pub step: Step,
}

/// Reads the multipart whose header fields are `headers` and whose first
/// boundary ends at `pos`: the multipart is added to the message and its
/// parts are read as a level of their own, `depth - 1` levels deep at most.
/// Tells whether the multipart was closed and the boundary of the level that
/// holds it was found behind it.
pub open spec fn multipart_read(
    data: Seq<u8>,
    pos: int,
    m: MessageView,
    s: StateView,
    headers: Seq<HeaderView>,
    line: Seq<u8>,
    mime_type: MimeType,
    offset_body: int,
    depth: nat,
) -> (bool, Step)
    decreases depth, 0nat,
{
    let id = m.parts.len() as usize;
    let part = PartView {
        headers,
        offset_header: s.offset_header,
        offset_body: offset_body as usize,
        offset_end: offset_body as usize,
        is_encoding_problem: false,
        encoding: Encoding::Identity,
        body: BodyView::Multipart(Seq::empty()),
    };
    let m1 = m.with_part(part, false, false, false);
    let s1 = StateView { sub_part_ids: s.sub_part_ids.push(id), ..s };
    if depth == 0 {
        (false, Step { pos, message: m1, state: s1 })
    } else {
        let w = walk(
            data,
            line_break_end(data, pos),
            m1,
            s1.multipart(m1, mime_type, line, id),
            (depth - 1) as nat,
        );
        let found = w.0 == LevelEnd::Closed && (match s1.mime_boundary {
            Some(own) => own.len() > 0 && first_match(data, w.1.pos, own) is Some,
            None => false,
        });
        (
            found,
            Step {
                pos: if found {
                    first_match(data, w.1.pos, s1.mime_boundary->0)->0 + s1.mime_boundary->0.len()
                } else {
                    w.1.pos
                },
                message: w.1.message,
                state: s1,
            },
        )
    }
}

/// Reads the message within the message whose header fields are `headers`
/// and which begins at `pos`: the part that holds it is added to the
/// attachments, and its parts are read into a message of their own, `depth -
/// 1` levels deep at most. Tells whether it ended at the boundary of the
/// level that holds it.
pub open spec fn message_read(
    data: Seq<u8>,
    pos: int,
    m: MessageView,
    s: StateView,
    headers: Seq<HeaderView>,
    depth: nat,
) -> (bool, Step)
    decreases depth, 0nat,
{
    let id = m.parts.len() as usize;
    let part = PartView {
        headers,
        encoding: Encoding::Identity,
        is_encoding_problem: false,
        offset_header: s.offset_header,
        offset_body: pos as usize,
        offset_end: pos as usize,
        body: BodyView::Message(AttachmentView::Raw(Seq::empty())),
    };
    let m1 = m.with_part(part, false, false, true);
    let s1 = StateView { offset_body: pos as usize, sub_part_ids: s.sub_part_ids.push(id), ..s };
    if depth == 0 {
        (false, Step { pos, message: m1, state: s1 })
    } else {
        let w = walk(
            data,
            pos,
            MessageView::empty(),
            StateView { mime_boundary: s.mime_boundary, part_id: id, ..StateView::start() },
            (depth - 1) as nat,
        );
        let at_end = w.0 == LevelEnd::Boundary;
        let s2 = StateView { mime_boundary: w.1.state.mime_boundary, ..s1 };
        let offset_end = if at_end {
            leaf_end(data, w.1.pos, s2.boundary_len(), pos)
        } else {
            w.1.pos
        };
        let nested = MessageView { raw_message: data.subrange(pos, offset_end), ..w.1.message };
        (
            at_end,
            Step {
                pos: w.1.pos,
                message: m1.with_body(
                    id as int,
                    BodyView::Message(AttachmentView::Parsed(nested)),
                    offset_end as usize,
                ),
                state: s2,
            },
        )
    }
}

/// Reads the part whose header fields are `headers` and end at `pos`.
///
/// A multipart with a boundary that is found behind the header fields is
/// read as a level of its own; without one it is text of no known kind. A
/// message within the message that is not encoded is read as a level of its
/// own. Everything else is a leaf, and so is what lies deeper than `depth`
/// levels. Reading goes on behind a boundary, or where input is left.
pub open spec fn part_read(
    data: Seq<u8>,
    pos: int,
    m: MessageView,
    s: StateView,
    headers: Seq<HeaderView>,
    info: PartInfoView,
    depth: nat,
) -> Round
    decreases depth, 1nat,
{
    let has_line = info.is_multipart && info.boundary is Some;
    if has_line && depth > 0 && info.boundary->0.len() >= 2 && first_match(
        data,
        pos,
        info.boundary->0,
    ) is Some {
        let line = info.boundary->0;
        let r = multipart_read(
            data,
            first_match(data, pos, line)->0 + line.len(),
            m,
            s,
            headers,
            line,
            info.mime_type,
            line_break_end(data, pos),
            depth,
        );
        Round { go_on: r.0, at_boundary: r.0, step: r.1 }
    } else {
        let mime_type = if has_line {
            MimeType::TextOther
        } else {
            info.mime_type
        };
        let is_text = has_line || info.is_text;
        let is_message = mime_type == MimeType::Message && info.encoding == Encoding::Identity;
        let start = line_break_end(data, pos);
        if is_message && depth > 0 {
            let r = message_read(data, start, m, s, headers, depth);
            Round { go_on: r.0, at_boundary: r.0, step: r.1 }
        } else {
            let r = leaf_added(
                data,
                start,
                m,
                s,
                headers,
                info,
                mime_type,
                is_text,
                (has_line && depth == 0) || is_message,
            );
            let at_boundary = r.1.state.mime_boundary is Some;
            Round { go_on: r.0 && (at_boundary || r.1.pos < data.len()), at_boundary, step: r.1 }
        }
    }
}

/// Reads the parts of the level `s` from `pos` on into the message `m`,
/// `depth` levels deep at most, and tells how the level ended and where the
/// walker stands then.
///
/// Each round reads a block of header fields and the part that they begin.
/// A level ends where no header field is found, where a part cannot be read
/// or no boundary follows it, and at the boundary that closes it. When a
/// level ends otherwise than at its closing boundary, its multipart ends
/// where the stream stands.
pub open spec fn walk(data: Seq<u8>, pos: int, m: MessageView, s: StateView, depth: nat) -> (
    LevelEnd,
    Step,
)
    decreases depth, 2 + data.len() - pos,
{
    let block = headers_at(data, pos);
    let s0 = StateView { offset_header: pos as usize, ..s };
    if pos < 0 || pos > data.len() {
        (LevelEnd::Stop, Step { pos, message: m, state: s })
    } else if block.1.len() == 0 {
        let closed = close_level(m, s0, block.0 as usize);
        (LevelEnd::Stop, Step { pos: block.0, message: closed.0, state: closed.1 })
    } else {
        let s1 = StateView {
            parts: if s0.parts < usize::MAX {
                (s0.parts + 1) as usize
            } else {
                s0.parts
            },
            ..s0
        };
        let round = part_read(
            data,
            block.0,
            m,
            s1,
            block.1,
            part_info_of(block.1, s.mime_type),
            depth,
        );
        if !round.go_on {
            let closed = close_level(
                round.step.message,
                round.step.state,
                round.step.pos as usize,
            );
            (LevelEnd::Stop, Step { pos: round.step.pos, message: closed.0, state: closed.1 })
        } else {
            let next = if round.at_boundary {
                boundary_passed(data, round.step)
            } else {
                (None, round.step)
            };
            match next.0 {
                Some(end) => (end, next.1),
                None => if pos < next.1.pos <= data.len() {
                    walk(data, next.1.pos, next.1.message, next.1.state, depth)
                } else {
                    (LevelEnd::Stop, next.1)
                },
            }
        }
    }
}

/// The message that [`crate::Message::parse`] returns for the raw message
/// `data`: nothing if `data` does not begin with a header field; otherwise
/// the parts that the walker finds, of which the first, the root, ends where
/// the message ends.
pub open spec fn parsed(data: Seq<u8>) -> Option<MessageView> {
    let w = walk(data, 0, MessageView::empty(), StateView::start(), MAX_NESTING as nat);
    if w.1.message.parts.len() == 0 {
        None
    } else {
        Some(
            MessageView { raw_message: data, ..w.1.message }.with_body(
                0,
                w.1.message.parts[0].body,
                data.len() as usize,
            ),
        )
    }
}


} // verus!
