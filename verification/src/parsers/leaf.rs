//! Reading a leaf and adding it to the message.

use crate::decoders::DecodeResult;
use crate::headers_view;
use crate::parsers::part::body_bytes;
use crate::parsers::part::body_text;
use crate::parsers::part::get_leaf_end;
use crate::parsers::part::read_leaf;
use crate::parsers::part::LeafRead;
use crate::parsers::part::result_to_bytes;
use crate::parsers::part::result_to_string;
use crate::parsers::part::route_leaf;
use crate::parsers::part::Routing;
use crate::parsers::part::Level;
use crate::parsers::part::MimeType;
use crate::parsers::part::PartInfo;
use crate::parsers::tree::add_part;
use crate::parsers::message::MessageStream;
use crate::parsers::level::extends;
use crate::parsers::level::MessageParserState;
use crate::body_view;
use crate::parsers::walk;
use crate::parsers::walk::StateView;
use crate::parsers::walk::Step;
use crate::Encoding;
use crate::Header;
use crate::Message;
use crate::MessageAttachment;
use crate::MessagePart;
use crate::PartType;
use vstd::prelude::*;

verus! {

/// The body of a leaf that was read, by the kind of the leaf.
fn leaf_body(
    bytes: DecodeResult,
    data: &[u8],
    info: &PartInfo,
    mime_type: MimeType,
    is_text: bool,
    is_inline: bool,
) -> (body: PartType)
    requires
        bytes matches DecodeResult::Borrowed((from, to)) ==> from <= to <= data@.len(),
    ensures
        !(body is Multipart),
        body is Message == (mime_type == MimeType::Message),
        match body {
            PartType::Text(text) => {
                &&& mime_type != MimeType::Message && is_text && mime_type != MimeType::TextHtml
                &&& text@ == body_text(bytes@, data@, info.charset)
            },
            PartType::Html(text) => {
                &&& is_text && mime_type == MimeType::TextHtml
                &&& text@ == body_text(bytes@, data@, info.charset)
            },
            PartType::Binary(content) => {
                &&& mime_type != MimeType::Message && !is_text && !is_inline
                &&& content@ == body_bytes(bytes@, data@)
            },
            PartType::InlineBinary(content) => {
                &&& mime_type != MimeType::Message && !is_text && is_inline
                &&& content@ == body_bytes(bytes@, data@)
            },
            PartType::Message(MessageAttachment::Raw(content)) => content@ == body_bytes(
                bytes@,
                data@,
            ),
            _ => false,
        },
        body_view(body) == walk::leaf_body(
            bytes@,
            data@,
            info.charset,
            mime_type,
            is_text,
            is_inline,
        ),
{
    if mime_type == MimeType::Message {
        PartType::Message(MessageAttachment::Raw(result_to_bytes(bytes, data)))
    } else if is_text {
        let text = result_to_string(bytes, data, info.charset);
        if mime_type == MimeType::TextHtml {
            PartType::Html(text)
        } else {
            PartType::Text(text)
        }
    } else {
        let content = result_to_bytes(bytes, data);
        if is_inline {
            PartType::InlineBinary(content)
        } else {
            PartType::Binary(content)
        }
    }
}

/// Adds a leaf whose body could not be read: an empty attachment.
fn add_lost_leaf(
    message: &mut Message,
    state: &mut MessageParserState,
    headers: Vec<Header>,
    encoding: Encoding,
    is_encoding_problem: bool,
    offset_body: usize,
    Ghost(raw): Ghost<Seq<u8>>,
)
    requires
        old(state).offset_header <= offset_body <= raw.len(),
        old(message).wf(raw),
        old(state).fits(*old(message), offset_body as int),
    ensures
        final(message).wf(raw),
        final(message).parts@.len() == old(message).parts@.len() + 1,
        extends(*old(message), *final(message), None),
        final(state).fits(*final(message), offset_body as int),
        final(state).mime_type == old(state).mime_type,
        final(state).part_id == old(state).part_id,
        final(state).mime_boundary == old(state).mime_boundary,
        final(message).parts[old(message).parts@.len() as int].headers == headers,
        final(message).parts[old(message).parts@.len() as int].offset_header == old(
            state,
        ).offset_header,
        final(message).parts[old(message).parts@.len() as int].offset_end == offset_body,
        (Step { pos: offset_body as int, message: final(message)@, state: final(state)@ })
            == walk::leaf_lost(
            offset_body as int,
            old(message)@,
            old(state)@,
            headers_view(headers@),
            encoding,
            is_encoding_problem,
        ),
{
    proof {
        reveal(extends);
        reveal(walk::leaf_lost);
        crate::parts_view_index(message.parts@);
    }
    state.offset_body = offset_body;
    let part = MessagePart {
        headers,
        encoding,
        is_encoding_problem,
        body: PartType::Binary(Vec::new()),
        offset_header: state.offset_header,
        offset_body,
        offset_end: offset_body,
    };
    let id = add_part(message, part, false, false, true, Ghost(raw));
    state.sub_part_ids.push(id);
}

/// What is settled about a leaf once its body was read.
pub struct Plan {
    pub mime_type: MimeType,
    pub is_text: bool,
    /// Whether the boundary of the level is given up.
    pub unbounded: bool,
    pub offset_end: usize,
    pub routing: Routing,
}

/// Settles the kind, the end and the filing of a leaf whose body was read;
/// the stream stands behind what was read.
fn plan_leaf(
    stream: &MessageStream,
    state: &MessageParserState,
    info: &PartInfo,
    kind: MimeType,
    text: bool,
    read: &LeafRead,
    offset_body: usize,
) -> (plan: Plan)
    requires
        stream.pos == offset_body + read.consumed,
        stream.pos <= stream.data@.len(),
    ensures
        plan.unbounded == read.unbounded,
        offset_body <= plan.offset_end <= stream.pos,
        plan.offset_end == crate::parsers::part::leaf_end(
            stream.data@,
            stream.pos as int,
            if read.unbounded {
                None
            } else {
                state@.boundary_len()
            },
            offset_body as int,
        ),
        plan.routing.to_html || plan.routing.to_text || plan.routing.to_attachments,
        !plan.is_text ==> plan.routing.to_attachments,
        plan.mime_type == MimeType::Message ==> plan.routing.to_attachments,
        (walk::LeafPlan {
            mime_type: plan.mime_type,
            is_text: plan.is_text,
            boundary: if read.unbounded {
                None
            } else {
                state@.mime_boundary
            },
            offset_end: plan.offset_end as int,
            routing: plan.routing,
        }) == walk::leaf_plan(stream.data@, offset_body as int, state@, info@, kind, text, read@),
{
    proof {
        reveal(walk::leaf_plan);
    }
    let mut mime_type = kind;
    let mut is_text = text;
    let mut can_be_inline = info.is_inline;
    if read.is_encoding_problem {
        mime_type = MimeType::TextOther;
        can_be_inline = false;
        is_text = true;
    }
    let none: Option<Vec<u8>> = None;
    let offset_end = if read.unbounded {
        get_leaf_end(stream, &none, offset_body)
    } else {
        get_leaf_end(stream, &state.mime_boundary, offset_body)
    };
    let routing = if mime_type == MimeType::Message {
        route_leaf(
            Level {
                mime_type: MimeType::Other,
                in_alternative: false,
                is_first: false,
                need_html_body: state.need_html_body,
                need_text_body: state.need_text_body,
            },
            MimeType::Other,
            false,
            false,
            true,
            true,
        )
    } else {
        route_leaf(
            Level {
                mime_type: state.mime_type,
                in_alternative: state.in_alternative,
                is_first: state.parts == 1,
                need_html_body: state.need_html_body,
                need_text_body: state.need_text_body,
            },
            mime_type,
            is_text,
            can_be_inline,
            info.is_attachment,
            info.has_name,
        )
    };
    Plan { mime_type, is_text, unbounded: read.unbounded, offset_end, routing }
}

/// The leaf whose body was read as `read` says.
fn build_leaf(
    data: &[u8],
    headers: Vec<Header>,
    info: &PartInfo,
    too_deep: bool,
    read: LeafRead,
    plan: &Plan,
    offset_header: usize,
    offset_body: usize,
    Ghost(boundary): Ghost<Option<Seq<u8>>>,
) -> (part: MessagePart)
    requires
        read.bytes matches DecodeResult::Borrowed((from, to)) ==> from <= to <= data@.len(),
        read.encoding == Encoding::Identity ==> read.bytes@ == crate::parsers::part::extent(
            offset_body as int,
            plan.offset_end as int,
        ),
        info.charset == crate::parsers::part::charset_named(headers_view(headers@)),
    ensures
        crate::parsers::part::part_is_slice(part, data@),
        part.headers == headers,
        part.offset_header == offset_header,
        part.offset_body == offset_body,
        part.offset_end == plan.offset_end,
        !part.is_multipart(),
        part.body is Message ==> plan.mime_type == MimeType::Message,
        !(part.body matches PartType::Message(MessageAttachment::Parsed(_))),
        part@ == walk::leaf_part(
            data@,
            offset_body as int,
            offset_header,
            headers_view(headers@),
            info.charset,
            too_deep,
            read@,
            walk::LeafPlan {
                mime_type: plan.mime_type,
                is_text: plan.is_text,
                boundary,
                offset_end: plan.offset_end as int,
                routing: plan.routing,
            },
        ),
{
    let encoding = read.encoding;
    let is_encoding_problem = read.is_encoding_problem || too_deep;
    let body = leaf_body(
        read.bytes,
        data,
        info,
        plan.mime_type,
        plan.is_text,
        plan.routing.is_inline,
    );
    MessagePart {
        headers,
        encoding,
        is_encoding_problem,
        body,
        offset_header,
        offset_body,
        offset_end: plan.offset_end,
    }
}

/// Adds a leaf whose body was read as `read` says; the stream stands behind
/// what was read.
fn add_kept_leaf(
    stream: &MessageStream,
    message: &mut Message,
    state: &mut MessageParserState,
    headers: Vec<Header>,
    info: &PartInfo,
    kind: MimeType,
    text: bool,
    too_deep: bool,
    read: LeafRead,
    offset_body: usize,
    Ghost(raw): Ghost<Seq<u8>>,
)
    requires
        raw == stream.data@,
        read.consumed > 0,
        old(state).offset_header <= offset_body,
        stream.pos == offset_body + read.consumed,
        stream.pos <= raw.len(),
        read.bytes matches DecodeResult::Borrowed((from, to)) ==> from <= to <= raw.len(),
        read@ == crate::parsers::part::leaf_read(
            stream.data@,
            offset_body as int,
            old(state)@.mime_boundary,
            info.encoding,
        ),
        info.charset == crate::parsers::part::charset_named(headers_view(headers@)),
        old(message).wf(raw),
        old(state).fits(*old(message), offset_body as int),
    ensures
        final(message).wf(raw),
        final(message).parts@.len() == old(message).parts@.len() + 1,
        extends(*old(message), *final(message), None),
        final(state).fits(*final(message), stream.pos as int),
        final(state).mime_type == old(state).mime_type,
        final(state).part_id == old(state).part_id,
        final(state).mime_boundary is Some ==> final(state).mime_boundary == old(
            state,
        ).mime_boundary,
        final(message).parts[old(message).parts@.len() as int].headers == headers,
        final(message).parts[old(message).parts@.len() as int].offset_header == old(
            state,
        ).offset_header,
        final(state).mime_boundary is None ==> final(message).parts[old(
            message,
        ).parts@.len() as int].offset_end == raw.len(),
        (Step { pos: stream.pos as int, message: final(message)@, state: final(state)@ })
            == walk::leaf_kept(
            stream.data@,
            offset_body as int,
            old(message)@,
            old(state)@,
            headers_view(headers@),
            info@,
            kind,
            text,
            too_deep,
            read@,
        ),
{
    let total: usize = stream.data.len();
    let plan = plan_leaf(stream, state, info, kind, text, &read, offset_body);
    proof {
        crate::parsers::part::body_taken_as_it_stands_is_a_slice(
            stream.data@,
            offset_body as int,
            state@.mime_boundary,
            info.encoding,
        );
        crate::parsers::part::a_leaf_without_boundary_runs_to_the_end(
            stream.data@,
            offset_body as int,
            state@.mime_boundary,
            info.encoding,
        );
    }
    let ghost boundary = if read.unbounded {
        None
    } else {
        state@.mime_boundary
    };
    let part = build_leaf(
        stream.data,
        headers,
        info,
        too_deep,
        read,
        &plan,
        state.offset_header,
        offset_body,
        Ghost(boundary),
    );
    file_leaf(message, state, part, &plan, offset_body, Ghost(raw), Ghost(stream.pos as int));
}

/// Adds a leaf to the message as its plan says, and lets the level know.
fn file_leaf(
    message: &mut Message,
    state: &mut MessageParserState,
    part: MessagePart,
    plan: &Plan,
    offset_body: usize,
    Ghost(raw): Ghost<Seq<u8>>,
    Ghost(pos): Ghost<int>,
)
    requires
        old(message).wf(raw),
        old(state).fits(*old(message), offset_body as int),
        offset_body <= pos <= raw.len(),
        part.offset_header == old(state).offset_header,
        part.offset_header <= offset_body,
        part.offset_body == offset_body,
        part.offset_end == plan.offset_end,
        offset_body <= plan.offset_end <= pos,
        !part.is_multipart(),
        !(part.body matches PartType::Message(MessageAttachment::Parsed(_))),
        part.body is Message ==> plan.routing.to_attachments,
        plan.routing.to_html || plan.routing.to_text || plan.routing.to_attachments,
        crate::parsers::part::part_is_slice(part, raw),
    ensures
        final(message).wf(raw),
        final(message).parts@.len() == old(message).parts@.len() + 1,
        extends(*old(message), *final(message), None),
        final(state).fits(*final(message), pos),
        final(state).mime_type == old(state).mime_type,
        final(state).part_id == old(state).part_id,
        final(state).mime_boundary is Some ==> final(state).mime_boundary == old(
            state,
        ).mime_boundary,
        final(message).parts[old(message).parts@.len() as int] == part,
        final(message)@ == old(message)@.with_part(
            part@,
            plan.routing.to_html,
            plan.routing.to_text,
            plan.routing.to_attachments,
        ),
        final(state)@ == (StateView {
            mime_boundary: if plan.unbounded {
                None
            } else {
                old(state)@.mime_boundary
            },
            offset_body,
            offset_end: plan.offset_end,
            need_html_body: plan.routing.need_html_body,
            need_text_body: plan.routing.need_text_body,
            sub_part_ids: old(state)@.sub_part_ids.push(old(message)@.parts.len() as usize),
            ..old(state)@
        }),
{
    proof {
        reveal(extends);
        crate::parts_view_index(message.parts@);
    }
    state.offset_body = offset_body;
    if plan.unbounded {
        state.mime_boundary = None;
    }
    state.offset_end = plan.offset_end;
    state.need_html_body = plan.routing.need_html_body;
    state.need_text_body = plan.routing.need_text_body;
    let id = add_part(
        message,
        part,
        plan.routing.to_html,
        plan.routing.to_text,
        plan.routing.to_attachments,
        Ghost(raw),
    );
    state.sub_part_ids.push(id);
}

/// Reads the body of a leaf at the stream's position and adds the leaf to
/// the message. Tells whether the body could be read; a leaf whose body
/// could not be read is added as an empty attachment.
pub fn add_leaf(
    stream: &mut MessageStream,
    message: &mut Message,
    state: &mut MessageParserState,
    headers: Vec<Header>,
    info: &PartInfo,
    kind: MimeType,
    text: bool,
    too_deep: bool,
    Ghost(raw): Ghost<Seq<u8>>,
) -> (ok: bool)
    requires
        raw == old(stream).data@,
        old(state).offset_header <= old(stream).pos <= raw.len(),
        old(message).wf(raw),
        old(state).fits(*old(message), old(stream).pos as int),
        info.charset == crate::parsers::part::charset_named(headers_view(headers@)),
    ensures
        final(stream).data == old(stream).data,
        old(stream).pos <= final(stream).pos <= raw.len(),
        final(message).wf(raw),
        final(message).parts@.len() == old(message).parts@.len() + 1,
        extends(*old(message), *final(message), None),
        final(state).fits(*final(message), final(stream).pos as int),
        final(state).mime_type == old(state).mime_type,
        final(state).part_id == old(state).part_id,
        final(state).mime_boundary is Some ==> final(state).mime_boundary == old(
            state,
        ).mime_boundary,
        final(message).parts[old(message).parts@.len() as int].headers == headers,
        final(message).parts[old(message).parts@.len() as int].offset_header == old(
            state,
        ).offset_header,
        final(state).mime_boundary is None ==> final(message).parts[old(
            message,
        ).parts@.len() as int].offset_end == raw.len(),
        (ok, Step { pos: final(stream).pos as int, message: final(message)@, state: final(state)@ })
            == walk::leaf_added(
            old(stream).data@,
            old(stream).pos as int,
            old(message)@,
            old(state)@,
            headers_view(headers@),
            info@,
            kind,
            text,
            too_deep,
        ),
{
    proof {
        reveal(walk::leaf_added);
    }
    let total: usize = stream.data.len();
    let offset_body: usize = stream.pos;
    proof {
        crate::parsers::part::a_leaf_without_boundary_runs_to_the_end(
            stream.data@,
            offset_body as int,
            state@.mime_boundary,
            info.encoding,
        );
    }
    let read = read_leaf(stream, &state.mime_boundary, info.encoding);
    if read.consumed == 0 {
        add_lost_leaf(
            message,
            state,
            headers,
            read.encoding,
            read.is_encoding_problem || too_deep,
            offset_body,
            Ghost(raw),
        );
        false
    } else {
        stream.pos += read.consumed;
        add_kept_leaf(
            stream,
            message,
            state,
            headers,
            info,
            kind,
            text,
            too_deep,
            read,
            offset_body,
            Ghost(raw),
        );
        true
    }
}

} // verus!
