//! The message walker: it reads the header fields of each part, descends
//! into multiparts and into messages within the message, and files every
//! leaf under the text body, the HTML body or the attachments.

use crate::all_below;
use crate::headers_view;
use crate::parsers::header::headers_at;
use crate::parsers::header::parse_headers;
use crate::parsers::mime::line_break_end;
use crate::parsers::mime::seek_crlf;
use crate::parsers::mime::seek_next_part;
use crate::parsers::mime::skip_crlf;
use crate::parsers::mime::skip_multipart_end;
use crate::parsers::part::get_leaf_end;
use crate::parsers::part::part_info;
use crate::parsers::part::MimeType;
use crate::parsers::part::PartInfo;
use crate::parsers::tree::add_part;
use crate::parsers::tree::attach_message;
use crate::parsers::tree::mirror_bodies;
use crate::parsers::tree::ends_well;
use crate::parsers::tree::set_root_end;
use crate::parsers::leaf::add_leaf;
use crate::parsers::level::close_level;
use crate::parsers::level::extends;
use crate::parsers::level::extends_behind;
use crate::parsers::level::extends_by_adding;
use crate::parsers::level::extends_itself;
use crate::parsers::level::extends_keeps;
use crate::parsers::level::extends_len;
use crate::parsers::level::extends_twice;
use crate::parsers::level::MessageParserState;
use crate::AttachmentView;
use crate::BodyView;
use crate::MessageView;
use crate::PartView;
use crate::parsers::walk;
use crate::parsers::walk::LevelEnd;
use crate::parsers::walk::StateView;
use crate::parsers::walk::Step;
use crate::parsers::walk::MAX_NESTING;
use crate::text::copy_range;
use crate::Encoding;
use crate::Header;
use crate::Message;
use crate::MessageAttachment;
use crate::MessagePart;
use crate::MessagePartId;
use crate::PartType;
use vstd::prelude::*;

verus! {

/// A byte buffer with a read position.
pub struct MessageStream<'x> {
    pub data: &'x [u8],
    pub pos: usize,
}

impl<'x> MessageStream<'x> {
    /// A stream over `data`, positioned at its start.
    pub fn new(data: &'x [u8]) -> (s: MessageStream<'x>)
        ensures
            s.data@ == data@,
            s.pos == 0,
    {
        MessageStream { data, pos: 0 }
    }
}

/// What the reading of a level that began at `pos` shows of the block of
/// header fields there: if the block has fields, the first part that was
/// added begins at `pos` and has these fields; if it has none, nothing was
/// added.
pub open spec fn begins_with(before: Message, after: Message, data: Seq<u8>, pos: int) -> bool {
    let found = headers_at(data, pos).1;
    if found.len() > 0 {
        &&& after.parts@.len() > before.parts@.len()
        &&& after.parts[before.parts@.len() as int].offset_header == pos
        &&& headers_view(after.parts[before.parts@.len() as int].headers@) == found
    } else {
        &&& after.parts@.len() == before.parts@.len()
        &&& after.html_body == before.html_body
        &&& after.text_body == before.text_body
        &&& after.attachments == before.attachments
    }
}

/// A message is sound whatever bytes it holds as its own.
proof fn wf_without_raw(a: Message, b: Message, raw: Seq<u8>)
    requires
        a.wf(raw),
        a.parts == b.parts,
        a.html_body == b.html_body,
        a.text_body == b.text_body,
        a.attachments == b.attachments,
    ensures
        b.wf(raw),
{
    reveal_with_fuel(Message::wf, 2);
    assert forall|i: int| 0 <= i < b.parts@.len() implies (#[trigger] b.parts[i]).offsets_ordered(
        raw.len() as int,
    ) by {
        assert(a.parts[i].offsets_ordered(raw.len() as int));
    }
    assert forall|i: int| 0 <= i < b.parts@.len() implies b.listed(i as usize) == !(
    #[trigger] b.parts[i]).is_multipart() by {
        assert(a.parts[i].offsets_ordered(raw.len() as int));
        assert(a.listed(i as usize) == b.listed(i as usize));
    }
}

/// The state of the level of a multipart that begins in `state`.
fn multipart_state(
    state: &MessageParserState,
    message: &Message,
    mime_type: MimeType,
    boundary: Vec<u8>,
    part_id: MessagePartId,
) -> (child: MessageParserState)
    ensures
        child.mime_type == mime_type,
        child.mime_boundary == Some(boundary),
        child.in_alternative == (state.in_alternative || mime_type
            == MimeType::MultipartAlternative),
        child.parts == 0,
        child.html_parts == message.html_body@.len(),
        child.text_parts == message.text_body@.len(),
        child.need_html_body == state.need_html_body,
        child.need_text_body == state.need_text_body,
        child.part_id == part_id,
        child.sub_part_ids@.len() == 0,
        child@ == state@.multipart(message@, mime_type, boundary@, part_id),
{
    MessageParserState {
        in_alternative: state.in_alternative || mime_type == MimeType::MultipartAlternative,
        mime_type,
        mime_boundary: Some(boundary),
        parts: 0,
        html_parts: message.html_body.len(),
        text_parts: message.text_body.len(),
        need_html_body: state.need_html_body,
        need_text_body: state.need_text_body,
        part_id,
        sub_part_ids: Vec::new(),
        offset_header: 0,
        offset_body: 0,
        offset_end: 0,
    }
}

/// What reading one part leaves of a level: the stream has not gone back,
/// the message is sound and is the message as it was with parts added, and
/// the level still belongs to it and is of the same kind.
pub open spec fn level_kept(
    before: Message,
    after: Message,
    old_state: MessageParserState,
    state: MessageParserState,
    old_pos: int,
    pos: int,
    raw: Seq<u8>,
) -> bool {
    &&& old_pos <= pos <= raw.len()
    &&& after.wf(raw)
    &&& extends(before, after, None)
    &&& state.fits(after, pos)
    &&& state.mime_type == old_state.mime_type
    &&& state.part_id == old_state.part_id
}

/// Whether the part that was added first to `before` has the header fields
/// `headers` and begins at `offset_header`.
pub open spec fn added(before: Message, after: Message, headers: Vec<Header>, offset_header: int) -> bool {
    &&& after.parts@.len() > before.parts@.len()
    &&& after.parts[before.parts@.len() as int].headers == headers
    &&& after.parts[before.parts@.len() as int].offset_header == offset_header
}

/// Reads a multipart whose first boundary the stream has just passed: the
/// multipart is added to the message and its parts are read as a level of
/// their own. Tells whether the multipart was closed and the boundary of the
/// level that holds it was found behind it, so that reading can go on there.
fn read_multipart(
    stream: &mut MessageStream,
    message: &mut Message,
    state: &mut MessageParserState,
    headers: Vec<Header>,
    line: &Vec<u8>,
    mime_type: MimeType,
    offset_body: usize,
    depth: usize,
) -> (found_next: bool)
    requires
        old(stream).pos <= old(stream).data@.len(),
        old(message).wf(old(stream).data@),
        old(state).fits(*old(message), old(stream).pos as int),
        old(state).offset_header <= offset_body <= old(stream).pos,
        mime_type != MimeType::Message,
        depth > 0,
    ensures
        final(stream).data == old(stream).data,
        level_kept(
            *old(message),
            *final(message),
            *old(state),
            *final(state),
            old(stream).pos as int,
            final(stream).pos as int,
            old(stream).data@,
        ),
        added(*old(message), *final(message), headers, old(state).offset_header as int),
        final(state).mime_boundary == old(state).mime_boundary,
        found_next ==> final(state).mime_boundary is Some,
        final(message).parts[old(message).parts@.len() as int].is_multipart(),
        (
            found_next,
            Step { pos: final(stream).pos as int, message: final(message)@, state: final(state)@ },
        ) == walk::multipart_read(
            old(stream).data@,
            old(stream).pos as int,
            old(message)@,
            old(state)@,
            headers_view(headers@),
            line@,
            mime_type,
            offset_body as int,
            depth as nat,
        ),
    decreases depth, 0nat,
{
    proof {
        crate::parts_view_index(message.parts@);
    }
    let ghost raw = stream.data@;
    let boundary = copy_range(line.as_slice(), 0, line.len());
    assert(boundary@ =~= line@);
    let part = MessagePart {
        headers,
        offset_header: state.offset_header,
        offset_body,
        offset_end: offset_body,
        is_encoding_problem: false,
        encoding: Encoding::Identity,
        body: PartType::Multipart(Vec::new()),
    };
    assert(part@ == PartView {
        headers: headers_view(headers@),
        offset_header: state.offset_header,
        offset_body,
        offset_end: offset_body,
        is_encoding_problem: false,
        encoding: Encoding::Identity,
        body: BodyView::Multipart(Seq::empty()),
    });
    let part_id = add_part(message, part, false, false, false, Ghost(raw));
    state.sub_part_ids.push(part_id);
    assert(all_below(state.sub_part_ids@, message.parts@.len() as int));
    let mut child = multipart_state(state, message, mime_type, boundary, part_id);
    skip_crlf(stream);
    let ghost held = *message;
    proof {
        extends_by_adding(*old(message), held);
    }
    let end = walk_level(stream, message, &mut child, (depth - 1) as usize);
    proof {
        extends_behind(*old(message), held, *message, part_id as int);
        extends_keeps(held, *message, Some(part_id as int), part_id as int);
        extends_len(held, *message, Some(part_id as int));
        if state.mime_type != MimeType::Message {
            extends_keeps(*old(message), *message, None, state.part_id as int);
        }
        assert(all_below(state.sub_part_ids@, message.parts@.len() as int));
    }
    match end {
        LevelEnd::Closed => match &state.mime_boundary {
            Some(own_line) => seek_next_part(stream, own_line.as_slice()),
            None => false,
        },
        _ => false,
    }
}

/// Reads a message within the message that begins at the stream's position:
/// the part that holds it is added to the attachments, and its parts are
/// read into a message of their own. Tells whether it ended at the boundary
/// of the level that holds it, so that reading can go on there.
fn read_message(
    stream: &mut MessageStream,
    message: &mut Message,
    state: &mut MessageParserState,
    headers: Vec<Header>,
    depth: usize,
) -> (at_end: bool)
    requires
        old(state).offset_header <= old(stream).pos <= old(stream).data@.len(),
        old(message).wf(old(stream).data@),
        old(state).fits(*old(message), old(stream).pos as int),
        depth > 0,
    ensures
        final(stream).data == old(stream).data,
        level_kept(
            *old(message),
            *final(message),
            *old(state),
            *final(state),
            old(stream).pos as int,
            final(stream).pos as int,
            old(stream).data@,
        ),
        added(*old(message), *final(message), headers, old(state).offset_header as int),
        final(message).parts[old(message).parts@.len() as int].body matches PartType::Message(
            MessageAttachment::Parsed(_),
        ),
        (
            at_end,
            Step { pos: final(stream).pos as int, message: final(message)@, state: final(state)@ },
        ) == walk::message_read(
            old(stream).data@,
            old(stream).pos as int,
            old(message)@,
            old(state)@,
            headers_view(headers@),
            depth as nat,
        ),
    decreases depth, 0nat,
{
    proof {
        crate::parts_view_index(message.parts@);
    }
    let total: usize = stream.data.len();
    let ghost raw = stream.data@;
    let offset_body: usize = stream.pos;
    state.offset_body = offset_body;
    let part = MessagePart {
        headers,
        encoding: Encoding::Identity,
        is_encoding_problem: false,
        offset_header: state.offset_header,
        offset_body,
        offset_end: offset_body,
        body: PartType::Message(MessageAttachment::Raw(Vec::new())),
    };
    let ghost m0 = old(message)@;
    let ghost s0 = old(state)@;
    let ghost part_v = part@;
    assert(part_v == PartView {
        headers: headers_view(headers@),
        encoding: Encoding::Identity,
        is_encoding_problem: false,
        offset_header: s0.offset_header,
        offset_body,
        offset_end: offset_body,
        body: BodyView::Message(AttachmentView::Raw(Seq::empty())),
    });
    let part_id = add_part(message, part, false, false, true, Ghost(raw));
    state.sub_part_ids.push(part_id);
    assert(all_below(state.sub_part_ids@, message.parts@.len() as int));
    let ghost held = *message;
    let ghost m1 = message@;
    assert(m1 == m0.with_part(part_v, false, false, true));
    let mut nested = Message::new();
    let mut nested_state = MessageParserState::new();
    core::mem::swap(&mut nested_state.mime_boundary, &mut state.mime_boundary);
    nested_state.part_id = part_id;
    let ghost n0 = nested_state@;
    assert(n0 == StateView {
        mime_boundary: s0.mime_boundary,
        part_id: m0.parts.len() as usize,
        ..StateView::start()
    });
    let ghost w = walk::walk(
        stream.data@,
        stream.pos as int,
        MessageView::empty(),
        n0,
        (depth - 1) as nat,
    );
    let end = walk_level(stream, &mut nested, &mut nested_state, (depth - 1) as usize);
    assert(end == w.0);
    assert(nested@ == w.1.message);
    assert(nested_state@ == w.1.state);
    core::mem::swap(&mut nested_state.mime_boundary, &mut state.mime_boundary);
    let ghost s1 = StateView {
        offset_body,
        sub_part_ids: s0.sub_part_ids.push(m0.parts.len() as usize),
        ..s0
    };
    assert(state@ == StateView { mime_boundary: w.1.state.mime_boundary, ..s1 });
    let at_end: bool = match end {
        LevelEnd::Boundary => true,
        _ => false,
    };
    let offset_end: usize = if at_end {
        get_leaf_end(stream, &state.mime_boundary, offset_body)
    } else {
        stream.pos
    };
    let ghost parsed = nested;
    nested.raw_message = copy_range(stream.data, offset_body, offset_end);
    proof {
        wf_without_raw(parsed, nested, raw);
    }
    assert(nested@ == MessageView {
        raw_message: stream.data@.subrange(offset_body as int, offset_end as int),
        ..w.1.message
    });
    attach_message(message, part_id, nested, offset_end, Ghost(raw));
    proof {
        extends_by_adding(*old(message), *message);
    }
    assert(message@ == m1.with_body(
        part_id as int,
        BodyView::Message(AttachmentView::Parsed(nested@)),
        offset_end,
    ));
    at_end
}

/// What follows a boundary that the stream has just passed. A message
/// within the message ends there. In a multipart, `--` closes the multipart,
/// which then gets its parts and its end; anything else is the rest of the
/// line before the next part, and reading goes on.
fn after_boundary(
    stream: &mut MessageStream,
    message: &mut Message,
    state: &mut MessageParserState,
) -> (end: Option<LevelEnd>)
    requires
        old(stream).pos <= old(stream).data@.len(),
        old(message).wf(old(stream).data@),
        old(state).fits(*old(message), old(stream).pos as int),
    ensures
        final(stream).data == old(stream).data,
        old(stream).pos <= final(stream).pos <= final(stream).data@.len(),
        final(message).wf(old(stream).data@),
        final(message).parts@.len() == old(message).parts@.len(),
        extends(*old(message), *final(message), old(state).own()),
        final(state).mime_type == old(state).mime_type,
        final(state).part_id == old(state).part_id,
        end is None ==> {
            &&& *final(message) == *old(message)
            &&& *final(state) == *old(state)
        },
        end == Some(LevelEnd::Boundary) ==> {
            &&& *final(message) == *old(message)
            &&& old(state).mime_type == MimeType::Message
        },
        end == Some(LevelEnd::Closed) ==> old(state).mime_type != MimeType::Message,
        end != Some(LevelEnd::Stop),
        (end, Step { pos: final(stream).pos as int, message: final(message)@, state: final(state)@ })
            == walk::boundary_passed(
            old(stream).data@,
            Step { pos: old(stream).pos as int, message: old(message)@, state: old(state)@ },
        ),
{
    let total: usize = stream.data.len();
    let ghost raw = stream.data@;
    proof {
        reveal(extends);
        reveal(walk::boundary_passed);
    }
    match state.mime_type {
        MimeType::Message => {
            return Some(LevelEnd::Boundary);
        },
        _ => {},
    }
    if skip_multipart_end(stream) {
        match state.mime_type {
            MimeType::MultipartAlternative => {
                if state.need_html_body && state.need_text_body {
                    mirror_bodies(message, state.html_parts, state.text_parts, Ghost(raw));
                }
            },
            _ => {},
        }
        let offset_end: usize = seek_crlf(stream, stream.pos);
        close_level(message, state, offset_end, Ghost(raw));
        return Some(LevelEnd::Closed);
    }
    skip_crlf(stream);
    None
}

/// Reads the part whose header fields were just read: a multipart whose
/// boundary is found and a message within the message are read as levels of
/// their own, `depth` levels deep at most; everything else is a leaf. Tells
/// whether reading goes on, and whether the stream stands behind a boundary
/// of the level.
fn read_part(
    stream: &mut MessageStream,
    message: &mut Message,
    state: &mut MessageParserState,
    headers: Vec<Header>,
    info: &PartInfo,
    depth: usize,
) -> (r: (bool, bool))
    requires
        old(state).offset_header <= old(stream).pos <= old(stream).data@.len(),
        old(message).wf(old(stream).data@),
        old(state).fits(*old(message), old(stream).pos as int),
        info.boundary matches Some(line) ==> line@.len() >= 2 && line@[0] == 45,
        info.is_multipart ==> info.mime_type != MimeType::Message,
        info.charset == crate::parsers::part::charset_named(headers_view(headers@)),
    ensures
        final(stream).data == old(stream).data,
        level_kept(
            *old(message),
            *final(message),
            *old(state),
            *final(state),
            old(stream).pos as int,
            final(stream).pos as int,
            old(stream).data@,
        ),
        added(*old(message), *final(message), headers, old(state).offset_header as int),
        old(state).mime_boundary is None ==> ends_well(
            final(message).parts[old(message).parts@.len() as int],
            old(stream).data@,
        ),
        (walk::Round {
            go_on: r.0,
            at_boundary: r.1,
            step: Step {
                pos: final(stream).pos as int,
                message: final(message)@,
                state: final(state)@,
            },
        }) == walk::part_read(
            old(stream).data@,
            old(stream).pos as int,
            old(message)@,
            old(state)@,
            headers_view(headers@),
            info@,
            depth as nat,
        ),
    decreases depth, 1nat,
{
    let total: usize = stream.data.len();
    let ghost raw = stream.data@;
    let mut mime_type = info.mime_type;
    let mut is_text = info.is_text;
    let mut too_deep: bool = false;
    if info.is_multipart {
        match &info.boundary {
            Some(line) => {
                let offset_body: usize = seek_crlf(stream, stream.pos);
                let start: usize = stream.pos;
                if depth > 0 && line.len() >= 2 && seek_next_part(stream, line.as_slice()) {
                    proof {
                        crate::parsers::mime::first_match_is_match(
                            stream.data@,
                            start as int,
                            line@,
                        );
                        line_break_before_match(stream.data@, start as int, line@);
                    }
                    let found_next = read_multipart(
                        stream,
                        message,
                        state,
                        headers,
                        line,
                        mime_type,
                        offset_body,
                        depth,
                    );
                    return (found_next, found_next);
                }
                mime_type = MimeType::TextOther;
                is_text = true;
                too_deep = depth == 0;
            },
            None => {},
        }
    }
    skip_crlf(stream);
    let is_message: bool = mime_type == MimeType::Message && match info.encoding {
        Encoding::Identity => true,
        _ => false,
    };
    if is_message && depth > 0 {
        let at_end = read_message(stream, message, state, headers, depth);
        (at_end, at_end)
    } else {
        if is_message {
            too_deep = true;
        }
        let ok = add_leaf(
            stream,
            message,
            state,
            headers,
            info,
            mime_type,
            is_text,
            too_deep,
            Ghost(raw),
        );
        let at_boundary = state.mime_boundary.is_some();
        (ok && (at_boundary || stream.pos < total), at_boundary)
    }
}

/// Reads the parts of one level from the stream's position on and adds them
/// to the message, with all that they hold.
///
/// Each round reads the header fields of a part and the part. Behind a part,
/// a boundary followed by `--` ends a multipart; any other boundary is
/// followed by the next part. A message within ends at the boundary of the
/// multipart that holds it. When nothing more can be read, every level ends
/// where the stream stands.
#[verifier::rlimit(50)]
fn walk_level(
    stream: &mut MessageStream,
    message: &mut Message,
    state: &mut MessageParserState,
    depth: usize,
) -> (end: LevelEnd)
    requires
        old(stream).pos <= old(stream).data@.len(),
        old(message).wf(old(stream).data@),
        old(state).fits(*old(message), old(stream).pos as int),
    ensures
        final(stream).data == old(stream).data,
        old(stream).pos <= final(stream).pos <= final(stream).data@.len(),
        final(message).wf(old(stream).data@),
        extends(*old(message), *final(message), old(state).own()),
        begins_with(*old(message), *final(message), old(stream).data@, old(stream).pos as int),
        final(state).mime_type == old(state).mime_type,
        end == LevelEnd::Boundary ==> old(state).mime_type == MimeType::Message,
        end == LevelEnd::Closed ==> old(state).mime_type != MimeType::Message,
        old(state).mime_boundary is None && final(message).parts@.len() > old(
            message,
        ).parts@.len() ==> ends_well(
            final(message).parts[old(message).parts@.len() as int],
            old(stream).data@,
        ),
        (end, Step { pos: final(stream).pos as int, message: final(message)@, state: final(state)@ })
            == walk::walk(
            old(stream).data@,
            old(stream).pos as int,
            old(message)@,
            old(state)@,
            depth as nat,
        ),
    decreases depth, 2nat,
{
    let total: usize = stream.data.len();
    let ghost len = total as int;
    let ghost raw = stream.data@;
    let ghost before = *old(message);
    let ghost first = before.parts@.len() as int;
    let ghost entry = old(stream).pos as int;
    let ghost found = headers_at(old(stream).data@, entry).1;
    let ghost goal = walk::walk(old(stream).data@, entry, before@, old(state)@, depth as nat);
    proof {
        extends_itself(before, None);
    }
    loop
        invariant
            stream.data == old(stream).data,
            total == stream.data@.len(),
            len == total,
            raw == stream.data@,
            entry <= stream.pos <= total,
            message.wf(raw),
            extends(before, *message, None),
            before == *old(message),
            entry == old(stream).pos,
            first == before.parts@.len(),
            state.fits(*message, stream.pos as int),
            state.mime_type == old(state).mime_type,
            state.part_id == old(state).part_id,
            old(state).fits(before, entry),
            found == headers_at(stream.data@, entry).1,
            goal == walk::walk(old(stream).data@, entry, before@, old(state)@, depth as nat),
            goal == walk::walk(stream.data@, stream.pos as int, message@, state@, depth as nat),
            old(state).mime_boundary is None && message.parts@.len() > first ==> ends_well(
                message.parts[first],
                raw,
            ),
            message.parts@.len() == first ==> {
                &&& state.mime_boundary == old(state).mime_boundary
                &&& stream.pos == entry
                &&& message.html_body == before.html_body
                &&& message.text_body == before.text_body
                &&& message.attachments == before.attachments
            },
            message.parts@.len() > first ==> {
                &&& found.len() > 0
                &&& message.parts[first].offset_header == entry
                &&& headers_view(message.parts[first].headers@) == found
            },
        decreases total - stream.pos,
    {
        let ghost at_round = *message;
        let ghost m_round = message@;
        let ghost s_round = state@;
        let ghost pos_round = stream.pos as int;
        proof {
            extends_len(before, at_round, None);
        }
        state.offset_header = stream.pos;
        let mut part_headers: Vec<Header> = Vec::new();
        let ghost none = headers_view(part_headers@);
        if !parse_headers(&mut part_headers, stream) {
            let ghost s0 = state@;
            close_level(message, state, stream.pos, Ghost(raw));
            proof {
                extends_twice(before, at_round, *message, old(state).own());
                if at_round.parts@.len() > first {
                    extends_keeps(at_round, *message, old(state).own(), first);
                }
                assert(goal == (
                    LevelEnd::Stop,
                    Step { pos: stream.pos as int, message: message@, state: state@ },
                ));
            }
            return LevelEnd::Stop;
        }
        assert(headers_view(part_headers@) =~= headers_at(
            stream.data@,
            state.offset_header as int,
        ).1) by {
            assert(none.len() == 0);
        }
        if state.parts < usize::MAX {
            state.parts += 1;
        }
        let info = part_info(&part_headers, &state.mime_type);
        let ghost the_headers = part_headers;
        let ghost the_offset = state.offset_header as int;
        let ghost s1 = state@;
        let ghost block = headers_at(stream.data@, pos_round);
        let ghost round = walk::part_read(
            stream.data@,
            block.0,
            m_round,
            s1,
            block.1,
            info@,
            depth as nat,
        );
        let (go_on, at_boundary) = read_part(stream, message, state, part_headers, &info, depth);
        assert(added(at_round, *message, the_headers, the_offset));
        let ghost with_part = *message;
        proof {
            assert(round.go_on == go_on);
            assert(round.at_boundary == at_boundary);
            assert(round.step == Step {
                pos: stream.pos as int,
                message: message@,
                state: state@,
            });
            extends_twice(before, at_round, with_part, None);
            if at_round.parts@.len() > first {
                extends_keeps(at_round, with_part, None, first);
            }
            assert(with_part.parts@.len() > first);
            assert(with_part.parts[first].offset_header == entry);
            assert(headers_view(with_part.parts[first].headers@) == found);
        }
        if !go_on {
            close_level(message, state, stream.pos, Ghost(raw));
            proof {
                extends_twice(before, with_part, *message, old(state).own());
                extends_keeps(with_part, *message, old(state).own(), first);
                assert(goal == (
                    LevelEnd::Stop,
                    Step { pos: stream.pos as int, message: message@, state: state@ },
                ));
            }
            return LevelEnd::Stop;
        }
        if at_boundary {
            match after_boundary(stream, message, state) {
                Some(end) => {
                    proof {
                        extends_twice(before, with_part, *message, old(state).own());
                        extends_keeps(with_part, *message, old(state).own(), first);
                        assert(goal == (
                            end,
                            Step { pos: stream.pos as int, message: message@, state: state@ },
                        ));
                    }
                    return end;
                },
                None => {},
            }
        }
        assert(goal == walk::walk(
            stream.data@,
            stream.pos as int,
            message@,
            state@,
            depth as nat,
        ));
    }
}

/// The rest of the line that ends a block of header fields lies before any
/// match that begins behind the block.
proof fn line_break_before_match(data: Seq<u8>, start: int, line: Seq<u8>)
    requires
        0 <= start <= data.len(),
        line.len() >= 2,
        line[0] == 45,
        crate::parsers::mime::first_match(data, start, line) is Some,
    ensures
        line_break_end(data, start) <= crate::parsers::mime::first_match(data, start, line)->0
            + line.len(),
{
    let at = crate::parsers::mime::first_match(data, start, line)->0;
    crate::parsers::mime::first_match_is_match(data, start, line);
    assert(data.subrange(at, at + line.len())[0] == line[0]);
    padding_stops_at(data, start, at);
}

/// White space runs up to the first byte that is none.
proof fn padding_stops_at(data: Seq<u8>, start: int, at: int)
    requires
        0 <= start <= at < data.len(),
        !crate::parsers::mime::is_padding(data[at]),
    ensures
        crate::parsers::mime::skip_padding(data, start) <= at,
    decreases at - start,
{
    if start < at && crate::parsers::mime::is_padding(data[start]) {
        padding_stops_at(data, start + 1, at);
    }
}

impl Message {
    /// Parses a raw message.
    ///
    /// Returns nothing if the message does not begin with a header field.
    /// Otherwise the result is the message that [`walk::parsed`] describes,
    /// part by part. It is sound in the sense of [`Message::wf`]: every part
    /// that a list or a multipart names exists, the offsets of every part
    /// are in order and within the raw message, a part is listed if and only
    /// if it is no multipart, and the body of a part to which no transfer
    /// encoding was applied is what stands in the raw message between its
    /// offsets. The first part is the root: it begins at offset zero with
    /// the header fields of the message and ends where the message ends.
    pub fn parse(raw_message: &[u8]) -> (r: Option<Message>)
        ensures
            r is Some == walk::parsed(raw_message@) is Some,
            r is Some == (headers_at(raw_message@, 0).1.len() > 0),
            r matches Some(message) ==> {
                &&& message@ == walk::parsed(raw_message@)->0
                &&& message.raw_message@ == raw_message@
                &&& message.wf(raw_message@)
                &&& message.parts@.len() > 0
                &&& message.parts[0].offset_header == 0
                &&& message.parts[0].offset_end == raw_message@.len()
                &&& headers_view(message.parts[0].headers@) == headers_at(raw_message@, 0).1
            },
    {
        let mut stream = MessageStream::new(raw_message);
        let mut message = Message::new();
        let mut state = MessageParserState::new();
        let ghost raw = raw_message@;
        let ghost w = walk::walk(
            raw_message@,
            0,
            MessageView::empty(),
            StateView::start(),
            MAX_NESTING as nat,
        );
        walk_level(&mut stream, &mut message, &mut state, MAX_NESTING);
        proof {
            crate::parts_view_index(message.parts@);
            assert(message@ == w.1.message);
        }
        if message.is_empty() {
            return None;
        }
        let ghost walked = message;
        message.raw_message = copy_range(raw_message, 0, raw_message.len());
        assert(message.raw_message@ =~= raw_message@);
        proof {
            wf_without_raw(walked, message, raw);
            assert(message@ == MessageView { raw_message: raw_message@, ..w.1.message });
        }
        let total: usize = raw_message.len();
        set_root_end(&mut message, total, Ghost(raw));
        Some(message)
    }
}

} // verus!
