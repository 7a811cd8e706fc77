//! Building the tree of parts.

use crate::all_below;
use crate::parts_view_index;
use crate::parts_view_push;
use crate::parts_view_update;
use crate::AttachmentView;
use crate::BodyView;
use crate::Message;
use crate::MessageAttachment;
use crate::MessagePart;
use crate::MessagePartId;
use crate::PartType;
use vstd::prelude::*;

verus! {

/// What a list holds after a number was appended.
pub proof fn push_contains(s: Seq<MessagePartId>, x: MessagePartId, y: MessagePartId)
    ensures
        s.push(x).contains(y) == (s.contains(y) || x == y),
{
    if s.contains(y) {
        let i = choose|i: int| 0 <= i < s.len() && s[i] == y;
        assert(s.push(x)[i] == y);
    }
    if x == y {
        assert(s.push(x)[s.len() as int] == y);
    }
    if s.push(x).contains(y) {
        let i = choose|i: int| 0 <= i < s.push(x).len() && s.push(x)[i] == y;
        if i < s.len() {
            assert(s[i] == y);
        }
    }
}

/// A list of numbers below a bound does not hold the bound.
pub proof fn below_excludes(s: Seq<MessagePartId>, bound: MessagePartId)
    requires
        all_below(s, bound as int),
    ensures
        !s.contains(bound),
{
    if s.contains(bound) {
        let i = choose|i: int| 0 <= i < s.len() && s[i] == bound;
        assert(s[i] < bound);
    }
}

/// Whether a part may join a message that was parsed from `raw.len()` bytes and
/// has `count` parts: its offsets are in order, a multipart has no parts yet
/// and a message within is sound.
pub open spec fn part_fits(part: MessagePart, raw: Seq<u8>) -> bool {
    &&& part.offsets_ordered(raw.len() as int)
    &&& crate::parsers::part::part_is_slice(part, raw)
    &&& match part.body {
        PartType::Multipart(children) => children@.len() == 0,
        PartType::Message(MessageAttachment::Parsed(nested)) => nested.wf(raw),
        _ => true,
    }
}

/// Appends `id` to `list` if `wanted`.
fn push_if(list: &mut Vec<MessagePartId>, wanted: bool, id: MessagePartId)
    ensures
        final(list)@ == if wanted {
            old(list)@.push(id)
        } else {
            old(list)@
        },
{
    if wanted {
        list.push(id);
    }
}

/// Adds a part to the message and its number to the lists asked for. A
/// multipart goes into no list, every other part into one at least, and a
/// part that holds a message into the attachments.
pub fn add_part(
    message: &mut Message,
    part: MessagePart,
    to_html: bool,
    to_text: bool,
    to_attachments: bool,
    Ghost(raw): Ghost<Seq<u8>>,
) -> (id: MessagePartId)
    requires
        old(message).wf(raw),
        part_fits(part, raw),
        (to_html || to_text || to_attachments) == !part.is_multipart(),
        part.body is Message ==> to_attachments,
    ensures
        final(message).wf(raw),
        id == old(message).parts@.len(),
        final(message).parts@ == old(message).parts@.push(part),
        final(message).html_body@ == if to_html {
            old(message).html_body@.push(id)
        } else {
            old(message).html_body@
        },
        final(message).text_body@ == if to_text {
            old(message).text_body@.push(id)
        } else {
            old(message).text_body@
        },
        final(message).attachments@ == if to_attachments {
            old(message).attachments@.push(id)
        } else {
            old(message).attachments@
        },
        final(message).raw_message == old(message).raw_message,
        final(message)@ == old(message)@.with_part(part@, to_html, to_text, to_attachments),
        id == old(message)@.parts.len(),
{
    let id: MessagePartId = message.parts.len();
    proof {
        parts_view_push(message.parts@, part);
        parts_view_index(message.parts@);
    }
    proof {
        reveal_with_fuel(Message::wf, 2);
        below_excludes(message.html_body@, id);
        below_excludes(message.text_body@, id);
        below_excludes(message.attachments@, id);
    }
    push_if(&mut message.html_body, to_html, id);
    push_if(&mut message.text_body, to_text, id);
    push_if(&mut message.attachments, to_attachments, id);
    message.parts.push(part);
    proof {
        let m = *message;
        let o = *old(message);
        assert forall|i: int| 0 <= i < m.parts@.len() implies {
            &&& (#[trigger] m.parts[i]).offsets_ordered(raw.len() as int)
            &&& m.listed(i as usize) == !m.parts[i].is_multipart()
            &&& crate::parsers::part::part_is_slice(m.parts[i], raw)
            &&& match m.parts[i].body {
                PartType::Multipart(children) => all_below(children@, m.parts@.len() as int),
                PartType::Message(MessageAttachment::Parsed(nested)) => {
                    &&& m.attachments@.contains(i as usize)
                    &&& nested.wf(raw)
                },
                PartType::Message(MessageAttachment::Raw(_)) => m.attachments@.contains(
                    i as usize,
                ),
                _ => true,
            }
        } by {
            push_contains(o.html_body@, id, i as usize);
            push_contains(o.text_body@, id, i as usize);
            push_contains(o.attachments@, id, i as usize);
            if i < o.parts@.len() {
                assert(m.parts[i] == o.parts[i]);
                assert(o.parts[i].offsets_ordered(raw.len() as int));
                assert(m.listed(i as usize) == o.listed(i as usize));
            } else {
                assert(m.parts[i] == part);
                assert(m.listed(id) == (to_html || to_text || to_attachments));
            }
        }
    }
    id
}

/// Ends a multipart: it gets its parts and the offset at which it ends.
pub fn close_multipart(
    message: &mut Message,
    part_id: MessagePartId,
    children: Vec<MessagePartId>,
    offset_end: usize,
    Ghost(raw): Ghost<Seq<u8>>,
)
    requires
        old(message).wf(raw),
        part_id < old(message).parts@.len(),
        old(message).parts[part_id as int].is_multipart(),
        all_below(children@, old(message).parts@.len() as int),
        old(message).parts[part_id as int].offset_body <= offset_end <= raw.len(),
    ensures
        final(message).wf(raw),
        final(message).parts@.len() == old(message).parts@.len(),
        forall|i: int|
            0 <= i < old(message).parts@.len() && i != part_id ==> final(message).parts[i] == old(
                message,
            ).parts[i],
        final(message).parts[part_id as int].body == PartType::Multipart(children),
        final(message).parts[part_id as int].offset_end == offset_end,
        final(message).parts[part_id as int].offset_body == old(message).parts[part_id as int].offset_body,
        final(message).parts[part_id as int].offset_header == old(message).parts[part_id as int].offset_header,
        final(message).parts[part_id as int].headers == old(message).parts[part_id as int].headers,
        final(message).html_body == old(message).html_body,
        final(message).text_body == old(message).text_body,
        final(message).attachments == old(message).attachments,
        final(message).raw_message == old(message).raw_message,
        final(message)@ == old(message)@.with_body(
            part_id as int,
            BodyView::Multipart(children@),
            offset_end,
        ),
{
    proof {
        reveal_with_fuel(Message::wf, 2);
    }
    let part = &mut message.parts[part_id];
    part.offset_end = offset_end;
    part.body = PartType::Multipart(children);
    proof {
        assert(message.parts@ =~= old(message).parts@.update(
            part_id as int,
            message.parts[part_id as int],
        ));
        parts_view_update(old(message).parts@, part_id as int, message.parts[part_id as int]);
        parts_view_index(old(message).parts@);
    }
    proof {
        let m = *message;
        let o = *old(message);
        assert forall|i: int| 0 <= i < m.parts@.len() implies {
            &&& (#[trigger] m.parts[i]).offsets_ordered(raw.len() as int)
            &&& m.listed(i as usize) == !m.parts[i].is_multipart()
            &&& crate::parsers::part::part_is_slice(m.parts[i], raw)
            &&& match m.parts[i].body {
                PartType::Multipart(children) => all_below(children@, m.parts@.len() as int),
                PartType::Message(MessageAttachment::Parsed(nested)) => {
                    &&& m.attachments@.contains(i as usize)
                    &&& nested.wf(raw)
                },
                PartType::Message(MessageAttachment::Raw(_)) => m.attachments@.contains(
                    i as usize,
                ),
                _ => true,
            }
        } by {
            assert(o.parts[i].offsets_ordered(raw.len() as int));
            assert(m.listed(i as usize) == o.listed(i as usize));
            if i != part_id {
                assert(m.parts[i] == o.parts[i]);
            }
        }
    }
}

/// Puts a message that was parsed into the part that holds it, which ends at
/// the offset given.
pub fn attach_message(
    message: &mut Message,
    part_id: MessagePartId,
    nested: Message,
    offset_end: usize,
    Ghost(raw): Ghost<Seq<u8>>,
)
    requires
        old(message).wf(raw),
        nested.wf(raw),
        part_id < old(message).parts@.len(),
        old(message).parts[part_id as int].body is Message,
        old(message).parts[part_id as int].offset_body <= offset_end <= raw.len(),
    ensures
        final(message).wf(raw),
        final(message).parts@.len() == old(message).parts@.len(),
        forall|i: int|
            0 <= i < old(message).parts@.len() && i != part_id ==> final(message).parts[i] == old(
                message,
            ).parts[i],
        final(message).parts[part_id as int].body == PartType::Message(
            MessageAttachment::Parsed(Box::new(nested)),
        ),
        final(message).parts[part_id as int].offset_end == offset_end,
        final(message).parts[part_id as int].offset_body == old(message).parts[part_id as int].offset_body,
        final(message).parts[part_id as int].offset_header == old(message).parts[part_id as int].offset_header,
        final(message).parts[part_id as int].headers == old(message).parts[part_id as int].headers,
        final(message).html_body == old(message).html_body,
        final(message).text_body == old(message).text_body,
        final(message).attachments == old(message).attachments,
        final(message).raw_message == old(message).raw_message,
        final(message)@ == old(message)@.with_body(
            part_id as int,
            BodyView::Message(AttachmentView::Parsed(nested@)),
            offset_end,
        ),
{
    proof {
        reveal_with_fuel(Message::wf, 2);
    }
    let part = &mut message.parts[part_id];
    part.offset_end = offset_end;
    part.body = PartType::Message(MessageAttachment::Parsed(Box::new(nested)));
    proof {
        assert(message.parts@ =~= old(message).parts@.update(
            part_id as int,
            message.parts[part_id as int],
        ));
        parts_view_update(old(message).parts@, part_id as int, message.parts[part_id as int]);
        parts_view_index(old(message).parts@);
    }
    proof {
        let m = *message;
        let o = *old(message);
        assert forall|i: int| 0 <= i < m.parts@.len() implies {
            &&& (#[trigger] m.parts[i]).offsets_ordered(raw.len() as int)
            &&& m.listed(i as usize) == !m.parts[i].is_multipart()
            &&& crate::parsers::part::part_is_slice(m.parts[i], raw)
            &&& match m.parts[i].body {
                PartType::Multipart(children) => all_below(children@, m.parts@.len() as int),
                PartType::Message(MessageAttachment::Parsed(nested)) => {
                    &&& m.attachments@.contains(i as usize)
                    &&& nested.wf(raw)
                },
                PartType::Message(MessageAttachment::Raw(_)) => m.attachments@.contains(
                    i as usize,
                ),
                _ => true,
            }
        } by {
            assert(o.parts[i].offsets_ordered(raw.len() as int));
            assert(m.listed(i as usize) == o.listed(i as usize));
            if i != part_id {
                assert(m.parts[i] == o.parts[i]);
            }
        }
    }
}

/// Appends to `to` the numbers that `from` holds from the index `start` on.
fn copy_ids(to: &mut Vec<MessagePartId>, from: &Vec<MessagePartId>, start: usize)
    ensures
        final(to)@ == old(to)@ + if start <= from@.len() {
            from@.skip(start as int)
        } else {
            Seq::empty()
        },
{
    let mut i: usize = start;
    if start > from.len() {
        assert(to@ =~= old(to)@ + Seq::<MessagePartId>::empty());
        return ;
    }
    assert(to@ =~= old(to)@ + from@.subrange(start as int, i as int));
    while i < from.len()
        invariant
            start <= i <= from@.len(),
            to@ == old(to)@ + from@.subrange(start as int, i as int),
        decreases from@.len() - i,
    {
        to.push(from[i]);
        assert(from@.subrange(start as int, i + 1) =~= from@.subrange(start as int, i as int).push(
            from@[i as int],
        ));
        assert(old(to)@ + from@.subrange(start as int, i + 1) =~= (old(to)@ + from@.subrange(
            start as int,
            i as int,
        )).push(from@[i as int]));
        i += 1;
    }
    assert(from@.subrange(start as int, from@.len() as int) =~= from@.skip(start as int));
}

/// The text body after a `multipart/alternative` has ended that brought
/// HTML only: the HTML parts that it brought stand in for the text.
pub open spec fn mirrored_text(message: Message, html_parts: int, text_parts: int) -> Seq<
    MessagePartId,
> {
    if text_parts == message.text_body@.len() && html_parts != message.html_body@.len()
        && 0 <= html_parts <= message.html_body@.len() {
        message.text_body@ + message.html_body@.skip(html_parts)
    } else {
        message.text_body@
    }
}

/// The HTML body after a `multipart/alternative` has ended that brought text
/// only: the text parts stand in for the HTML, from the index on at which
/// the HTML body stood when the alternative began.
pub open spec fn mirrored_html(message: Message, html_parts: int, text_parts: int) -> Seq<
    MessagePartId,
> {
    if html_parts == message.html_body@.len() && text_parts != message.text_body@.len()
        && 0 <= html_parts <= message.text_body@.len() {
        message.html_body@ + message.text_body@.skip(html_parts)
    } else {
        message.html_body@
    }
}

/// Whether appending `more` keeps what is listed: all of `more` is listed
/// already.
proof fn listed_after_append(s: Seq<MessagePartId>, more: Seq<MessagePartId>, y: MessagePartId)
    ensures
        (s + more).contains(y) == (s.contains(y) || more.contains(y)),
{
    if s.contains(y) {
        let i = choose|i: int| 0 <= i < s.len() && s[i] == y;
        assert((s + more)[i] == y);
    }
    if more.contains(y) {
        let i = choose|i: int| 0 <= i < more.len() && more[i] == y;
        assert((s + more)[s.len() + i] == y);
    }
    if (s + more).contains(y) {
        let i = choose|i: int| 0 <= i < (s + more).len() && (s + more)[i] == y;
        if i < s.len() {
            assert(s[i] == y);
        } else {
            assert(more[i - s.len()] == y);
        }
    }
}

/// Lets the one body stand in for the other after a `multipart/alternative`
/// that brought one kind only. `html_parts` and `text_parts` are the lengths
/// that the two bodies had when the alternative began.
pub fn mirror_bodies(
    message: &mut Message,
    html_parts: usize,
    text_parts: usize,
    Ghost(raw): Ghost<Seq<u8>>,
)
    requires
        old(message).wf(raw),
    ensures
        final(message).wf(raw),
        final(message).parts == old(message).parts,
        final(message).attachments == old(message).attachments,
        final(message).raw_message == old(message).raw_message,
        final(message).text_body@ == mirrored_text(
            *old(message),
            html_parts as int,
            text_parts as int,
        ),
        final(message).html_body@ == mirrored_html(
            *old(message),
            html_parts as int,
            text_parts as int,
        ),
        final(message)@ == old(message)@.mirrored(html_parts as int, text_parts as int),
{
    proof {
        reveal_with_fuel(Message::wf, 2);
    }
    let html_only: bool = text_parts == message.text_body.len() && html_parts
        != message.html_body.len();
    let text_only: bool = html_parts == message.html_body.len() && text_parts
        != message.text_body.len();
    if html_only {
        copy_ids(&mut message.text_body, &message.html_body, html_parts);
    }
    if text_only {
        let ids = Vec::new();
        let mut ids = ids;
        copy_ids(&mut ids, &message.text_body, html_parts);
        let none: Vec<MessagePartId> = Vec::new();
        assert(none@ + ids@ =~= ids@);
        copy_ids(&mut message.html_body, &ids, 0);
        assert(ids@.skip(0) =~= ids@);
    }
    proof {
        let m = *message;
        let o = *old(message);
        assert(m.text_body@ == mirrored_text(o, html_parts as int, text_parts as int)) by {
            assert(o.text_body@ + Seq::<MessagePartId>::empty() =~= o.text_body@);
        }
        assert(m.html_body@ == mirrored_html(o, html_parts as int, text_parts as int)) by {
            assert(o.html_body@ + Seq::<MessagePartId>::empty() =~= o.html_body@);
        }
        let more_text = if html_only && html_parts <= o.html_body@.len() {
            o.html_body@.skip(html_parts as int)
        } else {
            Seq::<MessagePartId>::empty()
        };
        let more_html = if text_only && html_parts <= o.text_body@.len() {
            o.text_body@.skip(html_parts as int)
        } else {
            Seq::<MessagePartId>::empty()
        };
        assert(m.text_body@ =~= o.text_body@ + more_text);
        assert(m.html_body@ =~= o.html_body@ + more_html);
        assert forall|y: MessagePartId| m.listed(y) == o.listed(y) by {
            listed_after_append(o.text_body@, more_text, y);
            listed_after_append(o.html_body@, more_html, y);
            if more_text.contains(y) {
                let i = choose|i: int| 0 <= i < more_text.len() && more_text[i] == y;
                assert(o.html_body@[html_parts + i] == y);
            }
            if more_html.contains(y) {
                let i = choose|i: int| 0 <= i < more_html.len() && more_html[i] == y;
                assert(o.text_body@[html_parts + i] == y);
            }
        }
        assert(all_below(m.text_body@, m.parts@.len() as int)) by {
            assert forall|i: int| 0 <= i < m.text_body@.len() implies #[trigger] m.text_body@[i]
                < m.parts@.len() by {
                if i >= o.text_body@.len() {
                    assert(m.text_body@[i] == o.html_body@[html_parts + (i - o.text_body@.len())]);
                }
            }
        }
        assert(all_below(m.html_body@, m.parts@.len() as int)) by {
            assert forall|i: int| 0 <= i < m.html_body@.len() implies #[trigger] m.html_body@[i]
                < m.parts@.len() by {
                if i >= o.html_body@.len() {
                    assert(m.html_body@[i] == o.text_body@[html_parts + (i - o.html_body@.len())]);
                }
            }
        }
        assert forall|i: int| 0 <= i < m.parts@.len() implies {
            &&& (#[trigger] m.parts[i]).offsets_ordered(raw.len() as int)
            &&& m.listed(i as usize) == !m.parts[i].is_multipart()
            &&& crate::parsers::part::part_is_slice(m.parts[i], raw)
            &&& match m.parts[i].body {
                PartType::Multipart(children) => all_below(children@, m.parts@.len() as int),
                PartType::Message(MessageAttachment::Parsed(nested)) => {
                    &&& m.attachments@.contains(i as usize)
                    &&& nested.wf(raw)
                },
                PartType::Message(MessageAttachment::Raw(_)) => m.attachments@.contains(
                    i as usize,
                ),
                _ => true,
            }
        } by {
            assert(o.parts[i].offsets_ordered(raw.len() as int));
            assert(m.listed(i as usize) == o.listed(i as usize));
        }
    }
}

/// Whether a part ends where the raw message ends, or is a multipart or a
/// message that was parsed, whose end says nothing about its body.
pub open spec fn ends_well(part: MessagePart, raw: Seq<u8>) -> bool {
    ||| part.body is Multipart
    ||| part.body matches PartType::Message(MessageAttachment::Parsed(_))
    ||| part.offset_end == raw.len()
}

/// Lets the root end where the message ends.
pub fn set_root_end(message: &mut Message, total: usize, Ghost(raw): Ghost<Seq<u8>>)
    requires
        total == raw.len(),
        old(message).wf(raw),
        old(message).parts@.len() > 0,
        ends_well(old(message).parts[0], raw),
    ensures
        final(message).wf(raw),
        final(message).parts@.len() == old(message).parts@.len(),
        final(message).raw_message == old(message).raw_message,
        final(message).parts[0].offset_end == total,
        final(message).parts[0].offset_header == old(message).parts[0].offset_header,
        final(message).parts[0].headers == old(message).parts[0].headers,
        final(message)@ == old(message)@.with_body(0, old(message)@.parts[0].body, total),
{
    proof {
        reveal_with_fuel(Message::wf, 2);
        assert(message.parts[0].offsets_ordered(raw.len() as int));
    }
    let part = &mut message.parts[0];
    part.offset_end = total;
    proof {
        assert(message.parts@ =~= old(message).parts@.update(0, message.parts[0]));
        parts_view_update(old(message).parts@, 0, message.parts[0]);
        parts_view_index(old(message).parts@);
    }
    proof {
        let m = *message;
        let o = *old(message);
        assert forall|i: int| 0 <= i < m.parts@.len() implies {
            &&& (#[trigger] m.parts[i]).offsets_ordered(raw.len() as int)
            &&& m.listed(i as usize) == !m.parts[i].is_multipart()
            &&& crate::parsers::part::part_is_slice(m.parts[i], raw)
            &&& match m.parts[i].body {
                PartType::Multipart(children) => all_below(children@, m.parts@.len() as int),
                PartType::Message(MessageAttachment::Parsed(nested)) => {
                    &&& m.attachments@.contains(i as usize)
                    &&& nested.wf(raw)
                },
                PartType::Message(MessageAttachment::Raw(_)) => m.attachments@.contains(
                    i as usize,
                ),
                _ => true,
            }
        } by {
            assert(o.parts[i].offsets_ordered(raw.len() as int));
            assert(m.listed(i as usize) == o.listed(i as usize));
            if i != 0 {
                assert(m.parts[i] == o.parts[i]);
            }
        }
    }
}


} // verus!
