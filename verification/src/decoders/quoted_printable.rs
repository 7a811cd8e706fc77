//! Quoted-printable decoding that stops at a MIME boundary.

use crate::decoders::DecodeResult;
use crate::decoders::DecodeResultView;
use crate::parsers::message::MessageStream;
use crate::parsers::mime::boundary_ends;
use crate::parsers::mime::is_boundary_end;
use vstd::prelude::*;

verus! {

/// Where the decoder stands between two bytes.
#[derive(Clone, Copy, Debug, PartialEq, Eq, Structural)]
pub enum QpMode {
    /// Outside an escape.
    Plain,
    /// An `=` was read.
    Escape,
    /// An `=` and the first hexadecimal digit were read.
    HighDigit,
}

/// Whether the decoder goes on, has met the boundary, or has given up.
#[derive(Clone, Copy, Debug, PartialEq, Eq, Structural)]
pub enum QpStatus {
    Running,
    Done,
    Failed,
}

/// The state of the decoder.
pub struct QpState {
    /// Number of input bytes read.
    pub read: int,
    /// The bytes decoded so far.
    pub out: Seq<u8>,
    pub mode: QpMode,
    /// Value of the first hexadecimal digit of an escape.
    pub high: u8,
    /// How many bytes of the boundary the last bytes read have matched.
    pub matched: int,
    /// Number of bytes that had been read when the last line feed was written.
    pub lf_pos: int,
    pub status: QpStatus,
}

/// The value of a hexadecimal digit.
pub open spec fn hex_value(b: u8) -> Option<u8> {
    if 48 <= b <= 57 {
        Some((b - 48) as u8)
    } else if 65 <= b <= 70 {
        Some((b - 55) as u8)
    } else if 97 <= b <= 102 {
        Some((b - 87) as u8)
    } else {
        None
    }
}

/// The value of a hexadecimal digit.
pub fn hex_digit(b: u8) -> (r: Option<u8>)
    ensures
        r == hex_value(b),
        r matches Some(v) ==> v < 16,
{
    if 48 <= b && b <= 57 {
        Some(b - 48)
    } else if 65 <= b && b <= 70 {
        Some(b - 55)
    } else if 97 <= b && b <= 102 {
        Some(b - 87)
    } else {
        None
    }
}

/// The state before the first byte.
pub open spec fn qp_start() -> QpState {
    QpState {
        read: 0,
        out: Seq::empty(),
        mode: QpMode::Plain,
        high: 0,
        matched: 0,
        lf_pos: 0,
        status: QpStatus::Running,
    }
}

/// Decodes the byte `ch`, which is no part of a boundary.
pub open spec fn qp_decode_byte(s: QpState, ch: u8, is_word: bool) -> QpState {
    if ch == 61 {
        if s.mode == QpMode::Plain {
            QpState { mode: QpMode::Escape, ..s }
        } else {
            QpState { status: QpStatus::Failed, ..s }
        }
    } else if ch == 10 {
        if is_word {
            QpState { status: QpStatus::Failed, ..s }
        } else if s.mode == QpMode::Escape {
            QpState { mode: QpMode::Plain, ..s }
        } else {
            QpState { out: s.out.push(10), lf_pos: s.read, ..s }
        }
    } else if ch == 95 && is_word {
        QpState { out: s.out.push(32), ..s }
    } else if ch == 13 {
        s
    } else {
        match s.mode {
            QpMode::Plain => QpState { out: s.out.push(ch), ..s },
            QpMode::Escape => match hex_value(ch) {
                Some(h) => QpState { mode: QpMode::HighDigit, high: h, ..s },
                None => QpState { status: QpStatus::Failed, ..s },
            },
            QpMode::HighDigit => match hex_value(ch) {
                Some(l) => QpState {
                    mode: QpMode::Plain,
                    out: s.out.push((s.high * 16 + l) as u8),
                    ..s
                },
                None => QpState { mode: QpMode::Plain, status: QpStatus::Failed, ..s },
            },
        }
    }
}

/// The bytes that were held back as a possible boundary, given up as text:
/// they are written out unless an escape was open.
pub open spec fn qp_release(s: QpState, held: Seq<u8>) -> QpState {
    QpState {
        out: if s.mode != QpMode::Escape {
            s.out + held
        } else {
            s.out
        },
        mode: QpMode::Plain,
        matched: 0,
        ..s
    }
}

/// Reads the next byte of `data`, which stands at `start + s.read`.
pub open spec fn qp_step(
    data: Seq<u8>,
    start: int,
    boundary: Seq<u8>,
    is_word: bool,
    s: QpState,
) -> QpState {
    let ch = data[start + s.read];
    let s1 = QpState { read: s.read + 1, ..s };
    if boundary.len() == 0 {
        qp_decode_byte(s1, ch, is_word)
    } else if ch == boundary[s.matched] {
        if s.matched + 1 == boundary.len() {
            if is_word {
                QpState { matched: s.matched + 1, status: QpStatus::Done, ..s1 }
            } else if boundary_ends(data, start + s1.read) {
                QpState {
                    matched: s.matched + 1,
                    status: QpStatus::Done,
                    out: if s1.read - boundary.len() == s.lf_pos && s.out.len() > 0 {
                        s.out.drop_last()
                    } else {
                        s.out
                    },
                    ..s1
                }
            } else {
                qp_release(s1, boundary)
            }
        } else {
            QpState { matched: s.matched + 1, ..s1 }
        }
    } else if s.matched > 0 {
        let s2 = qp_release(s1, boundary.take(s.matched));
        if ch == boundary[0] {
            QpState { matched: 1, ..s2 }
        } else {
            qp_decode_byte(s2, ch, is_word)
        }
    } else {
        qp_decode_byte(s1, ch, is_word)
    }
}

/// Reads bytes from state `s` on, until the decoder stops or the input ends.
pub open spec fn qp_run(
    data: Seq<u8>,
    start: int,
    boundary: Seq<u8>,
    is_word: bool,
    s: QpState,
) -> QpState
    decreases data.len() - start - s.read,
{
    if s.status != QpStatus::Running || s.read < 0 || start < 0 || start + s.read >= data.len() {
        s
    } else {
        qp_run(
            data,
            start,
            boundary,
            is_word,
            QpState { read: s.read + 1, ..qp_step(data, start, boundary, is_word, s) },
        )
    }
}

/// The state in which decoding of `data[start..]` ends.
pub open spec fn qp_final(data: Seq<u8>, start: int, boundary: Seq<u8>, is_word: bool) -> QpState {
    qp_run(data, start, boundary, is_word, qp_start())
}

/// Whether decoding ends well: at the boundary, or, where there is none to
/// meet, at the end of the input.
pub open spec fn qp_succeeds(f: QpState, boundary: Seq<u8>) -> bool {
    match f.status {
        QpStatus::Done => true,
        QpStatus::Failed => false,
        QpStatus::Running => boundary.len() == 0,
    }
}

/// What [`decode_quoted_printable`] returns: the number of bytes consumed
/// and the decoded bytes. On failure that is zero and nothing: what was
/// decoded before the failure is not returned.
pub open spec fn qp_result(data: Seq<u8>, start: int, boundary: Seq<u8>, is_word: bool) -> (
    int,
    DecodeResultView,
) {
    let f = qp_final(data, start, boundary, is_word);
    if qp_succeeds(f, boundary) {
        (
            f.read,
            if f.out.len() > 0 {
                DecodeResultView::Owned(f.out)
            } else {
                DecodeResultView::Empty
            },
        )
    } else {
        (0, DecodeResultView::Empty)
    }
}

/// What two decoder states share when they differ only in how far they have
/// read.
pub open spec fn qp_same_text(s: QpState, t: QpState) -> bool {
    s.out == t.out && s.mode == t.mode && s.high == t.high && s.status == t.status
}

/// Without a boundary, decoding the input `d` from within its prefix `x` goes
/// through the state in which decoding of `x` alone ends.
proof fn qp_run_through_prefix(x: Seq<u8>, d: Seq<u8>, is_word: bool, s: QpState)
    requires
        0 <= s.read <= x.len() <= d.len(),
        d.take(x.len() as int) == x,
    ensures
        qp_run(d, 0, Seq::empty(), is_word, s) == qp_run(
            d,
            0,
            Seq::empty(),
            is_word,
            qp_run(x, 0, Seq::empty(), is_word, s),
        ),
        qp_run(x, 0, Seq::empty(), is_word, s).status == QpStatus::Running ==> qp_run(
            x,
            0,
            Seq::empty(),
            is_word,
            s,
        ).read == x.len(),
    decreases x.len() - s.read,
{
    let e = Seq::<u8>::empty();
    if s.status == QpStatus::Running && s.read < x.len() {
        assert(d.take(x.len() as int)[s.read] == d[s.read]);
        let t = qp_step(x, 0, e, is_word, s);
        assert(t == qp_step(d, 0, e, is_word, s));
        qp_run_through_prefix(x, d, is_word, t);
    }
}

/// Without a boundary and outside encoded words, what is decoded from two
/// inputs that agree from the read positions on depends on the text state
/// alone.
proof fn qp_run_shifted(d1: Seq<u8>, s1: QpState, d2: Seq<u8>, s2: QpState)
    requires
        0 <= s1.read <= d1.len(),
        0 <= s2.read <= d2.len(),
        d1.len() - s1.read == d2.len() - s2.read,
        d1.skip(s1.read) == d2.skip(s2.read),
        qp_same_text(s1, s2),
    ensures
        qp_same_text(
            qp_run(d1, 0, Seq::empty(), false, s1),
            qp_run(d2, 0, Seq::empty(), false, s2),
        ),
        qp_run(d1, 0, Seq::empty(), false, s1).read - s1.read == qp_run(
            d2,
            0,
            Seq::empty(),
            false,
            s2,
        ).read - s2.read,
    decreases d1.len() - s1.read,
{
    let e = Seq::<u8>::empty();
    if s1.status == QpStatus::Running && s1.read < d1.len() {
        assert(d1.skip(s1.read)[0] == d1[s1.read]);
        assert(d2.skip(s2.read)[0] == d2[s2.read]);
        let t1 = qp_step(d1, 0, e, false, s1);
        let t2 = qp_step(d2, 0, e, false, s2);
        assert(d1.skip(t1.read) =~= d1.skip(s1.read).skip(1));
        assert(d2.skip(t2.read) =~= d2.skip(s2.read).skip(1));
        qp_run_shifted(d1, t1, d2, t2);
    }
}

/// A soft line break is elided. Where no boundary is to be met and `x` ends
/// outside an escape, the text decoded from `x`, a soft line break (`=` and a
/// line feed, with or without a carriage return between them) and `y` is the
/// text decoded from `x` and `y`; the one decoding fails if and only if the
/// other does, and a successful one consumes the whole input.
pub proof fn soft_line_break_is_elided(x: Seq<u8>, y: Seq<u8>, with_cr: bool)
    requires
        qp_final(x, 0, Seq::empty(), false).status == QpStatus::Running,
        qp_final(x, 0, Seq::empty(), false).mode == QpMode::Plain,
    ensures
        ({
            let soft = if with_cr {
                seq![61u8, 13u8, 10u8]
            } else {
                seq![61u8, 10u8]
            };
            let broken = qp_result(x + soft + y, 0, Seq::empty(), false);
            let joined = qp_result(x + y, 0, Seq::empty(), false);
            &&& broken.1 == joined.1
            &&& qp_final(x + soft + y, 0, Seq::empty(), false).status == qp_final(
                x + y,
                0,
                Seq::empty(),
                false,
            ).status
            &&& qp_final(x + y, 0, Seq::empty(), false).status == QpStatus::Running ==> {
                &&& joined.0 == x.len() + y.len()
                &&& broken.0 == x.len() + soft.len() + y.len()
            }
        }),
{
    let e = Seq::<u8>::empty();
    let soft = if with_cr {
        seq![61u8, 13u8, 10u8]
    } else {
        seq![61u8, 10u8]
    };
    let a = x + soft + y;
    let b = x + y;
    let sx = qp_final(x, 0, e, false);
    assert(a.take(x.len() as int) =~= x);
    assert(b.take(x.len() as int) =~= x);
    qp_run_through_prefix(x, a, false, qp_start());
    qp_run_through_prefix(x, b, false, qp_start());
    assert(sx.read == x.len());
    // over the soft line break
    let s1 = qp_step(a, 0, e, false, sx);
    assert(a[x.len() as int] == 61u8);
    assert(s1 == QpState { read: sx.read + 1, mode: QpMode::Escape, ..sx });
    if with_cr {
        assert(a[x.len() as int + 1] == 13u8);
        assert(a[x.len() as int + 2] == 10u8);
        let s2 = qp_step(a, 0, e, false, s1);
        assert(s2 == QpState { read: sx.read + 2, mode: QpMode::Escape, ..sx });
        let s3 = qp_step(a, 0, e, false, s2);
        assert(s3 == QpState { read: sx.read + 3, ..sx });
        assert(qp_run(a, 0, e, false, sx) == qp_run(a, 0, e, false, s1));
        assert(qp_run(a, 0, e, false, s1) == qp_run(a, 0, e, false, s2));
        assert(qp_run(a, 0, e, false, s2) == qp_run(a, 0, e, false, s3));
        assert(a.skip(s3.read) =~= y);
        assert(b.skip(sx.read) =~= y);
        qp_run_shifted(a, s3, b, sx);
    } else {
        assert(a[x.len() as int + 1] == 10u8);
        let s2 = qp_step(a, 0, e, false, s1);
        assert(s2 == QpState { read: sx.read + 2, ..sx });
        assert(qp_run(a, 0, e, false, sx) == qp_run(a, 0, e, false, s1));
        assert(qp_run(a, 0, e, false, s1) == qp_run(a, 0, e, false, s2));
        assert(a.skip(s2.read) =~= y);
        assert(b.skip(sx.read) =~= y);
        qp_run_shifted(a, s2, b, sx);
    }
    qp_run_reads_all(b, qp_start());
}

/// Where the decoder is still running at the end, it has read the whole
/// input.
proof fn qp_run_reads_all(d: Seq<u8>, s: QpState)
    requires
        0 <= s.read <= d.len(),
    ensures
        qp_run(d, 0, Seq::empty(), false, s).status == QpStatus::Running ==> qp_run(
            d,
            0,
            Seq::empty(),
            false,
            s,
        ).read == d.len(),
    decreases d.len() - s.read,
{
    if s.status == QpStatus::Running && s.read < d.len() {
        qp_run_reads_all(d, qp_step(d, 0, Seq::empty(), false, s));
    }
}

/// An encoded word in quoted-printable that was decoded holds no line feed,
/// and lies within the input.
pub proof fn qp_word_holds_no_line_feed(data: Seq<u8>, start: int)
    requires
        0 <= start <= data.len(),
        qp_result(data, start, seq![63u8, 61u8], true).0 > 0,
    ensures
        start + qp_result(data, start, seq![63u8, 61u8], true).0 <= data.len(),
        forall|k: int|
            start <= k < start + qp_result(data, start, seq![63u8, 61u8], true).0
                ==> #[trigger] data[k] != 10,
{
    qp_word_run_holds_no_line_feed(data, start, qp_start());
}

proof fn qp_word_run_holds_no_line_feed(data: Seq<u8>, start: int, s: QpState)
    requires
        0 <= start,
        0 <= s.read,
        start + s.read <= data.len(),
        s.status == QpStatus::Running ==> 0 <= s.matched < 2,
    ensures
        s.read <= qp_run(data, start, seq![63u8, 61u8], true, s).read,
        start + qp_run(data, start, seq![63u8, 61u8], true, s).read <= data.len(),
        s.status != QpStatus::Failed && qp_run(data, start, seq![63u8, 61u8], true, s).status
            != QpStatus::Failed ==> forall|k: int|
            start + s.read <= k < start + qp_run(data, start, seq![63u8, 61u8], true, s).read
                ==> #[trigger] data[k] != 10,
        s.status == QpStatus::Failed ==> qp_run(data, start, seq![63u8, 61u8], true, s) == s,
    decreases data.len() - start - s.read,
{
    let mark = seq![63u8, 61u8];
    if s.status == QpStatus::Running && start + s.read < data.len() {
        let t = QpState { read: s.read + 1, ..qp_step(data, start, mark, true, s) };
        assert(mark[0] == 63 && mark[1] == 61 && mark.len() == 2);
        qp_word_run_holds_no_line_feed(data, start, t);
        if data[start + s.read] == 10 {
            assert(t.status == QpStatus::Failed);
        }
    }
}

/// Without a boundary, decoding that succeeds consumes the whole input.
pub proof fn qp_without_boundary_reads_all(data: Seq<u8>, start: int, is_word: bool)
    requires
        0 <= start <= data.len(),
    ensures
        qp_result(data, start, Seq::empty(), is_word).0 == 0 || qp_result(
            data,
            start,
            Seq::empty(),
            is_word,
        ).0 == data.len() - start,
{
    qp_run_to_the_end(data, start, is_word, qp_start());
}

proof fn qp_run_to_the_end(data: Seq<u8>, start: int, is_word: bool, s: QpState)
    requires
        0 <= start,
        0 <= s.read,
        start + s.read <= data.len(),
        s.status != QpStatus::Done,
    ensures
        qp_run(data, start, Seq::empty(), is_word, s).status != QpStatus::Done,
        qp_run(data, start, Seq::empty(), is_word, s).status == QpStatus::Running ==> qp_run(
            data,
            start,
            Seq::empty(),
            is_word,
            s,
        ).read == data.len() - start,
    decreases data.len() - start - s.read,
{
    if s.status == QpStatus::Running && start + s.read < data.len() {
        qp_run_to_the_end(
            data,
            start,
            is_word,
            QpState { read: s.read + 1, ..qp_step(data, start, Seq::empty(), is_word, s) },
        );
    }
}

/// Decodes the quoted-printable text that starts at `start_pos`, up to
/// `boundary` or, if `boundary` is empty, to the end of the input. With
/// `is_word` the rules of encoded words apply: `_` stands for a space and a
/// line feed is an error.
///
/// Returns the number of bytes consumed, the boundary included, and the
/// decoded bytes. On failure, which is a malformed escape or a missing
/// boundary, it returns zero and nothing.
pub fn decode_quoted_printable(
    stream: &MessageStream,
    start_pos: usize,
    boundary: &[u8],
    is_word: bool,
) -> (r: (usize, DecodeResult))
    requires
        start_pos <= stream.data@.len(),
    ensures
        r.0 == qp_result(stream.data@, start_pos as int, boundary@, is_word).0,
        r.1@ == qp_result(stream.data@, start_pos as int, boundary@, is_word).1,
        start_pos + r.0 <= stream.data@.len(),
        !(r.1 is Borrowed),
{
    let len: usize = stream.data.len();
    let blen: usize = boundary.len();
    let mut buf: Vec<u8> = Vec::new();
    let mut read: usize = 0;
    let mut mode = QpMode::Plain;
    let mut high: u8 = 0;
    let mut matched: usize = 0;
    let mut lf_pos: usize = 0;
    let mut status = QpStatus::Running;

    while status == QpStatus::Running && read < len - start_pos
        invariant
            len == stream.data@.len(),
            blen == boundary@.len(),
            start_pos <= len,
            read <= len - start_pos,
            high < 16,
            blen == 0 ==> matched == 0,
            blen > 0 && status == QpStatus::Running ==> matched < blen,
            matched <= read,
            qp_final(stream.data@, start_pos as int, boundary@, is_word) == qp_run(
                stream.data@,
                start_pos as int,
                boundary@,
                is_word,
                QpState {
                    read: read as int,
                    out: buf@,
                    mode,
                    high,
                    matched: matched as int,
                    lf_pos: lf_pos as int,
                    status,
                },
            ),
        decreases
                (if status == QpStatus::Running {
                    1int
                } else {
                    0int
                }),
                len - start_pos - read,
    {
        let ghost s = QpState {
            read: read as int,
            out: buf@,
            mode,
            high,
            matched: matched as int,
            lf_pos: lf_pos as int,
            status,
        };
        let ghost next = qp_step(stream.data@, start_pos as int, boundary@, is_word, s);
        let ch: u8 = stream.data[start_pos + read];
        read += 1;

        let mut decode: bool = true;
        if blen > 0 {
            if ch == boundary[matched] {
                matched += 1;
                decode = false;
                if matched == blen {
                    if is_word {
                        status = QpStatus::Done;
                    } else if is_boundary_end(stream, start_pos + read) {
                        if read - blen == lf_pos && buf.len() > 0 {
                            buf.pop();
                        }
                        status = QpStatus::Done;
                    } else {
                        if mode != QpMode::Escape {
                            let mut k: usize = 0;
                            while k < blen
                                invariant
                                    blen == boundary@.len(),
                                    k <= blen,
                                    buf@ == s.out + boundary@.take(k as int),
                                decreases blen - k,
                            {
                                buf.push(boundary[k]);
                                assert(boundary@.take(k + 1) =~= boundary@.take(k as int).push(
                                    boundary@[k as int],
                                ));
                                assert(s.out + boundary@.take(k + 1) =~= (s.out + boundary@.take(
                                    k as int,
                                )).push(boundary@[k as int]));
                                k += 1;
                            }
                            assert(boundary@.take(blen as int) =~= boundary@);
                        }
                        mode = QpMode::Plain;
                        matched = 0;
                    }
                }
            } else if matched > 0 {
                if mode != QpMode::Escape {
                    let mut k: usize = 0;
                    assert(s.out + boundary@.take(0) =~= s.out);
                    while k < matched
                        invariant
                            blen == boundary@.len(),
                            k <= matched < blen,
                            buf@ == s.out + boundary@.take(k as int),
                        decreases matched - k,
                    {
                        buf.push(boundary[k]);
                        assert(boundary@.take(k + 1) =~= boundary@.take(k as int).push(
                            boundary@[k as int],
                        ));
                        assert(s.out + boundary@.take(k + 1) =~= (s.out + boundary@.take(
                            k as int,
                        )).push(boundary@[k as int]));
                        k += 1;
                    }
                }
                mode = QpMode::Plain;
                if ch == boundary[0] {
                    matched = 1;
                    decode = false;
                } else {
                    matched = 0;
                }
            }
        }
        if decode {
            if ch == 61 {
                if mode == QpMode::Plain {
                    mode = QpMode::Escape;
                } else {
                    status = QpStatus::Failed;
                }
            } else if ch == 10 {
                if is_word {
                    status = QpStatus::Failed;
                } else if mode == QpMode::Escape {
                    mode = QpMode::Plain;
                } else {
                    buf.push(10);
                    lf_pos = read;
                }
            } else if ch == 95 && is_word {
                buf.push(32);
            } else if ch == 13 {
            } else {
                match mode {
                    QpMode::Plain => {
                        buf.push(ch);
                    },
                    QpMode::Escape => match hex_digit(ch) {
                        Some(h) => {
                            mode = QpMode::HighDigit;
                            high = h;
                        },
                        None => {
                            status = QpStatus::Failed;
                        },
                    },
                    QpMode::HighDigit => match hex_digit(ch) {
                        Some(l) => {
                            mode = QpMode::Plain;
                            buf.push(high * 16 + l);
                        },
                        None => {
                            mode = QpMode::Plain;
                            status = QpStatus::Failed;
                        },
                    },
                }
            }
        }
        assert(next == QpState {
            read: read as int,
            out: buf@,
            mode,
            high,
            matched: matched as int,
            lf_pos: lf_pos as int,
            status,
        });
    }
    let success: bool = match status {
        QpStatus::Done => true,
        QpStatus::Failed => false,
        QpStatus::Running => blen == 0,
    };
    if !success {
        (0, DecodeResult::Empty)
    } else if buf.len() > 0 {
        (read, DecodeResult::Owned(buf))
    } else {
        (read, DecodeResult::Empty)
    }
}

} // verus!
