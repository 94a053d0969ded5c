//! What a consumer gets from a decoder, whatever the chunks are.
//!
//! A consumer feeds the decoder one chunk at a time and, after each, pulls
//! until the decoder asks for more, accepting every frame. The laws here
//! say that the items it gets are the frames of the text received, in the
//! order in which they lie on the wire, and that no way of cutting the
//! input into chunks changes them.

use vstd::prelude::*;
use crate::error::DispatchErrorView;
use vstd::utf8::{pop_first_scalar, valid_utf8, valid_utf8_concat};
use crate::stream::decoder::{
    after_accept, after_fail, after_feed, after_finish, after_poll, encoding_fault, frame_text,
    initial, is_live, lemma_poll_follows_wire_order, source_fault, utf8_error_text,
    waiting_bytes, DecoderView, FrameView, PullView,
};
use crate::stream::framing::{
    apply_line, block_len, bom, bom_len, empty_frame, field_value, first_line, fold_block, frames,
    name_len, payload, scan, RawFrame, COLON, LF, SPACE,
};
use crate::stream::laws::{
    lemma_block_len_bounds, lemma_bom_stable, lemma_first_line_bounds, lemma_line_len,
    lemma_name_len, lemma_scan_bounds, lemma_scan_idle, lemma_scan_stable,
};
use crate::stream::text::{
    lemma_ascii_byte_is_text, lemma_cut_at_ascii, lemma_part_is_text, lemma_text_chunking,
    lemma_text_len, text_front, text_rest,
};

verus! {

/// One item of the sequence that a consumer gets: a frame, or the error
/// that ends the sequence.
pub type Item = Result<FrameView, DispatchErrorView>;

/// What a consumer gets that pulls until the decoder has no frame left,
/// accepting each: the items, in order, and the decoder behind them.
pub open spec fn drain(v: DecoderView) -> (Seq<Item>, DecoderView)
    decreases v.buffer.len(),
{
    if !(v.phase is Accumulating) {
        (Seq::empty(), v)
    } else {
        let (w, pull) = after_poll(v);
        match pull {
            PullView::Frame(frame) => if w.buffer.len() < v.buffer.len() {
                let (later, z) = drain(after_accept(w));
                (seq![Ok(frame)] + later, z)
            } else {
                (seq![Ok(frame)], w)
            },
            PullView::Fault(error) => (seq![Err(error)], w),
            _ => (Seq::empty(), w),
        }
    }
}

/// What a consumer gets that feeds `chunks` one after another and drains
/// the decoder after each.
pub open spec fn run(v: DecoderView, chunks: Seq<Seq<u8>>) -> (Seq<Item>, DecoderView)
    decreases chunks.len(),
{
    if chunks.len() == 0 {
        (Seq::empty(), v)
    } else {
        let (items, w) = drain(after_feed(v, chunks[0]));
        let (later, z) = run(w, chunks.skip(1));
        (items + later, z)
    }
}

/// The chunks put together.
pub open spec fn joined(chunks: Seq<Seq<u8>>) -> Seq<u8>
    decreases chunks.len(),
{
    if chunks.len() == 0 {
        Seq::empty()
    } else {
        chunks[0] + joined(chunks.skip(1))
    }
}

/// The items that a run of frames gives: each frame as text, up to and
/// with the first that is no text, which ends the sequence.
pub open spec fn items_of(found: Seq<RawFrame>) -> Seq<Item>
    decreases found.len(),
{
    if found.len() == 0 {
        Seq::empty()
    } else {
        match frame_text(found[0]) {
            Ok(frame) => seq![Ok(frame)] + items_of(found.skip(1)),
            Err(detail) => seq![Err(encoding_fault(detail))],
        }
    }
}

/// Two decoders from which a consumer gets the same from here on: both
/// have ended in the same way, or they are the same.
pub open spec fn same_outcome(x: DecoderView, y: DecoderView) -> bool {
    x.phase == y.phase && x.input_open == y.input_open && (x.phase is Accumulating ==> x == y)
}

/// The decoder with more text behind its buffer and other bytes behind
/// the text.
pub open spec fn with_more(v: DecoderView, text: Seq<u8>, behind: Seq<u8>) -> DecoderView {
    DecoderView { buffer: v.buffer + text, pending: behind, ..v }
}

/// A pull that yields a frame takes bytes out of the buffer.
pub proof fn lemma_frame_shrinks_buffer(v: DecoderView)
    requires
        v.phase is Accumulating,
        after_poll(v).1 is Frame,
    ensures
        after_poll(v).0.buffer.len() < v.buffer.len(),
{
    match waiting_bytes(v) {
        None => {},
        Some(bytes) => {
            lemma_scan_bounds(bytes);
        },
    }
}

/// Feeding two chunks one after the other leaves the decoder as feeding
/// them as one chunk does.
pub proof fn lemma_feed_joins(v: DecoderView, a: Seq<u8>, b: Seq<u8>)
    ensures
        after_feed(after_feed(v, a), b) == after_feed(v, a + b),
{
    if is_live(v) && v.input_open {
        lemma_text_chunking(v.pending + a, b);
        assert(v.pending + (a + b) =~= (v.pending + a) + b);
        assert(v.buffer + text_front(v.pending + a) + text_front(text_rest(v.pending + a) + b)
            =~= v.buffer + (text_front(v.pending + a) + text_front(text_rest(v.pending + a) + b)));
    }
}

/// Text that arrives later does not change what a pull yields now. A pull
/// that yields a frame or a fault yields the same with more text behind
/// the buffer; a pull that asks for input leaves a decoder that, with the
/// text behind it, goes on as the first would have.
proof fn lemma_poll_with_more(v: DecoderView, text: Seq<u8>, behind: Seq<u8>)
    requires
        v.phase is Accumulating,
        v.input_open,
    ensures
        match after_poll(v) {
            (w, PullView::Frame(frame)) => after_poll(with_more(v, text, behind)) == (
                with_more(w, text, behind),
                PullView::Frame(frame),
            ),
            (w, PullView::Fault(error)) => after_poll(with_more(v, text, behind)) == (
                with_more(w, text, behind),
                PullView::Fault(error),
            ) && w.phase is Failed,
            (w, _) => after_poll(with_more(v, text, behind)) == after_poll(
                with_more(w, text, behind),
            ) && w.phase is Accumulating && w.input_open && w.pending == v.pending,
        },
{
    let more = with_more(v, text, behind);
    if !v.started && bom_len(v.buffer) is None {
    } else {
        if !v.started {
            lemma_bom_stable(v.buffer, text);
        }
        let k = if v.started {
            0
        } else {
            bom_len(v.buffer).unwrap()
        };
        let body = v.buffer.skip(k);
        assert(v.started ==> body =~= v.buffer);
        assert(more.buffer.skip(k) =~= body + text);
        assert(more.started ==> more.buffer.skip(k) =~= more.buffer);
        lemma_scan_bounds(body);
        let (found, n) = scan(body);
        match found {
            Some(raw) => {
                lemma_scan_stable(body, text);
                assert((body + text).skip(n) =~= body.skip(n) + text);
            },
            None => {
                lemma_scan_idle(body, text);
                let kept = body.skip(n);
                let w = after_poll(v).0;
                assert(w.buffer == kept && w.started);
                let later = with_more(w, text, behind);
                assert(later.buffer =~= kept + text);
                lemma_scan_bounds(kept + text);
                let (next, m) = scan(kept + text);
                assert((body + text).skip(n + m) =~= (kept + text).skip(m));
            },
        }
    }
}

/// Draining before more text arrives changes nothing: with the text behind
/// the buffer, a drained decoder goes on to give what the undrained one
/// would have given behind the items already taken.
proof fn lemma_drain_with_more(v: DecoderView, text: Seq<u8>, behind: Seq<u8>)
    requires
        v.phase is Accumulating,
        v.input_open,
    ensures
        drain(with_more(v, text, behind)).0 == drain(v).0 + drain(
            with_more(drain(v).1, text, behind),
        ).0,
        drain(with_more(v, text, behind)).1 == drain(with_more(drain(v).1, text, behind)).1,
        drain(v).1.pending == v.pending,
        drain(v).1.input_open,
        is_live(drain(v).1) ==> drain(v).1.phase is Accumulating,
    decreases v.buffer.len(),
{
    lemma_poll_with_more(v, text, behind);
    let more = with_more(v, text, behind);
    let (w, pull) = after_poll(v);
    match pull {
        PullView::Frame(frame) => {
            lemma_frame_shrinks_buffer(v);
            lemma_frame_shrinks_buffer(more);
            let next = after_accept(w);
            assert(after_accept(with_more(w, text, behind)) == with_more(next, text, behind));
            lemma_drain_with_more(next, text, behind);
            assert(drain(more).0 =~= drain(v).0 + drain(with_more(drain(v).1, text, behind)).0);
        },
        PullView::Fault(error) => {
            assert(drain(more).0 =~= drain(v).0 + drain(with_more(drain(v).1, text, behind)).0);
        },
        _ => {
            let later = with_more(w, text, behind);
            if after_poll(later).1 is Frame {
                lemma_frame_shrinks_buffer(later);
                lemma_frame_shrinks_buffer(more);
            }
            assert(drain(more) == drain(later));
            assert(drain(more).0 =~= drain(v).0 + drain(later).0);
        },
    }
}

/// A decoder that has ended gives a consumer nothing, whatever is fed.
proof fn lemma_run_of_ended(v: DecoderView, chunks: Seq<Seq<u8>>)
    requires
        !is_live(v),
    ensures
        run(v, chunks) == (Seq::<Item>::empty(), v),
    decreases chunks.len(),
{
    if chunks.len() > 0 {
        lemma_run_of_ended(v, chunks.skip(1));
        assert(run(v, chunks).0 =~= Seq::<Item>::empty());
    }
}

/// Draining a decoder and then feeding it gives, in all, what feeding it
/// first gives.
proof fn lemma_drain_then_feed(v: DecoderView, chunk: Seq<u8>)
    requires
        v.phase is Accumulating,
        v.input_open,
    ensures
        drain(after_feed(v, chunk)).0 == drain(v).0 + drain(after_feed(drain(v).1, chunk)).0,
        same_outcome(drain(after_feed(v, chunk)).1, drain(after_feed(drain(v).1, chunk)).1),
{
    let text = text_front(v.pending + chunk);
    let behind = text_rest(v.pending + chunk);
    lemma_drain_with_more(v, text, behind);
    let w = drain(v).1;
    assert(after_feed(v, chunk) == with_more(v, text, behind));
    if is_live(w) {
        assert(after_feed(w, chunk) == with_more(w, text, behind));
    } else {
        assert(after_feed(w, chunk) == w);
        assert(drain(v).0 + Seq::<Item>::empty() =~= drain(v).0);
    }
}

/// A drained decoder stays as it is when it is drained again.
proof fn lemma_drain_is_lasting(v: DecoderView)
    requires
        v.phase is Accumulating,
        v.input_open,
    ensures
        drain(drain(v).1) == (Seq::<Item>::empty(), drain(v).1),
    decreases v.buffer.len(),
{
    let (w, pull) = after_poll(v);
    match pull {
        PullView::Frame(frame) => {
            lemma_frame_shrinks_buffer(v);
            lemma_drain_is_lasting(after_accept(w));
        },
        PullView::Fault(error) => {},
        _ => {
            lemma_poll_with_more(v, Seq::empty(), v.pending);
            assert(with_more(v, Seq::empty(), v.pending).buffer =~= v.buffer);
            assert(with_more(w, Seq::empty(), v.pending).buffer =~= w.buffer);
            assert(with_more(v, Seq::empty(), v.pending) == v);
            assert(with_more(w, Seq::empty(), v.pending) == w);
            assert(after_poll(w) == after_poll(v));
        },
    }
}

/// No way of cutting the input into chunks changes what a consumer gets.
/// Fed chunk by chunk and drained after each, a decoder yields the items
/// that it yields when all the bytes arrive as one chunk: the same items
/// in the same order, none added, dropped, repeated or moved. It is also
/// left the same, so that what follows is the same too: the end of the
/// source closes it, or reports bytes held back, alike, and a failure of
/// the source yields the one error item alike.
pub proof fn lemma_run_ignores_cuts(v: DecoderView, chunks: Seq<Seq<u8>>)
    requires
        v.phase is Accumulating,
        v.input_open,
        chunks.len() > 0,
    ensures
        run(v, chunks).0 == drain(after_feed(v, joined(chunks))).0,
        same_outcome(run(v, chunks).1, drain(after_feed(v, joined(chunks))).1),
        drain(after_finish(run(v, chunks).1)).0 == drain(
            after_finish(drain(after_feed(v, joined(chunks))).1),
        ).0,
        forall|detail: Seq<char>|
            #[trigger] after_fail(run(v, chunks).1, detail).1 == after_fail(
                drain(after_feed(v, joined(chunks))).1,
                detail,
            ).1,
    decreases chunks.len(),
{
    let first = after_feed(v, chunks[0]);
    let rest = chunks.skip(1);
    let (items, w) = drain(first);
    lemma_drain_with_more(first, Seq::empty(), first.pending);
    if rest.len() == 0 {
        assert(joined(rest) =~= Seq::<u8>::empty());
        assert(joined(chunks) =~= chunks[0]);
        assert(run(w, rest) == (Seq::<Item>::empty(), w));
        assert(run(v, chunks).0 =~= items);
    } else {
        let all = joined(rest);
        lemma_feed_joins(v, chunks[0], all);
        lemma_drain_then_feed(first, all);
        if is_live(w) {
            lemma_run_ignores_cuts(w, rest);
        } else {
            lemma_run_of_ended(w, rest);
            assert(after_feed(w, all) == w);
        }
        assert(run(v, chunks).0 =~= drain(after_feed(v, joined(chunks))).0);
    }
}

/// What a consumer gets are the frames. Draining a decoder yields the
/// frames of the text that waits in it, each as text and in wire order, up
/// to and with the first that is no text.
pub proof fn lemma_drain_gives_frames(v: DecoderView)
    requires
        v.phase is Accumulating,
        v.input_open,
    ensures
        drain(v).0 == match waiting_bytes(v) {
            Some(bytes) => items_of(frames(bytes)),
            None => Seq::<Item>::empty(),
        },
    decreases v.buffer.len(),
{
    lemma_poll_follows_wire_order(v);
    match waiting_bytes(v) {
        None => {},
        Some(bytes) => {
            let (w, pull) = after_poll(v);
            match pull {
                PullView::Frame(frame) => {
                    lemma_frame_shrinks_buffer(v);
                    let next = after_accept(w);
                    lemma_drain_gives_frames(next);
                    assert(drain(v).0 =~= items_of(frames(bytes)));
                },
                PullView::Fault(error) => {
                    assert(drain(v).0 =~= items_of(frames(bytes)));
                },
                _ => {},
            }
        },
    }
}

/// Whether what the lines of a block have added up to is text: the name
/// and the data are UTF-8, and data that is there ends in a line feed.
pub open spec fn is_text_frame(frame: RawFrame) -> bool {
    valid_utf8(frame.name) && valid_utf8(frame.data) && (frame.data.len() > 0
        ==> frame.data.last() == LF)
}

/// A line of text adds text to a frame.
proof fn lemma_line_keeps_text(acc: RawFrame, line: Seq<u8>)
    requires
        valid_utf8(line),
        is_text_frame(acc),
    ensures
        is_text_frame(apply_line(acc, line)),
{
    if line.len() == 0 || line[0] == COLON {
    } else {
        lemma_name_len(line);
        let k = name_len(line);
        let value = field_value(line);
        if k < line.len() {
            if k + 1 < line.len() && line[k + 1] == SPACE {
                lemma_part_is_text(line, k + 2, line.len() as int);
            } else {
                lemma_part_is_text(line, k + 1, line.len() as int);
            }
        } else {
            assert(value.len() == 0);
        }
        lemma_ascii_byte_is_text(LF);
        valid_utf8_concat(acc.data, value);
        valid_utf8_concat(acc.data + value, seq![LF]);
    }
}

/// The first line of text is text, and so is what lies behind it.
proof fn lemma_line_of_text(s: Seq<u8>)
    requires
        valid_utf8(s),
    ensures
        first_line(s) matches Some((content, total)) ==> valid_utf8(s.subrange(0, content))
            && valid_utf8(s.skip(total)),
{
    lemma_first_line_bounds(s);
    lemma_line_len(s);
    match first_line(s) {
        None => {},
        Some((content, total)) => {
            lemma_part_is_text(s, 0, content);
            lemma_part_is_text(s, total, s.len() as int);
            assert(s.skip(total) =~= s.subrange(total, s.len() as int));
        },
    }
}

/// The lines of a block of text add up to text.
proof fn lemma_block_keeps_text(s: Seq<u8>, acc: RawFrame)
    requires
        valid_utf8(s),
        is_text_frame(acc),
    ensures
        is_text_frame(fold_block(s, acc)),
    decreases s.len(),
{
    lemma_first_line_bounds(s);
    lemma_line_of_text(s);
    match first_line(s) {
        None => {},
        Some((content, total)) => {
            if content != 0 {
                lemma_line_keeps_text(acc, s.subrange(0, content));
                lemma_block_keeps_text(s.skip(total), apply_line(acc, s.subrange(0, content)));
            }
        },
    }
}

/// What lies behind a block of text is text.
proof fn lemma_behind_block_is_text(s: Seq<u8>)
    requires
        valid_utf8(s),
    ensures
        block_len(s) matches Some(n) ==> valid_utf8(s.skip(n)),
    decreases s.len(),
{
    lemma_first_line_bounds(s);
    lemma_line_of_text(s);
    match first_line(s) {
        None => {},
        Some((content, total)) => {
            if content != 0 {
                lemma_behind_block_is_text(s.skip(total));
                lemma_block_len_bounds(s.skip(total));
                match block_len(s.skip(total)) {
                    Some(n) => {
                        assert(s.skip(total).skip(n) =~= s.skip(total + n));
                    },
                    None => {},
                }
            }
        },
    }
}

/// A frame found in text is text, and what a scan of text leaves is text.
pub proof fn lemma_scan_keeps_text(s: Seq<u8>)
    requires
        valid_utf8(s),
    ensures
        valid_utf8(s.skip(scan(s).1)),
        scan(s).0 matches Some(raw) ==> frame_text(raw) is Ok,
    decreases s.len(),
{
    lemma_block_len_bounds(s);
    lemma_behind_block_is_text(s);
    match block_len(s) {
        None => {
            assert(s.skip(0) =~= s);
        },
        Some(n) => {
            lemma_block_keeps_text(s, empty_frame());
            let raw = fold_block(s, empty_frame());
            if raw.data.len() > 0 {
                lemma_cut_at_ascii(raw.data, raw.data.len() - 1);
                assert(payload(raw) =~= raw.data.subrange(0, raw.data.len() - 1));
            } else {
                lemma_scan_keeps_text(s.skip(n));
                lemma_scan_bounds(s.skip(n));
                assert(s.skip(n).skip(scan(s.skip(n)).1) =~= s.skip(n + scan(s.skip(n)).1));
            }
        },
    }
}

/// Every frame of text is text: none of them ends the sequence with an
/// error, and each gives one item.
pub proof fn lemma_frames_of_text_are_text(s: Seq<u8>)
    requires
        valid_utf8(s),
    ensures
        items_of(frames(s)).len() == frames(s).len(),
        forall|i: int| 0 <= i < frames(s).len() ==> (#[trigger] items_of(frames(s))[i]) is Ok,
    decreases s.len(),
{
    lemma_scan_bounds(s);
    lemma_scan_keeps_text(s);
    match scan(s) {
        (Some(raw), n) => {
            let later = frames(s.skip(n));
            lemma_frames_of_text_are_text(s.skip(n));
            assert(frames(s) == seq![raw] + later);
            assert(frames(s)[0] == raw);
            assert(frames(s).skip(1) =~= later);
        },
        (None, _) => {},
    }
}

/// Whether the buffer of a decoder holds text.
pub open spec fn holds_text(v: DecoderView) -> bool {
    valid_utf8(v.buffer)
}

/// The buffer of a decoder holds text from the start and keeps doing so,
/// whatever is fed and pulled. So no frame that comes out of it is reported
/// as not being text: bytes that are no text never reach a frame.
pub proof fn lemma_buffer_holds_text(v: DecoderView, chunk: Seq<u8>)
    requires
        holds_text(v),
    ensures
        holds_text(initial()),
        holds_text(after_feed(v, chunk)),
        holds_text(after_poll(v).0),
        waiting_bytes(v) matches Some(bytes) ==> valid_utf8(bytes),
        after_poll(v).1 is Fault ==> !v.input_open && !valid_utf8(v.pending),
{
    lemma_text_len(v.pending + chunk);
    valid_utf8_concat(v.buffer, text_front(v.pending + chunk));
    match waiting_bytes(v) {
        None => {},
        Some(bytes) => {
            if !v.started && bom_len(v.buffer) == Some(3int) {
                let head = v.buffer.subrange(0, 3);
                assert(head[0] == v.buffer[0] && bom()[0] == 239);
                assert(pop_first_scalar(v.buffer) =~= v.buffer.skip(3));
            } else {
                assert(bytes =~= v.buffer);
            }
            lemma_scan_keeps_text(bytes);
        },
    }
}

/// A decoder whose buffer holds text is live behind what it gives while
/// its source is open.
proof fn lemma_drain_stays_live(v: DecoderView)
    requires
        v.phase is Accumulating,
        v.input_open,
        holds_text(v),
    ensures
        drain(v).1.phase is Accumulating,
    decreases v.buffer.len(),
{
    lemma_buffer_holds_text(v, Seq::empty());
    let (w, pull) = after_poll(v);
    match pull {
        PullView::Frame(frame) => {
            lemma_frame_shrinks_buffer(v);
            lemma_drain_stays_live(after_accept(w));
        },
        _ => {},
    }
}

/// What a consumer gets from a stream, start to end. Whatever the chunks
/// are, the items are the frames of the text that the bytes hold, each as
/// text and in wire order: one item for each frame, and no error among
/// them. The decoder is live behind them. If the source then ends, nothing
/// more comes but the end of the sequence, or, where bytes that are no
/// text were held back, the one error that reports them. If the source
/// fails instead, one error item comes, which carries the source's
/// message.
pub proof fn lemma_stream_yields_its_frames(chunks: Seq<Seq<u8>>, detail: Seq<char>)
    requires
        chunks.len() > 0,
    ensures
        run(initial(), chunks).0 == match waiting_bytes(
            after_feed(initial(), joined(chunks)),
        ) {
            Some(bytes) => items_of(frames(bytes)),
            None => Seq::<Item>::empty(),
        },
        waiting_bytes(after_feed(initial(), joined(chunks))) matches Some(bytes) ==> run(
            initial(),
            chunks,
        ).0.len() == frames(bytes).len(),
        forall|i: int|
            0 <= i < run(initial(), chunks).0.len() ==> (#[trigger] run(initial(), chunks).0[i])
                is Ok,
        is_live(run(initial(), chunks).1),
        is_live(run(initial(), chunks).1) ==> {
            let left = run(initial(), chunks).1;
            let held = after_feed(initial(), joined(chunks)).pending;
            &&& left.pending == held
            &&& drain(after_finish(left)).0 == if valid_utf8(held) {
                Seq::<Item>::empty()
            } else {
                seq![Err::<FrameView, DispatchErrorView>(encoding_fault(utf8_error_text(held)))]
            }
            &&& !is_live(drain(after_finish(left)).1)
            &&& after_fail(left, detail).1 == Some(source_fault(detail))
            &&& !is_live(after_fail(left, detail).0)
        },
{
    let start = initial();
    let fed = after_feed(start, joined(chunks));
    lemma_run_ignores_cuts(start, chunks);
    lemma_drain_gives_frames(fed);
    lemma_drain_with_more(fed, Seq::empty(), fed.pending);
    let left = run(start, chunks).1;
    lemma_buffer_holds_text(start, joined(chunks));
    lemma_buffer_holds_text(fed, Seq::empty());
    match waiting_bytes(fed) {
        Some(bytes) => {
            lemma_frames_of_text_are_text(bytes);
        },
        None => {},
    }
    lemma_drain_stays_live(fed);
    if is_live(left) {
        lemma_drain_is_lasting(fed);
        assert(left == drain(fed).1);
        let (w, pull) = after_poll(left);
        assert(drain(left) == (Seq::<Item>::empty(), left));
        if pull is Frame {
            lemma_frame_shrinks_buffer(left);
        }
        assert(w == left && pull is NeedInput);
        let ended = after_finish(left);
        if after_poll(ended).1 is Frame {
            lemma_frame_shrinks_buffer(ended);
        }
    }
}

} // verus!
