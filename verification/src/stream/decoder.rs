//! The decoder as a state machine: the caller feeds it the chunks of a
//! response body and pulls frames from it, one per call, in wire order.

use vstd::prelude::*;
use vstd::utf8::{decode_utf8, valid_utf8};
use crate::error::{DispatchError, DispatchErrorView};
use crate::stream::framing::{bom, bom_len, frames, payload, remainder, scan, RawFrame};
use crate::stream::laws::lemma_scan_bounds;
use crate::stream::scanner::scan_from;
use crate::stream::text::{is_text_len, lemma_text_len, text_front, text_rest};
use vstd::string::StringExecFns;

verus! {

/// One event of the stream: what a block of lines between two blank lines
/// carries.
#[derive(Debug, PartialEq, Eq)]
pub struct Frame {
    /// The event name, where the block gave one.
    pub event: Option<String>,
    /// The data lines of the block, joined by newlines.
    pub data: String,
}

/// The mathematical content of a [`Frame`].
pub struct FrameView {
    pub event: Option<Seq<char>>,
    pub data: Seq<char>,
}

impl View for Frame {
    type V = FrameView;

    open spec fn view(&self) -> FrameView {
        FrameView {
            event: match self.event {
                Some(name) => Some(name@),
                None => None,
            },
            data: self.data@,
        }
    }
}

impl Clone for Frame {
    fn clone(&self) -> (out: Self)
        ensures
            out@ == self@,
    {
        let event = match &self.event {
            Some(name) => Some(name.clone()),
            None => None,
        };
        Frame { event, data: self.data.clone() }
    }
}

/// Where a decoder stands.
#[derive(Debug, Clone, Copy, PartialEq, Eq, Structural)]
pub enum StreamState {
    /// Bytes are being gathered until a frame is complete.
    Accumulating,
    /// A frame has been handed out and waits for the verdict on its payload.
    FrameReady,
    /// The source or a payload failed. Nothing more is produced.
    Failed,
    /// The source ended and every frame has been handed out.
    Closed,
}

/// What a pull on the decoder yields.
#[derive(Debug, PartialEq, Eq)]
pub enum Pull {
    /// The next frame, to be decoded by the caller.
    Frame(Frame),
    /// No frame is complete: the decoder needs the next chunk, or the news
    /// that there is none.
    NeedInput,
    /// The stream is broken. This is its last item.
    Fault(DispatchError),
    /// The sequence is over.
    End,
}

/// The mathematical content of a [`Pull`].
pub enum PullView {
    Frame(FrameView),
    NeedInput,
    Fault(DispatchErrorView),
    End,
}

impl View for Pull {
    type V = PullView;

    open spec fn view(&self) -> PullView {
        match self {
            Pull::Frame(frame) => PullView::Frame(frame@),
            Pull::NeedInput => PullView::NeedInput,
            Pull::Fault(error) => PullView::Fault(error@),
            Pull::End => PullView::End,
        }
    }
}

/// The phase of a decoder, with the frame that waits in it.
pub enum PhaseView {
    Accumulating,
    FrameReady(FrameView),
    Failed,
    Closed,
}

/// The mathematical content of an [`EventStreamDecoder`].
pub struct DecoderView {
    /// Where the decoder stands.
    pub phase: PhaseView,
    /// Whether the start of the stream has been looked at for a byte order
    /// mark.
    pub started: bool,
    /// Whether the source may still deliver chunks.
    pub input_open: bool,
    /// The text received and not yet given out as frames, as bytes.
    pub buffer: Seq<u8>,
    /// The bytes received behind the text: the start of a character that
    /// is not complete yet, or bytes that are no UTF-8.
    pub pending: Seq<u8>,
}

/// What `String::from_utf8` of std says of bytes that are not UTF-8.
pub uninterp spec fn utf8_error_text(bytes: Seq<u8>) -> Seq<char>;

/// The text that a frame's bytes stand for, or what is said of the first
/// of its parts that is not UTF-8.
pub open spec fn frame_text(raw: RawFrame) -> Result<FrameView, Seq<char>> {
    if !valid_utf8(raw.name) {
        Err(utf8_error_text(raw.name))
    } else if !valid_utf8(payload(raw)) {
        Err(utf8_error_text(payload(raw)))
    } else {
        Ok(
            FrameView {
                event: if raw.name.len() == 0 {
                    None
                } else {
                    Some(decode_utf8(raw.name))
                },
                data: decode_utf8(payload(raw)),
            },
        )
    }
}

/// What is reported of bytes that are not UTF-8: the message of the
/// conversion, marked as an encoding error.
pub open spec fn encoding_fault(detail: Seq<char>) -> DispatchErrorView {
    DispatchErrorView::Transport { detail: "UTF8 error: "@ + detail }
}

/// What is reported of a source that failed: the source's message, marked
/// as a transport error.
pub open spec fn source_fault(detail: Seq<char>) -> DispatchErrorView {
    DispatchErrorView::Transport { detail: "Transport error: "@ + detail }
}

/// The decoder as it starts: nothing received, nothing decided.
pub open spec fn initial() -> DecoderView {
    DecoderView {
        phase: PhaseView::Accumulating,
        started: false,
        input_open: true,
        buffer: Seq::empty(),
        pending: Seq::empty(),
    }
}

/// Whether the decoder still produces items.
pub open spec fn is_live(v: DecoderView) -> bool {
    v.phase is Accumulating || v.phase is FrameReady
}

/// The decoder after a chunk has arrived. Of the bytes that waited behind
/// the text and those of the chunk, the longest front that is UTF-8 joins
/// the text, and the rest waits on. A decoder that has failed, has closed
/// or was told that its source ended takes no more bytes.
pub open spec fn after_feed(v: DecoderView, chunk: Seq<u8>) -> DecoderView {
    if is_live(v) && v.input_open {
        DecoderView {
            buffer: v.buffer + text_front(v.pending + chunk),
            pending: text_rest(v.pending + chunk),
            ..v
        }
    } else {
        v
    }
}

/// The decoder after its source ended without an error.
pub open spec fn after_finish(v: DecoderView) -> DecoderView {
    DecoderView { input_open: false, ..v }
}

/// The decoder after its source reported an error, and the one item that
/// this yields while the decoder is live.
pub open spec fn after_fail(v: DecoderView, detail: Seq<char>) -> (
    DecoderView,
    Option<DispatchErrorView>,
) {
    if is_live(v) {
        (DecoderView { phase: PhaseView::Failed, ..v }, Some(source_fault(detail)))
    } else {
        (v, None)
    }
}

/// The decoder after the payload of its waiting frame was decoded.
pub open spec fn after_accept(v: DecoderView) -> DecoderView {
    if v.phase is FrameReady {
        DecoderView { phase: PhaseView::Accumulating, ..v }
    } else {
        v
    }
}

/// The decoder after the payload of its waiting frame failed to decode,
/// and the one item that this yields.
pub open spec fn after_reject(v: DecoderView, detail: Seq<char>) -> (
    DecoderView,
    Option<DispatchErrorView>,
) {
    match v.phase {
        PhaseView::FrameReady(frame) => (
            DecoderView { phase: PhaseView::Failed, ..v },
            Some(DispatchErrorView::StreamDecode { detail, payload: frame.data }),
        ),
        _ => (v, None),
    }
}

/// A decoder without a complete frame. It waits while its source is open.
/// Once the source has ended it closes, unless bytes that are no UTF-8
/// were held back behind the text: these are reported now, once, and the
/// decoder fails.
pub open spec fn at_rest(v: DecoderView) -> (DecoderView, PullView) {
    if v.input_open {
        (v, PullView::NeedInput)
    } else if valid_utf8(v.pending) {
        (DecoderView { phase: PhaseView::Closed, ..v }, PullView::End)
    } else {
        (
            DecoderView { phase: PhaseView::Failed, ..v },
            PullView::Fault(encoding_fault(utf8_error_text(v.pending))),
        )
    }
}

/// The decoder after a pull, and what the pull yields.
pub open spec fn after_poll(v: DecoderView) -> (DecoderView, PullView) {
    match v.phase {
        PhaseView::Failed | PhaseView::Closed => (v, PullView::End),
        PhaseView::FrameReady(frame) => (v, PullView::Frame(frame)),
        PhaseView::Accumulating => {
            if !v.started && bom_len(v.buffer) is None {
                at_rest(v)
            } else {
                let body = if v.started {
                    v.buffer
                } else {
                    v.buffer.skip(bom_len(v.buffer).unwrap())
                };
                let (found, n) = scan(body);
                let rest = body.skip(n);
                match found {
                    Some(raw) => match frame_text(raw) {
                        Ok(frame) => (
                            DecoderView {
                                phase: PhaseView::FrameReady(frame),
                                started: true,
                                buffer: rest,
                                ..v
                            },
                            PullView::Frame(frame),
                        ),
                        Err(detail) => (
                            DecoderView {
                                phase: PhaseView::Failed,
                                started: true,
                                buffer: rest,
                                ..v
                            },
                            PullView::Fault(encoding_fault(detail)),
                        ),
                    },
                    None => at_rest(DecoderView { started: true, buffer: rest, ..v }),
                }
            }
        },
    }
}

/// A decoder that has failed or closed stays as it is, whatever arrives,
/// and a pull on it yields nothing but the end of the sequence.
pub proof fn lemma_ended_is_final(v: DecoderView, chunk: Seq<u8>, detail: Seq<char>)
    requires
        !is_live(v),
    ensures
        after_feed(v, chunk) == v,
        after_finish(v).phase == v.phase,
        after_fail(v, detail) == (v, None::<DispatchErrorView>),
        after_accept(v) == v,
        after_reject(v, detail) == (v, None::<DispatchErrorView>),
        after_poll(v) == (v, PullView::End),
{
}

/// The bytes of the stream that wait in a decoder, behind the byte order
/// mark. `None` while the decoder cannot tell yet whether the stream opens
/// with one.
pub open spec fn waiting_bytes(v: DecoderView) -> Option<Seq<u8>> {
    if v.started {
        Some(v.buffer)
    } else {
        match bom_len(v.buffer) {
            Some(k) => Some(v.buffer.skip(k)),
            None => None,
        }
    }
}

/// A pull hands out the frames of the waiting bytes front to back. While
/// the decoder gathers bytes, a pull yields the first frame that they hold
/// and keeps what lies behind it, so that the frames of what is kept are
/// the later frames, in their order. It reports a fault only for a first
/// frame that is not text. It asks for input, or ends, only where the
/// waiting bytes hold no frame, and then it keeps exactly what no frame has
/// used.
pub proof fn lemma_poll_follows_wire_order(v: DecoderView)
    requires
        v.phase is Accumulating,
    ensures
        match waiting_bytes(v) {
            None => after_poll(v) == at_rest(v),
            Some(bytes) => match after_poll(v).1 {
                PullView::Frame(frame) => frames(bytes).len() > 0 && frame_text(frames(bytes)[0])
                    == Ok::<FrameView, Seq<char>>(frame) && after_poll(v).0.started && frames(
                    after_poll(v).0.buffer,
                ) == frames(bytes).skip(1),
                PullView::Fault(error) => if frames(bytes).len() > 0 {
                    frame_text(frames(bytes)[0]) matches Err(detail) && error == encoding_fault(
                        detail,
                    )
                } else {
                    !v.input_open && !valid_utf8(v.pending)
                },
                PullView::NeedInput | PullView::End => frames(bytes).len() == 0 && after_poll(
                    v,
                ).0.buffer == remainder(bytes),
            },
        },
{
    match waiting_bytes(v) {
        None => {},
        Some(bytes) => {
            lemma_scan_bounds(bytes);
            let (found, n) = scan(bytes);
            match found {
                Some(raw) => {
                    let later = frames(bytes.skip(n));
                    assert(frames(bytes) == seq![raw] + later);
                    assert(frames(bytes)[0] == raw);
                    assert(frames(bytes).skip(1) =~= later);
                },
                None => {},
            }
        },
    }
}

/// `String::from_utf8` of std: the text that `bytes` encode exactly where
/// they are UTF-8, and otherwise the `Display` text of its error, which is
/// a function of the bytes.
#[verifier::external_body]
fn text_of_bytes(bytes: Vec<u8>) -> (out: Result<String, String>)
    ensures
        out is Ok <==> valid_utf8(bytes@),
        out matches Ok(text) ==> text@ == decode_utf8(bytes@),
        out matches Err(detail) ==> detail@ == utf8_error_text(bytes@),
{
    match String::from_utf8(bytes) {
        Ok(text) => Ok(text),
        Err(error) => Err(format!("{}", error)),
    }
}

/// `str::from_utf8` of std with `Utf8Error::valid_up_to`: `None` where
/// `bytes` are UTF-8 as a whole, and otherwise the greatest length up to
/// which they are.
#[verifier::external_body]
fn text_end(bytes: &Vec<u8>) -> (out: Option<usize>)
    ensures
        out is None <==> valid_utf8(bytes@),
        out matches Some(k) ==> is_text_len(bytes@, k as int),
{
    match std::str::from_utf8(bytes) {
        Ok(_) => None,
        Err(error) => Some(error.valid_up_to()),
    }
}

/// Turns the bytes of a frame into text.
fn decode_frame(name: Vec<u8>, data: Vec<u8>) -> (out: Result<Frame, String>)
    requires
        data@.len() > 0,
    ensures
        match frame_text(RawFrame { name: name@, data: data@ }) {
            Ok(frame) => out matches Ok(got) && got@ == frame,
            Err(detail) => out matches Err(got) && got@ == detail,
        },
{
    let mut body = data;
    let unnamed = name.len() == 0;
    body.pop();
    assert(body@ =~= payload(RawFrame { name: name@, data: data@ }));
    match text_of_bytes(name) {
        Err(detail) => Err(detail),
        Ok(label) => match text_of_bytes(body) {
            Err(detail) => Err(detail),
            Ok(text) => Ok(
                Frame {
                    event: if unnamed {
                        None
                    } else {
                        Some(label)
                    },
                    data: text,
                },
            ),
        },
    }
}

/// Marks `detail` as the message of the kind of failure that `label`
/// names.
fn labelled(label: &str, detail: &str) -> (out: DispatchError)
    ensures
        out@ == (DispatchErrorView::Transport { detail: label@ + detail@ }),
{
    let mut text = label.to_string();
    text.append(detail);
    DispatchError::Transport { detail: text }
}

/// The phase of a decoder, with the frame that waits in it.
enum Phase {
    Accumulating,
    FrameReady(Frame),
    Failed,
    Closed,
}

/// Reframes the byte chunks of an event stream into frames.
///
/// The decoder is lazy, forward-only and single-pass: a frame is cut from
/// the buffer only when it is pulled, and frames come out in the order in
/// which they lie on the wire. Only bytes that are text are framed; a
/// character cut by a chunk boundary waits for its rest, and bytes that are
/// no text are held back and reported when the source ends. A source
/// error or a payload that does not decode ends the sequence with one
/// error item.
pub struct EventStreamDecoder {
    buffer: Vec<u8>,
    pending: Vec<u8>,
    started: bool,
    input_open: bool,
    phase: Phase,
}

impl View for EventStreamDecoder {
    type V = DecoderView;

    closed spec fn view(&self) -> DecoderView {
        DecoderView {
            phase: match self.phase {
                Phase::Accumulating => PhaseView::Accumulating,
                Phase::FrameReady(frame) => PhaseView::FrameReady(frame@),
                Phase::Failed => PhaseView::Failed,
                Phase::Closed => PhaseView::Closed,
            },
            started: self.started,
            input_open: self.input_open,
            buffer: self.buffer@,
            pending: self.pending@,
        }
    }
}

impl EventStreamDecoder {
    /// A decoder for a stream of which nothing has arrived yet.
    pub fn new() -> (out: Self)
        ensures
            out@ == initial(),
    {
        EventStreamDecoder {
            buffer: Vec::new(),
            pending: Vec::new(),
            started: false,
            input_open: true,
            phase: Phase::Accumulating,
        }
    }

    /// Where the decoder stands.
    pub fn state(&self) -> (out: StreamState)
        ensures
            out == match self@.phase {
                PhaseView::Accumulating => StreamState::Accumulating,
                PhaseView::FrameReady(_) => StreamState::FrameReady,
                PhaseView::Failed => StreamState::Failed,
                PhaseView::Closed => StreamState::Closed,
            },
    {
        match &self.phase {
            Phase::Accumulating => StreamState::Accumulating,
            Phase::FrameReady(_) => StreamState::FrameReady,
            Phase::Failed => StreamState::Failed,
            Phase::Closed => StreamState::Closed,
        }
    }

    /// The number of bytes of text that wait to be given out as frames.
    pub fn buffered(&self) -> (out: usize)
        ensures
            out == self@.buffer.len(),
    {
        self.buffer.len()
    }

    /// The number of bytes that wait behind the text.
    pub fn held_back(&self) -> (out: usize)
        ensures
            out == self@.pending.len(),
    {
        self.pending.len()
    }

    /// Takes the next chunk of the response body.
    pub fn feed(&mut self, chunk: &[u8])
        ensures
            final(self)@ == after_feed(old(self)@, chunk@),
    {
        let live = match &self.phase {
            Phase::Accumulating => true,
            Phase::FrameReady(_) => true,
            _ => false,
        };
        if live && self.input_open {
            self.pending.extend_from_slice(chunk);
            let ghost raw = old(self).pending@ + chunk@;
            assert(self.pending@ =~= raw);
            let end = match text_end(&self.pending) {
                Some(k) => k,
                None => self.pending.len(),
            };
            proof {
                assert(raw.subrange(0, raw.len() as int) =~= raw);
                assert(is_text_len(raw, end as int));
                lemma_text_len(raw);
            }
            let tail = self.pending.split_off(end);
            self.buffer.append(&mut self.pending);
            self.pending = tail;
        }
    }

    /// Records that the source ended without an error. Frames that are
    /// complete stay to be pulled; the decoder closes after the last.
    pub fn finish(&mut self)
        ensures
            final(self)@ == after_finish(old(self)@),
    {
        self.input_open = false;
    }

    /// Records that the source reported an error. A live decoder fails and
    /// yields the one terminal error item; a decoder that has ended yields
    /// nothing more.
    pub fn fail(&mut self, detail: String) -> (out: Option<DispatchError>)
        ensures
            final(self)@ == after_fail(old(self)@, detail@).0,
            match after_fail(old(self)@, detail@).1 {
                Some(error) => out matches Some(got) && got@ == error,
                None => out is None,
            },
    {
        let live = match &self.phase {
            Phase::Accumulating => true,
            Phase::FrameReady(_) => true,
            _ => false,
        };
        if live {
            self.phase = Phase::Failed;
            Some(labelled("Transport error: ", detail.as_str()))
        } else {
            None
        }
    }

    /// Records that the payload of the waiting frame was decoded: the
    /// decoder goes back to gathering bytes.
    pub fn accept(&mut self)
        ensures
            final(self)@ == after_accept(old(self)@),
    {
        let waiting = match &self.phase {
            Phase::FrameReady(_) => true,
            _ => false,
        };
        if waiting {
            self.phase = Phase::Accumulating;
        }
    }

    /// Records that the payload of the waiting frame did not decode. The
    /// decoder fails and yields the error, which names the parser's
    /// message and the payload; frames behind the malformed one are not
    /// decoded.
    pub fn reject(&mut self, detail: String) -> (out: Option<DispatchError>)
        ensures
            final(self)@ == after_reject(old(self)@, detail@).0,
            match after_reject(old(self)@, detail@).1 {
                Some(error) => out matches Some(got) && got@ == error,
                None => out is None,
            },
    {
        let waiting = match &self.phase {
            Phase::FrameReady(frame) => Some(frame.data.clone()),
            _ => None,
        };
        match waiting {
            Some(payload) => {
                self.phase = Phase::Failed;
                Some(DispatchError::StreamDecode { detail, payload })
            },
            None => None,
        }
    }

    /// Settles a decoder in which no frame is complete.
    fn rest(&mut self) -> (out: Pull)
        requires
            old(self)@.phase is Accumulating,
        ensures
            (final(self)@, out@) == at_rest(old(self)@),
    {
        if self.input_open {
            Pull::NeedInput
        } else {
            let held = self.pending.clone();
            assert(held@ == self.pending@);
            match text_of_bytes(held) {
                Ok(_) => {
                    self.phase = Phase::Closed;
                    Pull::End
                },
                Err(detail) => {
                    self.phase = Phase::Failed;
                    Pull::Fault(labelled("UTF8 error: ", detail.as_str()))
                },
            }
        }
    }

    /// Looks at the start of the stream for a byte order mark: the number
    /// of bytes to pass over, or `None` while the buffer is too short to
    /// tell.
    fn mark_len(&self) -> (out: Option<usize>)
        ensures
            match bom_len(self@.buffer) {
                Some(k) => out == Some(k as usize) && k <= self@.buffer.len(),
                None => out is None,
            },
    {
        let n = self.buffer.len();
        let ghost s = self.buffer@;
        proof {
            assert(bom().len() == 3 && bom()[0] == 239 && bom()[1] == 187 && bom()[2] == 191);
        }
        if n >= 3 {
            let same = self.buffer[0] == 239 && self.buffer[1] == 187 && self.buffer[2] == 191;
            proof {
                let head = s.subrange(0, 3);
                assert(head[0] == s[0] && head[1] == s[1] && head[2] == s[2]);
                if same {
                    assert(head =~= bom());
                }
            }
            if same {
                Some(3)
            } else {
                Some(0)
            }
        } else {
            let same = (n < 1 || self.buffer[0] == 239) && (n < 2 || self.buffer[1] == 187);
            proof {
                let head = bom().subrange(0, n as int);
                if n >= 1 {
                    assert(head[0] == bom()[0]);
                }
                if n >= 2 {
                    assert(head[1] == bom()[1]);
                }
                if same {
                    assert(s =~= head);
                }
            }
            if same {
                None
            } else {
                Some(0)
            }
        }
    }

    /// Pulls the next item. The caller answers `Frame` with
    /// [`accept`](Self::accept) or [`reject`](Self::reject), and
    /// `NeedInput` with [`feed`](Self::feed), [`finish`](Self::finish) or
    /// [`fail`](Self::fail); `Fault` and `End` are final.
    pub fn poll(&mut self) -> (out: Pull)
        ensures
            (final(self)@, out@) == after_poll(old(self)@),
    {
        match &self.phase {
            Phase::Failed => {
                return Pull::End;
            },
            Phase::Closed => {
                return Pull::End;
            },
            Phase::FrameReady(frame) => {
                return Pull::Frame(frame.clone());
            },
            Phase::Accumulating => {},
        }
        let from = if self.started {
            0
        } else {
            match self.mark_len() {
                None => {
                    return self.rest();
                },
                Some(k) => k,
            }
        };
        let ghost body = self.buffer@.skip(from as int);
        assert(self.started ==> body =~= self.buffer@);
        let (found, end) = scan_from(&self.buffer, from);
        let tail = self.buffer.split_off(end);
        self.buffer = tail;
        self.started = true;
        assert(self.buffer@ =~= body.skip(scan(body).1));
        proof {
            lemma_scan_bounds(body);
        }
        match found {
            None => self.rest(),
            Some((name, data)) => match decode_frame(name, data) {
                Ok(frame) => {
                    let shown = frame.clone();
                    self.phase = Phase::FrameReady(frame);
                    Pull::Frame(shown)
                },
                Err(detail) => {
                    self.phase = Phase::Failed;
                    Pull::Fault(labelled("UTF8 error: ", detail.as_str()))
                },
            },
        }
    }
}

} // verus!
