//! The failures a call can end in, each a distinct, inspectable value.

use vstd::prelude::*;
use vstd::string::StringExecFns;

verus! {

/// Why a call did not produce its value. Nothing here is retried or recovered:
/// each failure is handed to the caller once.
#[derive(Debug, Clone, PartialEq, Eq)]
pub enum DispatchError {
    /// The request body could not be encoded. Nothing was sent.
    Serialization { detail: String },
    /// The network layer reported a failure while sending or receiving.
    Transport { detail: String },
    /// The server answered outside the success range. `body` is the response
    /// text exactly as received.
    Api { body: String },
    /// A success response whose body did not match the expected schema.
    Decode { detail: String, body: String },
    /// A streaming call was attempted without the stream flag set.
    StreamPrecondition,
    /// One frame of an otherwise healthy event stream did not decode.
    StreamDecode { detail: String, payload: String },
}

/// The mathematical content of a [`DispatchError`].
pub enum DispatchErrorView {
    Serialization { detail: Seq<char> },
    Transport { detail: Seq<char> },
    Api { body: Seq<char> },
    Decode { detail: Seq<char>, body: Seq<char> },
    StreamPrecondition,
    StreamDecode { detail: Seq<char>, payload: Seq<char> },
}

impl View for DispatchError {
    type V = DispatchErrorView;

    open spec fn view(&self) -> DispatchErrorView {
        match self {
            DispatchError::Serialization { detail } => DispatchErrorView::Serialization {
                detail: detail@,
            },
            DispatchError::Transport { detail } => DispatchErrorView::Transport { detail: detail@ },
            DispatchError::Api { body } => DispatchErrorView::Api { body: body@ },
            DispatchError::Decode { detail, body } => DispatchErrorView::Decode {
                detail: detail@,
                body: body@,
            },
            DispatchError::StreamPrecondition => DispatchErrorView::StreamPrecondition,
            DispatchError::StreamDecode { detail, payload } => DispatchErrorView::StreamDecode {
                detail: detail@,
                payload: payload@,
            },
        }
    }
}

/// The text a failure is reported with.
pub open spec fn message_text(e: DispatchErrorView) -> Seq<char> {
    match e {
        DispatchErrorView::Serialization { detail } => "Failed to serialize body: "@ + detail,
        DispatchErrorView::Transport { detail } => detail,
        DispatchErrorView::Api { body } => body,
        DispatchErrorView::Decode { detail, body } => "JSON parsing error: "@ + detail
            + ". Response body: "@ + body,
        DispatchErrorView::StreamPrecondition =>
            "Stream parameter must be set to true for streaming"@,
        DispatchErrorView::StreamDecode { detail, payload } => "Failed to parse SSE event: "@
            + detail + ". Event data: "@ + payload,
    }
}

/// Whether `inner` occurs in `outer` as a contiguous run.
pub open spec fn occurs_in(inner: Seq<char>, outer: Seq<char>) -> bool {
    exists|i: int|
        0 <= i && i + inner.len() <= outer.len() && #[trigger] outer.subrange(
            i,
            i + inner.len(),
        ) == inner
}

impl DispatchError {
    /// Renders the failure as one line of text.
    pub fn message(&self) -> (out: String)
        ensures
            out@ == message_text(self@),
    {
        match self {
            DispatchError::Serialization { detail } => {
                let mut s = "Failed to serialize body: ".to_string();
                s.append(detail.as_str());
                s
            },
            DispatchError::Transport { detail } => detail.clone(),
            DispatchError::Api { body } => body.clone(),
            DispatchError::Decode { detail, body } => {
                let mut s = "JSON parsing error: ".to_string();
                s.append(detail.as_str());
                s.append(". Response body: ");
                s.append(body.as_str());
                s
            },
            DispatchError::StreamPrecondition => {
                "Stream parameter must be set to true for streaming".to_string()
            },
            DispatchError::StreamDecode { detail, payload } => {
                let mut s = "Failed to parse SSE event: ".to_string();
                s.append(detail.as_str());
                s.append(". Event data: ");
                s.append(payload.as_str());
                s
            },
        }
    }
}

/// The text of a decode failure holds the raw response body.
pub proof fn lemma_decode_message_holds_body(detail: Seq<char>, body: Seq<char>)
    ensures
        occurs_in(body, message_text(DispatchErrorView::Decode { detail, body })),
{
    let head = "JSON parsing error: "@ + detail + ". Response body: "@;
    let text = message_text(DispatchErrorView::Decode { detail, body });
    assert(text == head + body);
    assert(text.subrange(head.len() as int, (head.len() + body.len()) as int) == body);
}

/// The text of a frame failure holds the offending payload.
pub proof fn lemma_frame_message_holds_payload(detail: Seq<char>, payload: Seq<char>)
    ensures
        occurs_in(payload, message_text(DispatchErrorView::StreamDecode { detail, payload })),
{
    let head = "Failed to parse SSE event: "@ + detail + ". Event data: "@;
    let text = message_text(DispatchErrorView::StreamDecode { detail, payload });
    assert(text == head + payload);
    assert(text.subrange(head.len() as int, (head.len() + payload.len()) as int) == payload);
}

} // verus!
