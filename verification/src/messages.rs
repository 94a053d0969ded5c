//! The Messages API: creating a message, counting its tokens, and
//! creating a message whose answer arrives as a stream of events.

use vstd::prelude::*;
use crate::client::{dispatched, encoded_view, is_outcome, issued, AnthropicClient, IdentityView};
use crate::error::{DispatchError, DispatchErrorView};
use crate::query::Pairs;
use crate::request::{Expect, Method, PreparedRequest, RequestView};

verus! {

/// What a streaming call ends in before anything is sent. A call whose
/// stream flag is absent or false ends in the precondition error, whatever
/// its body; a body that did not encode is the next thing reported; only
/// then is the one request issued.
pub open spec fn streaming_dispatched(
    who: IdentityView,
    stream: Option<bool>,
    body: Result<Seq<char>, Seq<char>>,
) -> Result<RequestView, DispatchErrorView> {
    if stream != Some(true) {
        Err(DispatchErrorView::StreamPrecondition)
    } else {
        match body {
            Err(detail) => Err(DispatchErrorView::Serialization { detail }),
            Ok(text) => Ok(
                issued(
                    who,
                    Method::Post,
                    "/messages"@,
                    None::<Pairs>,
                    Some(text),
                    None,
                    Expect::EventStream,
                ),
            ),
        }
    }
}

/// A streaming call issues a request only with the stream flag set to
/// true: with the flag absent or false nothing reaches the network.
pub proof fn lemma_streaming_needs_flag(
    who: IdentityView,
    stream: Option<bool>,
    body: Result<Seq<char>, Seq<char>>,
)
    ensures
        streaming_dispatched(who, stream, body) is Ok ==> stream == Some(true),
        stream != Some(true) ==> streaming_dispatched(who, stream, body) == Err::<
            RequestView,
            DispatchErrorView,
        >(DispatchErrorView::StreamPrecondition),
{
}

impl AnthropicClient {
    /// Creates a message. `body` is the JSON text of the message
    /// parameters, or the encoder's message.
    pub fn create_message(&self, body: Option<Result<String, String>>) -> (out: Result<
        PreparedRequest,
        DispatchError,
    >)
        ensures
            is_outcome(
                out,
                dispatched(
                    self@,
                    Method::Post,
                    "/messages"@,
                    None,
                    encoded_view(body),
                    None,
                    Expect::Json,
                ),
            ),
    {
        self.post("/messages", body)
    }

    /// Counts the tokens of a message. `body` is the JSON text of the
    /// message parameters, or the encoder's message.
    pub fn count_tokens(&self, body: Option<Result<String, String>>) -> (out: Result<
        PreparedRequest,
        DispatchError,
    >)
        ensures
            is_outcome(
                out,
                dispatched(
                    self@,
                    Method::Post,
                    "/messages/count_tokens"@,
                    None,
                    encoded_view(body),
                    None,
                    Expect::Json,
                ),
            ),
    {
        self.post("/messages/count_tokens", body)
    }

    /// Creates a message whose answer is streamed. `stream` is the stream
    /// flag of the message parameters and `body` their JSON text, or the
    /// encoder's message. The answer is to be read through an
    /// [`EventStreamDecoder`](crate::stream::decoder::EventStreamDecoder).
    pub fn create_message_streaming(&self, stream: Option<bool>, body: Result<String, String>) -> (out:
        Result<PreparedRequest, DispatchError>)
        ensures
            is_outcome(
                out,
                streaming_dispatched(
                    self@,
                    stream,
                    match body {
                        Ok(text) => Ok(text@),
                        Err(detail) => Err(detail@),
                    },
                ),
            ),
    {
        match stream {
            Some(true) => {},
            _ => {
                return Err(DispatchError::StreamPrecondition);
            },
        }
        match body {
            Err(detail) => Err(DispatchError::Serialization { detail }),
            Ok(text) => Ok(self.send_stream_request("/messages", text)),
        }
    }
}

} // verus!
