//! What becomes of a response: which part of it is read, and which value or
//! error the call ends in.
//!
//! The status is looked at before any body is decoded, the whole body is
//! read before anything is returned, and nothing is retried.

use vstd::prelude::*;
use vstd::string::StringExecFns;
use crate::error::{
    lemma_decode_message_holds_body, message_text, occurs_in, DispatchError, DispatchErrorView,
};
use crate::request::Expect;

verus! {

/// Whether `status` lies in the success range, 200 to 299.
pub open spec fn success_status(status: u16) -> bool {
    200 <= status <= 299
}

/// Whether `status` lies in the success range.
pub fn is_success(status: u16) -> (out: bool)
    ensures
        out == success_status(status),
{
    200 <= status && status <= 299
}

/// The part of a response that is read once its status is known.
#[derive(Debug, Clone, Copy, PartialEq, Eq, Structural)]
pub enum BodyRead {
    /// The whole body, as text.
    Text,
    /// The whole body, as bytes.
    Bytes,
    /// The body chunk by chunk, through an event-stream decoder.
    Stream,
}

/// The read that follows a status: a failure is always read as text, a
/// success in the way the call expects.
pub open spec fn read_for(expect: Expect, status: u16) -> BodyRead {
    if !success_status(status) {
        BodyRead::Text
    } else {
        match expect {
            Expect::Json => BodyRead::Text,
            Expect::Bytes => BodyRead::Bytes,
            Expect::EventStream => BodyRead::Stream,
        }
    }
}

/// Decides how the body is read once the status is known.
pub fn body_read(expect: Expect, status: u16) -> (out: BodyRead)
    ensures
        out == read_for(expect, status),
{
    if !is_success(status) {
        BodyRead::Text
    } else {
        match expect {
            Expect::Json => BodyRead::Text,
            Expect::Bytes => BodyRead::Bytes,
            Expect::EventStream => BodyRead::Stream,
        }
    }
}

/// The error of a request that the transport could not send.
pub fn send_failed(detail: String) -> (out: DispatchError)
    ensures
        out@ == (DispatchErrorView::Transport { detail: detail@ }),
{
    DispatchError::Transport { detail }
}

/// What a failed read of the body text becomes: a transport error that
/// holds the network layer's message, whatever the call expects.
pub open spec fn text_read_failure(expect: Expect, detail: Seq<char>) -> DispatchErrorView {
    match expect {
        Expect::Json | Expect::Bytes => DispatchErrorView::Transport {
            detail: "Failed to get response body: "@ + detail,
        },
        Expect::EventStream => DispatchErrorView::Transport {
            detail: "Failed to read error response: "@ + detail,
        },
    }
}

/// What a body text becomes: the text itself on success, and on any other
/// status an API error that holds the text exactly as it was received.
pub open spec fn text_outcome(expect: Expect, status: u16, text: Result<Seq<char>, Seq<char>>)
    -> Result<Seq<char>, DispatchErrorView> {
    match text {
        Err(detail) => Err(text_read_failure(expect, detail)),
        Ok(body) => if success_status(status) {
            Ok(body)
        } else {
            Err(DispatchErrorView::Api { body })
        },
    }
}

/// Classifies a body that was read as text: `text` is the body, or the
/// transport's message where the read failed.
pub fn settle_text(expect: Expect, status: u16, text: Result<String, String>) -> (out: Result<
    String,
    DispatchError,
>)
    ensures
        match text_outcome(
            expect,
            status,
            match text {
                Ok(body) => Ok(body@),
                Err(detail) => Err(detail@),
            },
        ) {
            Ok(body) => out matches Ok(got) && got@ == body,
            Err(error) => out matches Err(got) && got@ == error,
        },
{
    match text {
        Err(detail) => match expect {
            Expect::Json | Expect::Bytes => {
                let mut message = "Failed to get response body: ".to_string();
                message.append(detail.as_str());
                Err(DispatchError::Transport { detail: message })
            },
            Expect::EventStream => {
                let mut message = "Failed to read error response: ".to_string();
                message.append(detail.as_str());
                Err(DispatchError::Transport { detail: message })
            },
        },
        Ok(body) => if is_success(status) {
            Ok(body)
        } else {
            Err(DispatchError::Api { body })
        },
    }
}

/// Ends a call that was answered outside the success range: `text` is the
/// body, or the transport's message where the read failed.
pub fn settle_failure(expect: Expect, status: u16, text: Result<String, String>) -> (out:
    DispatchError)
    requires
        !success_status(status),
    ensures
        text_outcome(
            expect,
            status,
            match text {
                Ok(body) => Ok(body@),
                Err(detail) => Err(detail@),
            },
        ) == Err::<Seq<char>, DispatchErrorView>(out@),
{
    match settle_text(expect, status, text) {
        Err(error) => error,
        Ok(body) => DispatchError::Api { body },
    }
}

/// Classifies a body that was read as bytes: `read` is the body, or the
/// transport's message where the read failed.
pub fn settle_bytes(read: Result<Vec<u8>, String>) -> (out: Result<Vec<u8>, DispatchError>)
    ensures
        match read {
            Ok(bytes) => out == Ok::<Vec<u8>, DispatchError>(bytes),
            Err(detail) => out matches Err(got) && got@ == (DispatchErrorView::Transport {
                detail: "Failed to get response bytes: "@ + detail@,
            }),
        },
{
    match read {
        Ok(bytes) => Ok(bytes),
        Err(detail) => {
            let mut message = "Failed to get response bytes: ".to_string();
            message.append(detail.as_str());
            Err(DispatchError::Transport { detail: message })
        },
    }
}

/// What the decoding of a success body becomes: the value, or a decode
/// error that holds the parser's message and the body.
pub open spec fn decode_outcome<T>(body: Seq<char>, parsed: Result<T, Seq<char>>) -> Result<
    T,
    DispatchErrorView,
> {
    match parsed {
        Ok(value) => Ok(value),
        Err(detail) => Err(DispatchErrorView::Decode { detail, body }),
    }
}

/// Ends a call whose success body was handed to the JSON parser: `parsed`
/// is the decoded value, or the parser's message.
pub fn settle_decode<T>(body: String, parsed: Result<T, String>) -> (out: Result<T, DispatchError>)
    ensures
        match decode_outcome(
            body@,
            match parsed {
                Ok(value) => Ok(value),
                Err(detail) => Err(detail@),
            },
        ) {
            Ok(value) => out matches Ok(got) && got == value,
            Err(error) => out matches Err(got) && got@ == error,
        },
{
    match parsed {
        Ok(value) => Ok(value),
        Err(detail) => Err(DispatchError::Decode { detail, body }),
    }
}

/// A success status with a body that parses ends in the decoded value, and
/// in no error.
pub proof fn lemma_success_yields_value<T>(status: u16, body: Seq<char>, value: T)
    requires
        success_status(status),
    ensures
        text_outcome(Expect::Json, status, Ok(body)) == Ok::<Seq<char>, DispatchErrorView>(body),
        decode_outcome(body, Ok::<T, Seq<char>>(value)) == Ok::<T, DispatchErrorView>(value),
{
}

/// A success status with a body that does not parse ends in a decode
/// error, and the text of that error holds the body as it was received.
pub proof fn lemma_unparsed_body_is_reported<T>(status: u16, body: Seq<char>, detail: Seq<char>)
    requires
        success_status(status),
    ensures
        text_outcome(Expect::Json, status, Ok(body)) == Ok::<Seq<char>, DispatchErrorView>(body),
        decode_outcome(body, Err::<T, Seq<char>>(detail)) == Err::<T, DispatchErrorView>(
            DispatchErrorView::Decode { detail, body },
        ),
        occurs_in(body, message_text(DispatchErrorView::Decode { detail, body })),
{
    lemma_decode_message_holds_body(detail, body);
}

/// A status outside the success range ends in an API error whose payload,
/// and whose text, is the body exactly as it was received, however the
/// call meant to read a success.
pub proof fn lemma_failure_passes_body_on(expect: Expect, status: u16, body: Seq<char>)
    requires
        !success_status(status),
    ensures
        text_outcome(expect, status, Ok(body)) == Err::<Seq<char>, DispatchErrorView>(
            DispatchErrorView::Api { body },
        ),
        message_text(DispatchErrorView::Api { body }) == body,
        read_for(expect, status) == BodyRead::Text,
{
}

} // verus!
