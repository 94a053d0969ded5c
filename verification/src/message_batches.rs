//! The Message Batches API. Each operation prepares the one request of its
//! call. Payloads arrive as JSON text, encoded by the caller from its typed
//! parameters.

use vstd::prelude::*;
use crate::client::{dispatched, encoded_view, is_outcome, issued, join2, join3, AnthropicClient};
use crate::error::DispatchError;
use crate::request::{Expect, Method, PreparedRequest};

verus! {

impl AnthropicClient {
    /// Creates a message batch. `body` is the JSON text of the batch,
    /// or the encoder's message.
    pub fn create_message_batch(&self, body: Result<String, String>) -> (out: Result<
        PreparedRequest,
        DispatchError,
    >)
        ensures
            is_outcome(
                out,
                dispatched(
                    self@,
                    Method::Post,
                    "/messages/batches"@,
                    None,
                    encoded_view(Some(body)),
                    None,
                    Expect::Json,
                ),
            ),
    {
        self.post("/messages/batches", Some(body))
    }

    /// Lists message batches. `query` holds the pagination parameters,
    /// already written as pairs.
    pub fn list_message_batches(&self, query: Option<Vec<(String, String)>>) -> (out: PreparedRequest)
        ensures
            out@ == issued(
                self@,
                Method::Get,
                "/messages/batches"@,
                query.deep_view(),
                None,
                None,
                Expect::Json,
            ),
    {
        self.get("/messages/batches", query)
    }

    /// Reads the message batch `message_batch_id`.
    pub fn retrieve_message_batch(&self, message_batch_id: &str) -> (out: PreparedRequest)
        ensures
            out@ == issued(self@, Method::Get, "/messages/batches/"@ + message_batch_id@, None, None, None, Expect::Json),
    {
        let path = join2("/messages/batches/", message_batch_id);
        self.get(path.as_str(), None)
    }

    /// Reads the results of the message batch `message_batch_id`.
    pub fn retrieve_message_batch_results(&self, message_batch_id: &str) -> (out: PreparedRequest)
        ensures
            out@ == issued(self@, Method::Get, "/messages/batches/"@ + message_batch_id@ + "/results"@, None, None, None, Expect::Json),
    {
        let path = join3("/messages/batches/", message_batch_id, "/results");
        self.get(path.as_str(), None)
    }

    /// Cancels the message batch `message_batch_id`. `body` is the JSON
    /// text of the parameters, or the encoder's message.
    pub fn cancel_message_batch(&self, message_batch_id: &str, body: Result<String, String>) -> (out: Result<
        PreparedRequest,
        DispatchError,
    >)
        ensures
            is_outcome(
                out,
                dispatched(
                    self@,
                    Method::Post,
                    "/messages/batches/"@ + message_batch_id@ + "/cancel"@,
                    None,
                    encoded_view(Some(body)),
                    None,
                    Expect::Json,
                ),
            ),
    {
        let path = join3("/messages/batches/", message_batch_id, "/cancel");
        self.post(path.as_str(), Some(body))
    }

    /// Deletes the message batch `message_batch_id`.
    pub fn delete_message_batch(&self, message_batch_id: &str) -> (out: PreparedRequest)
        ensures
            out@ == issued(self@, Method::Delete, "/messages/batches/"@ + message_batch_id@, None, None, None, Expect::Json),
    {
        let path = join2("/messages/batches/", message_batch_id);
        self.delete(path.as_str(), None)
    }
}

} // verus!
