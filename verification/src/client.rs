//! What the engine hears from a client of the network.

use crate::json::{Json, JsonView};
use crate::text;
use vstd::prelude::*;

verus! {

/// An error of the client.
#[derive(Debug)]
pub struct ClientError {
    pub code: u32,
    pub message: String,
    pub data: Json,
    /// The error as it is shown to a user.
    pub display: String,
}

/// What a [`ClientError`] stands for.
pub struct ClientErrorView {
    pub code: u32,
    pub message: Seq<char>,
    pub data: JsonView,
    pub display: Seq<char>,
}

impl DeepView for ClientError {
    type V = ClientErrorView;

    open spec fn deep_view(&self) -> ClientErrorView {
        ClientErrorView {
            code: self.code,
            message: self.message@,
            data: self.data.deep_view(),
            display: self.display@,
        }
    }
}

impl Clone for ClientError {
    fn clone(&self) -> (r: Self)
        ensures
            r.deep_view() == self.deep_view(),
    {
        ClientError {
            code: self.code,
            message: self.message.clone(),
            data: self.data.clone(),
            display: self.display.clone(),
        }
    }
}

/// A client of the network. Beside the address of the server, it is set up by default.
#[derive(Debug)]
pub struct TonClient {
    pub server_address: String,
}

impl Clone for TonClient {
    fn clone(&self) -> (r: Self)
        ensures
            r.server_address@ == self.server_address@,
    {
        TonClient { server_address: self.server_address.clone() }
    }
}

/// The client for the server at `url`, given what came of setting it up: done, or the text of an
/// error.
pub fn create_client(url: &str, opened: Result<(), String>) -> (r: Result<TonClient, String>)
    ensures
        match (opened, r) {
            (Ok(()), Ok(ton)) => ton.server_address@ == url@,
            (Err(e), Err(message)) => message@ == "failed to create tonclient: "@ + e@,
            _ => false,
        },
{
    match opened {
        Ok(()) => Ok(TonClient { server_address: url.to_owned() }),
        Err(e) => Err(text::join("failed to create tonclient: ", &e)),
    }
}

/// What the client reports while a message is processed.
#[derive(Debug)]
pub enum ProcessingEvent {
    /// The message is about to be sent.
    WillSend { shard_block_id: String, message_id: String, message: String },
    /// Any other stage.
    Other,
}

/// The text by which a stage of processing is shown to the user, where it is shown.
pub open spec fn event_report(event: ProcessingEvent) -> Option<Seq<char>> {
    match event {
        ProcessingEvent::WillSend { message_id, .. } => Some("Sending message "@ + message_id@),
        ProcessingEvent::Other => None,
    }
}

/// The text by which a stage of processing is shown to the user, where it is shown.
pub fn processing_report(event: &ProcessingEvent) -> (r: Option<String>)
    ensures
        r.deep_view() == event_report(*event),
{
    match event {
        ProcessingEvent::WillSend { message_id, .. } => Some(
            text::join("Sending message ", message_id),
        ),
        ProcessingEvent::Other => None,
    }
}

/// A message that is about to be sent is reported by its id, and no other stage is reported.
pub proof fn sending_is_reported(event: ProcessingEvent)
    ensures
        event matches ProcessingEvent::WillSend { message_id, .. } ==> event_report(event) == Some(
            "Sending message "@ + message_id@,
        ),
        event is Other ==> event_report(event) is None,
{
}

} // verus!
