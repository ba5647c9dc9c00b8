//! The calls that a client offers to its server.

use vstd::prelude::*;

use crate::rpc::RPC;

verus! {

/// A call of the client.
#[derive(Debug)]
pub enum Message {
    /// Shows a text.
    Notify {
        /// The text.
        text: String,
    },
}

/// What came of a call of the client.
#[derive(Debug)]
pub enum Response {
    /// The text was shown.
    Notify(()),
}

impl Response {
    /// Takes this as the outcome of [`Message::Notify`], or gives it back where
    /// it is the outcome of something else.
    pub fn into_notify(self) -> (outcome: Result<(), Response>)
        ensures
            outcome == Ok::<(), Response>(()),
    {
        match self {
            Response::Notify(outcome) => Ok(outcome),
        }
    }
}

/// A client as its server sees it.
pub struct Client {
    /// Where calls go out and outcomes come back.
    pub chan: response_channel::Sender<Message, Response>,
}

impl RPC for Client {
    type Message = Message;

    type Response = Response;

    fn new(chan: response_channel::Sender<Message, Response>) -> (client: Self)
        ensures
            client.chan == chan,
    {
        Client { chan }
    }
}

/// What came of showing a text is taken as that.
pub proof fn notify_is_taken_as_notify(shown: (), outcome: Result<(), Response>)
    requires
        call_ensures(Response::into_notify, (Response::Notify(shown),), outcome),
    ensures
        outcome == Ok::<(), Response>(shown),
{
}

/// The client is called through the channel that it was made with.
pub proof fn client_keeps_its_channel(
    chan: response_channel::Sender<Message, Response>,
    client: Client,
)
    requires
        call_ensures(<Client as RPC>::new, (chan,), client),
    ensures
        client.chan == chan,
{
}

} // verus!
