//! The calls that a server offers to its clients.

use vstd::prelude::*;

use crate::rpc::RPC;

verus! {

/// A call of the server.
#[derive(Debug)]
pub enum Message {
    /// Opens a session.
    Connect {},
    /// Signs in.
    Login {
        /// The name of the account.
        login: String,
        /// The secret of the account.
        password: String,
    },
}

/// What came of a call of the server.
#[derive(Debug)]
pub enum Response {
    /// The session is open.
    Connect(()),
    /// The account is signed in, under this text.
    Login(String),
}

impl Response {
    /// Takes this as the outcome of [`Message::Connect`], or gives it back where
    /// it is the outcome of something else.
    pub fn into_connect(self) -> (outcome: Result<(), Response>)
        ensures
            outcome == match self {
                Response::Connect(opened) => Ok::<(), Response>(opened),
                other => Err(other),
            },
    {
        match self {
            Response::Connect(opened) => Ok(opened),
            other => Err(other),
        }
    }

    /// Takes this as the outcome of [`Message::Login`], or gives it back where
    /// it is the outcome of something else.
    pub fn into_login(self) -> (outcome: Result<String, Response>)
        ensures
            outcome == match self {
                Response::Login(text) => Ok::<String, Response>(text),
                other => Err(other),
            },
    {
        match self {
            Response::Login(text) => Ok(text),
            other => Err(other),
        }
    }
}

/// A server as its client sees it.
pub struct Server {
    /// Where calls go out and outcomes come back.
    pub chan: response_channel::Sender<Message, Response>,
}

impl RPC for Server {
    type Message = Message;

    type Response = Response;

    fn new(chan: response_channel::Sender<Message, Response>) -> (server: Self)
        ensures
            server.chan == chan,
    {
        Server { chan }
    }
}

/// What came of opening a session is taken as that, and what came of signing in
/// is given back.
pub proof fn only_connect_is_taken_as_connect(response: Response, outcome: Result<(), Response>)
    requires
        call_ensures(Response::into_connect, (response,), outcome),
    ensures
        response matches Response::Connect(opened) ==> outcome == Ok::<(), Response>(opened),
        response is Login ==> outcome == Err::<(), Response>(response),
{
}

/// What came of signing in is taken as that, and what came of opening a session
/// is given back.
pub proof fn only_login_is_taken_as_login(response: Response, outcome: Result<String, Response>)
    requires
        call_ensures(Response::into_login, (response,), outcome),
    ensures
        response matches Response::Login(text) ==> outcome == Ok::<String, Response>(text),
        response is Connect ==> outcome == Err::<String, Response>(response),
{
}

/// The server is called through the channel that it was made with.
pub proof fn server_keeps_its_channel(
    chan: response_channel::Sender<Message, Response>,
    server: Server,
)
    requires
        call_ensures(<Server as RPC>::new, (chan,), server),
    ensures
        server.chan == chan,
{
}

} // verus!
