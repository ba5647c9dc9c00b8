//! Who is at the other end of a handshake.

use vstd::prelude::*;
use vstd::utf8::{
    decode_utf8, encode_utf8, encode_utf8_decode_utf8, encode_utf8_valid_utf8, valid_utf8,
};

use crate::error::ConnectionError;
use crate::headers::{header_text, header_values, text_of};
use crate::http::{carries_token, ClientRequestView};
use crate::packet::{create_channels, linked, PacketReceiver, PacketSender, Reconnect};
use crate::token::{
    are_digits, base64_decoded, decode_token, lemma_token_of_digits, token_of, token_text,
};

verus! {

/// The address that a peer is known by: the one that was read from what the
/// proxy in front of the server announced, or else the one that the connection
/// came from.
pub open spec fn chosen_address<A>(announced: Option<A>, fallback: A) -> A {
    match announced {
        Some(address) => address,
        None => fallback,
    }
}

/// Whether `address` is the one that a peer is known by, given its headers: the
/// text of its `x-real-ip` header as `parse` reads it, or `fallback` where there
/// is no such text or `parse` reads nothing from it.
pub open spec fn settles<A, F: FnOnce(&str) -> Option<A>>(
    values: Map<Seq<char>, Seq<Seq<u8>>>,
    parse: F,
    fallback: A,
    address: A,
) -> bool {
    match text_of(values, "x-real-ip"@) {
        Some(announced) => exists|text: &str, read: Option<A>|
            {
                &&& text@ == announced
                &&& #[trigger] parse.ensures((text,), read)
                &&& address == chosen_address(read, fallback)
            },
        None => address == fallback,
    }
}

/// Settles the address of a peer: the text of its `x-real-ip` header as `parse`
/// reads it, or `fallback` where there is no such text or `parse` reads nothing
/// from it.
pub fn get_peer_ip<A, F: FnOnce(&str) -> Option<A>>(
    headers: &hyper::HeaderMap<hyper::header::HeaderValue>,
    parse: F,
    fallback: A,
) -> (address: A)
    requires
        forall|text: &str| parse.requires((text,)),
    ensures
        settles(header_values(*headers), parse, fallback, address),
{
    proof {
        reveal_strlit("x-real-ip");
    }
    match header_text(headers, "x-real-ip") {
        Some(text) => match parse(text) {
            Some(address) => address,
            None => fallback,
        },
        None => fallback,
    }
}

/// The token that the headers of a handshake carry.
pub open spec fn peer_token(values: Map<Seq<char>, Seq<Seq<u8>>>) -> Result<
    u128,
    ConnectionError,
> {
    match text_of(values, "sec-websocket-key"@) {
        Some(text) => token_of(base64_decoded(text)),
        None => Err(ConnectionError::MissingSecWebSocketKey),
    }
}

/// Reads the token of a peer from the `sec-websocket-key` header of its
/// handshake.
pub fn get_peer_token(headers: &hyper::HeaderMap<hyper::header::HeaderValue>) -> (token: Result<
    u128,
    ConnectionError,
>)
    ensures
        token == peer_token(header_values(*headers)),
        token matches Ok(value) ==> text_of(header_values(*headers), "sec-websocket-key"@) == Some(
            token_text(value),
        ),
{
    proof {
        reveal_strlit("sec-websocket-key");
    }
    match header_text(headers, "sec-websocket-key") {
        Some(text) => decode_token(text),
        None => Err(ConnectionError::MissingSecWebSocketKey),
    }
}

/// What a handshake tells of a peer.
pub struct Identity<A> {
    /// Its address.
    pub ip: A,
    /// Its token.
    pub token: u128,
}

/// A peer, and the ways to it.
pub struct Peer<A, P> {
    /// Its address.
    pub ip: A,
    /// Its token.
    pub token: u128,
    /// Where its packets arrive.
    pub rx: PacketReceiver<P>,
    /// Where packets leave for it.
    pub tx: PacketSender<P>,
}

/// Reads from the headers of a handshake who the peer is. A handshake without a
/// token is refused.
pub fn identify<A, F: FnOnce(&str) -> Option<A>>(
    headers: &hyper::HeaderMap<hyper::header::HeaderValue>,
    parse: F,
    fallback: A,
) -> (identity: Result<Identity<A>, ConnectionError>)
    requires
        forall|text: &str| parse.requires((text,)),
    ensures
        (match peer_token(header_values(*headers)) {
            Ok(token) => {
                &&& identity matches Ok(peer)
                &&& peer.token == token
                &&& settles(header_values(*headers), parse, fallback, peer.ip)
            },
            Err(error) => identity == Err::<Identity<A>, ConnectionError>(error),
        }),
{
    let ip = get_peer_ip(headers, parse, fallback);
    match get_peer_token(headers) {
        Ok(token) => Ok(Identity { ip, token }),
        Err(error) => Err(error),
    }
}

impl<A> Identity<A> {
    /// Sets up the ways to the peer, and the ends of them that its connection
    /// works on.
    pub fn into_peer<P>(self) -> (ends: (Peer<A, P>, Reconnect))
        ensures
            ends.0.ip == self.ip,
            ends.0.token == self.token,
            linked(ends.0.rx, ends.0.tx, ends.1),
    {
        let (rx, tx, connection) = create_channels();
        (Peer { ip: self.ip, token: self.token, rx, tx }, connection)
    }
}

/// A letter in lower case.
pub open spec fn lower_case(letter: char) -> char {
    if 'A' <= letter <= 'Z' {
        (letter as u32 + 32) as char
    } else {
        letter
    }
}

/// Whether the headers that a server holds are those of a request, each under
/// its name in lower case.
pub open spec fn arrived(
    request: ClientRequestView,
    values: Map<Seq<char>, Seq<Seq<u8>>>,
) -> bool {
    forall|i: int|
        0 <= i < request.headers.len() ==> {
            let name = (#[trigger] request.headers[i]).0.map_values(|c: char| lower_case(c));
            &&& values.contains_key(name)
            &&& values[name] == seq![encode_utf8(request.headers[i].1)]
        }
}

/// A server reads from the handshake of a client the token that the client
/// connects with.
pub proof fn server_reads_the_token_of_the_client(
    request: ClientRequestView,
    token: u128,
    values: Map<Seq<char>, Seq<Seq<u8>>>,
)
    requires
        carries_token(request, token),
        arrived(request, values),
    ensures
        peer_token(values) == Ok::<u128, ConnectionError>(token),
{
    let i = choose|i: int|
        {
            &&& 0 <= i < request.headers.len()
            &&& (#[trigger] request.headers[i]).0 == "Sec-WebSocket-Key"@
            &&& token_of(base64_decoded(request.headers[i].1)) == Ok::<u128, ConnectionError>(token)
        };
    reveal_strlit("Sec-WebSocket-Key");
    reveal_strlit("sec-websocket-key");
    assert("Sec-WebSocket-Key"@.map_values(|c: char| lower_case(c)) =~= "sec-websocket-key"@);
    encode_utf8_valid_utf8(request.headers[i].1);
    encode_utf8_decode_utf8(request.headers[i].1);
}

/// Whether the proxy in front of a server announces an address: there is an
/// `x-real-ip` header, its first value is text, and `parse` reads that text as
/// the address.
pub open spec fn announces<A, F: FnOnce(&str) -> Option<A>>(
    values: Map<Seq<char>, Seq<Seq<u8>>>,
    parse: F,
    announced: A,
) -> bool {
    let name = "x-real-ip"@;
    &&& values.contains_key(name)
    &&& valid_utf8(values[name][0])
    &&& forall|text: &str, read: Option<A>|
        text@ == decode_utf8(values[name][0]) && #[trigger] parse.ensures((text,), read) ==> read
            == Some(announced)
}

/// Whether the proxy in front of a server announces no address: there is no
/// `x-real-ip` header, or its first value is no text, or one that `parse` reads
/// nothing from.
pub open spec fn announces_nothing<A, F: FnOnce(&str) -> Option<A>>(
    values: Map<Seq<char>, Seq<Seq<u8>>>,
    parse: F,
) -> bool {
    let name = "x-real-ip"@;
    ||| !values.contains_key(name)
    ||| !valid_utf8(values[name][0])
    ||| forall|text: &str, read: Option<A>|
        text@ == decode_utf8(values[name][0]) && #[trigger] parse.ensures((text,), read) ==> read
            is None
}

/// A peer is known by the address that is announced for it, however that is
/// written.
pub proof fn announced_address_is_taken<A, F: FnOnce(&str) -> Option<A>>(
    headers: &hyper::HeaderMap<hyper::header::HeaderValue>,
    parse: F,
    fallback: A,
    announced: A,
    address: A,
)
    requires
        announces(header_values(*headers), parse, announced),
        call_ensures(get_peer_ip::<A, F>, (headers, parse, fallback), address),
    ensures
        address == announced,
{
}

/// A peer is known by the address that its connection came from only where none
/// is announced for it, and then always.
pub proof fn fallback_is_for_want_of_an_address<A, F: FnOnce(&str) -> Option<A>>(
    headers: &hyper::HeaderMap<hyper::header::HeaderValue>,
    parse: F,
    fallback: A,
    address: A,
)
    requires
        call_ensures(get_peer_ip::<A, F>, (headers, parse, fallback), address),
    ensures
        announces_nothing(header_values(*headers), parse) ==> address == fallback,
        address != fallback ==> {
            &&& header_values(*headers).contains_key("x-real-ip"@)
            &&& valid_utf8(header_values(*headers)["x-real-ip"@][0])
            &&& exists|text: &str|
                text@ == decode_utf8(header_values(*headers)["x-real-ip"@][0])
                    && #[trigger] parse.ensures((text,), Some(address))
        },
{
}

/// The address that headers settle is the announced one wherever `parse` reads
/// one from the text of `x-real-ip`, and the fallback wherever it reads none or
/// there is no such text.
pub proof fn text_of_the_header_settles<A, F: FnOnce(&str) -> Option<A>>(
    values: Map<Seq<char>, Seq<Seq<u8>>>,
    parse: F,
    fallback: A,
    address: A,
    announced: Seq<char>,
    read: Option<A>,
)
    requires
        settles(values, parse, fallback, address),
        forall|text: &str, outcome: Option<A>|
            text@ == announced && #[trigger] parse.ensures((text,), outcome) ==> outcome == read,
    ensures
        text_of(values, "x-real-ip"@) == Some(announced) && read is Some ==> Some(address) == read,
        text_of(values, "x-real-ip"@) == Some(announced) && read is None ==> address == fallback,
        text_of(values, "x-real-ip"@) is None ==> address == fallback,
{
}

/// A handshake whose `sec-websocket-key` is missing or no text has no token. One
/// whose key is the base64 text of 16 bytes has the token of which they are the
/// digits. Any other key is invalid.
pub proof fn key_settles_the_token(
    headers: &hyper::HeaderMap<hyper::header::HeaderValue>,
    token: Result<u128, ConnectionError>,
)
    requires
        call_ensures(get_peer_token, (headers,), token),
    ensures
        ({
            let values = header_values(*headers);
            let name = "sec-websocket-key"@;
            if !values.contains_key(name) || !valid_utf8(values[name][0]) {
                token == Err::<u128, ConnectionError>(ConnectionError::MissingSecWebSocketKey)
            } else {
                match base64_decoded(decode_utf8(values[name][0])) {
                    Some(raw) => if raw.len() == 16 {
                        token matches Ok(value) && are_digits(value, raw)
                    } else {
                        token == Err::<u128, ConnectionError>(ConnectionError::InvalidValue)
                    },
                    None => token == Err::<u128, ConnectionError>(ConnectionError::InvalidValue),
                }
            }
        }),
{
    let values = header_values(*headers);
    let name = "sec-websocket-key"@;
    if values.contains_key(name) && valid_utf8(values[name][0]) {
        if let Some(raw) = base64_decoded(decode_utf8(values[name][0])) {
            if raw.len() == 16 {
                lemma_token_of_digits(token->Ok_0, raw);
            }
        }
    }
}

/// A peer is identified by the token that is read from its handshake. Where there
/// is none, it is refused for the same reason.
pub proof fn identity_has_the_token<A, F: FnOnce(&str) -> Option<A>>(
    headers: &hyper::HeaderMap<hyper::header::HeaderValue>,
    parse: F,
    fallback: A,
    token: Result<u128, ConnectionError>,
    identity: Result<Identity<A>, ConnectionError>,
)
    requires
        call_ensures(get_peer_token, (headers,), token),
        call_ensures(identify::<A, F>, (headers, parse, fallback), identity),
    ensures
        token matches Ok(value) ==> (identity matches Ok(peer) && peer.token == value),
        token matches Err(error) ==> identity == Err::<Identity<A>, ConnectionError>(error),
{
}

/// A peer is identified by the address that is announced for it, and by the one
/// that its connection came from where none is.
pub proof fn identity_has_the_address<A, F: FnOnce(&str) -> Option<A>>(
    headers: &hyper::HeaderMap<hyper::header::HeaderValue>,
    parse: F,
    fallback: A,
    announced: A,
    identity: Identity<A>,
)
    requires
        call_ensures(identify::<A, F>, (headers, parse, fallback), Ok(identity)),
    ensures
        announces(header_values(*headers), parse, announced) ==> identity.ip == announced,
        announces_nothing(header_values(*headers), parse) ==> identity.ip == fallback,
{
}

/// An identified peer keeps its address and its token, and the ways to it are
/// open and fresh.
pub proof fn peer_keeps_its_identity<A, P>(
    identity: Identity<A>,
    peer: Peer<A, P>,
    connection: Reconnect,
)
    requires
        call_ensures(Identity::<A>::into_peer::<P>, (identity,), (peer, connection)),
    ensures
        peer.ip == identity.ip,
        peer.token == identity.token,
        !peer.rx.closed,
        linked(peer.rx, peer.tx, connection),
{
}

} // verus!
