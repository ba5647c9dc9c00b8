//! The request by which a client opens a connection.

use vstd::prelude::*;

use crate::error::ConnectionError;
use crate::token::{
    are_digits, base64_decoded, base64_encoded, encode_token, is_visible, lemma_token_of_digits,
    token_of, token_text,
};

verus! {

/// Why `http` does not take a text for a URI. The library never looks inside.
#[verifier::external_type_specification]
#[verifier::external_body]
pub struct ExInvalidUri(hyper::http::uri::InvalidUri);

/// How `http` reads a text as a URI: nothing where it is none, and otherwise
/// its authority, if it has one.
pub uninterp spec fn uri_authority(url: Seq<char>) -> Option<Option<Seq<char>>>;

/// Calls `http`'s parser of `Uri`, and `Uri::authority` and `Authority::as_str`
/// on what it gives.
///
/// Trusted: whether the text is a URI, and what its authority is, depends on the
/// text alone. An authority is made of visible characters of ASCII: others are
/// refused.
#[verifier::external_body]
fn parse_authority(url: &str) -> (authority: Result<
    Option<String>,
    hyper::http::uri::InvalidUri,
>)
    ensures
        uri_authority(url@) == match authority {
            Ok(Some(text)) => Some(Some(text@)),
            Ok(None) => Some(None),
            Err(_) => None,
        },
        authority matches Ok(Some(text)) ==> is_visible(text@),
{
    url.parse::<hyper::Uri>().map(|uri| uri.authority().map(|a| a.as_str().to_string()))
}

/// Calls `rand`'s `random`.
///
/// Nothing is promised of the number: any one can come.
#[verifier::external_body]
fn random_token() -> (token: u128) {
    rand::random()
}

/// The host in an authority: what follows the first `@`, or all of it where
/// there is none.
pub open spec fn host_in(authority: Seq<char>) -> Seq<char> {
    if authority.contains('@') {
        authority.skip(authority.index_of_first('@')->0 + 1)
    } else {
        authority
    }
}

/// Finds the host in an authority.
pub fn host_of<'a>(authority: &'a str) -> (host: &'a str)
    ensures
        host@ == host_in(authority@),
{
    let length: usize = authority.unicode_len();
    let mut at: usize = 0;
    while at < length
        invariant
            length == authority@.len(),
            at <= length,
            forall|i: int| 0 <= i < at ==> authority@[i] != '@',
        decreases length - at,
    {
        if authority.get_char(at) == '@' {
            proof {
                authority@.index_of_first_ensures('@');
            }
            return authority.substring_char(at + 1, length);
        }
        at = at + 1;
    }
    authority
}

/// A request as it goes to a server: the words of its first line and its
/// headers, in order.
#[derive(Debug)]
pub struct ClientRequest {
    /// The method.
    pub method: String,
    /// The address.
    pub uri: String,
    /// The names and values of the headers.
    pub headers: Vec<(String, String)>,
}

/// A request, in sequences.
#[verifier::ext_equal]
pub struct ClientRequestView {
    /// The method.
    pub method: Seq<char>,
    /// The address.
    pub uri: Seq<char>,
    /// The names and values of the headers.
    pub headers: Seq<(Seq<char>, Seq<char>)>,
}

impl View for ClientRequest {
    type V = ClientRequestView;

    open spec fn view(&self) -> ClientRequestView {
        ClientRequestView {
            method: self.method@,
            uri: self.uri@,
            headers: self.headers@.map_values(|header: (String, String)| (header.0@, header.1@)),
        }
    }
}

impl ClientRequestView {
    /// The request for a WebSocket at `uri` on `host`, under `key`.
    pub open spec fn upgrade(uri: Seq<char>, host: Seq<char>, key: Seq<char>) -> Self {
        ClientRequestView {
            method: "GET"@,
            uri,
            headers: seq![
                ("Host"@, host),
                ("Connection"@, "Upgrade"@),
                ("Upgrade"@, "websocket"@),
                ("Sec-WebSocket-Version"@, "13"@),
                ("Sec-WebSocket-Key"@, key),
            ],
        }
    }
}

/// The host of an address, given how it was read as a URI, or the reason why it
/// has none.
pub open spec fn named_host(authority: Option<Option<Seq<char>>>) -> Result<
    Seq<char>,
    ConnectionError,
> {
    match authority {
        None => Err(ConnectionError::InvalidUri),
        Some(None) => Err(ConnectionError::NoHostName),
        Some(Some(text)) => if host_in(text).len() == 0 {
            Err(ConnectionError::EmptyHostName)
        } else {
            Ok(host_in(text))
        },
    }
}

/// Whether `request` is the one that opens a connection to `url` under `token`,
/// given how the address was read as a URI: where it has a host, the request for
/// a WebSocket there, and otherwise the reason why it has none.
pub open spec fn opens(
    url: Seq<char>,
    token: u128,
    authority: Option<Option<Seq<char>>>,
    request: Result<ClientRequest, ConnectionError>,
) -> bool {
    match named_host(authority) {
        Ok(host) => {
            &&& request matches Ok(made)
            &&& made@ == ClientRequestView::upgrade(
                url,
                host,
                token_text(token),
            )
        },
        Err(error) => request == Err::<ClientRequest, ConnectionError>(error),
    }
}

/// Whether a request holds, under the name of the key, a text that reads as
/// `token`.
pub open spec fn carries_token(request: ClientRequestView, token: u128) -> bool {
    exists|i: int|
        {
            &&& 0 <= i < request.headers.len()
            &&& (#[trigger] request.headers[i]).0 == "Sec-WebSocket-Key"@
            &&& token_of(base64_decoded(request.headers[i].1)) == Ok::<u128, ConnectionError>(token)
        }
}

/// Whether all names and values of the headers of a request are such that they
/// can be sent.
pub open spec fn is_sendable(request: ClientRequestView) -> bool {
    forall|i: int|
        0 <= i < request.headers.len() ==> is_visible((#[trigger] request.headers[i]).0)
            && is_visible(request.headers[i].1)
}

proof fn lemma_host_is_visible(authority: Seq<char>)
    requires
        is_visible(authority),
    ensures
        is_visible(host_in(authority)),
{
    let host = host_in(authority);
    if authority.contains('@') {
        authority.index_of_first_ensures('@');
        let skipped = authority.index_of_first('@')->0 + 1;
        assert forall|i: int| 0 <= i < host.len() implies '!' <= #[trigger] host[i] <= '~' by {
            assert(host[i] == authority[skipped + i]);
        }
    }
}

proof fn lemma_upgrade_is_sendable(uri: Seq<char>, host: Seq<char>, key: Seq<char>)
    requires
        is_visible(host),
        is_visible(key),
    ensures
        is_sendable(ClientRequestView::upgrade(uri, host, key)),
{
    reveal_strlit("Host");
    reveal_strlit("Connection");
    reveal_strlit("Upgrade");
    reveal_strlit("websocket");
    reveal_strlit("Sec-WebSocket-Version");
    reveal_strlit("13");
    reveal_strlit("Sec-WebSocket-Key");
}

/// Whether `text` is what a value is written as.
pub open spec fn written_as<S: std::fmt::Display + ?Sized>(value: &S, text: Seq<char>) -> bool {
    exists|written: String| #[trigger]
        vstd::string::to_string_from_display_ensures::<S>(value, written) && written@ == text
}

/// A text is written as nothing but itself.
pub proof fn text_is_written_as_nothing_else(value: &str, text: Seq<char>)
    ensures
        written_as(value, text) ==> text == value@,
{
    broadcast use vstd::string::to_string_from_display_ensures_for_str;
}

/// Where to connect to, and as whom.
pub struct ConnectionRequest {
    url: String,
    token: u128,
}

impl ConnectionRequest {
    /// The address to connect to.
    pub closed spec fn spec_url(&self) -> Seq<char> {
        self.url@
    }

    /// The token to connect with.
    pub closed spec fn spec_token(&self) -> u128 {
        self.token
    }

    /// Prepares a connection under a given token, to the address that `url` is
    /// written as.
    pub fn with_token<S: std::fmt::Display + ?Sized>(url: &S, token: u128) -> (request: Self)
        ensures
            written_as(url, request.spec_url()),
            request.spec_token() == token,
    {
        let url = url.to_string();
        ConnectionRequest { url, token }
    }

    /// Prepares a connection under a random token, to the address that `url` is
    /// written as.
    pub fn new<S: std::fmt::Display + ?Sized>(url: &S) -> (request: Self)
        ensures
            written_as(url, request.spec_url()),
    {
        ConnectionRequest::with_token(url, random_token())
    }

    /// Makes the request that opens the connection, once the address was read as
    /// a URI: `authority` is nothing where it is none, and otherwise its
    /// authority, if it has one.
    pub fn request_to(&self, authority: Option<Option<String>>) -> (request: Result<
        ClientRequest,
        ConnectionError,
    >)
        ensures
            opens(
                self.spec_url(),
                self.spec_token(),
                match authority {
                    Some(Some(text)) => Some(Some(text@)),
                    Some(None) => Some(None),
                    None => None,
                },
                request,
            ),
            request matches Ok(made) ==> carries_token(made@, self.spec_token()),
            request matches Ok(made) ==> is_visible(authority->0->0@) ==> is_sendable(made@),
    {
        let authority: String = match authority {
            Some(Some(text)) => text,
            Some(None) => return Err(ConnectionError::NoHostName),
            None => return Err(ConnectionError::InvalidUri),
        };
        let host = host_of(authority.as_str());
        if host.is_empty() {
            return Err(ConnectionError::EmptyHostName);
        }
        let key = encode_token(self.token);
        let ghost key_text = key@;
        let mut headers: Vec<(String, String)> = Vec::new();
        headers.push(("Host".to_owned(), host.to_owned()));
        headers.push(("Connection".to_owned(), "Upgrade".to_owned()));
        headers.push(("Upgrade".to_owned(), "websocket".to_owned()));
        headers.push(("Sec-WebSocket-Version".to_owned(), "13".to_owned()));
        headers.push(("Sec-WebSocket-Key".to_owned(), key));
        let request = ClientRequest { method: "GET".to_owned(), uri: self.url.clone(), headers };
        proof {
            assert(request@ =~= ClientRequestView::upgrade(self.spec_url(), host@, key_text));
            assert(request@.headers[4] == ("Sec-WebSocket-Key"@, key_text));
            if is_visible(authority@) {
                lemma_host_is_visible(authority@);
                lemma_upgrade_is_sendable(self.spec_url(), host@, key_text);
            }
        }
        Ok(request)
    }

    /// Makes the request that opens the connection.
    pub fn into_client_request(&self) -> (request: Result<ClientRequest, ConnectionError>)
        ensures
            opens(self.spec_url(), self.spec_token(), uri_authority(self.spec_url()), request),
            request matches Ok(made) ==> carries_token(made@, self.spec_token()),
            request matches Ok(made) ==> is_sendable(made@),
    {
        match parse_authority(self.url.as_str()) {
            Ok(authority) => self.request_to(Some(authority)),
            Err(_) => self.request_to(None),
        }
    }
}

/// The credentials before the first `@` of an authority are no part of its
/// host.
pub proof fn credentials_are_cut_off(credentials: Seq<char>, host: Seq<char>)
    requires
        !credentials.contains('@'),
    ensures
        host_in(credentials + seq!['@'] + host) == host,
{
    let authority = credentials + seq!['@'] + host;
    let at = credentials.len() as int;
    assert(authority[at] == '@');
    authority.index_of_first_ensures('@');
    let first = authority.index_of_first('@')->0;
    if first < at {
        assert(credentials[first] == '@');
    }
    assert(authority.skip(at + 1) =~= host);
}

/// An authority without an `@` is its own host, whatever its length.
pub proof fn bare_authority_is_the_host(authority: &str, host: &str)
    requires
        !authority@.contains('@'),
        call_ensures(host_of, (authority,), host),
    ensures
        host@ == authority@,
        host_in(authority@) == authority@,
{
}

/// An authority as it is written: the host, behind credentials and an `@` where
/// there are credentials.
pub open spec fn authority_of(credentials: Option<Seq<char>>, host: Seq<char>) -> Seq<char> {
    match credentials {
        Some(credentials) => credentials + seq!['@'] + host,
        None => host,
    }
}

/// Whether an authority is written without doubt about what is its host: there
/// is no `@` in the credentials, and none in the host either where there are no
/// credentials.
pub open spec fn is_plain(credentials: Option<Seq<char>>, host: Seq<char>) -> bool {
    match credentials {
        Some(credentials) => !credentials.contains('@'),
        None => !host.contains('@'),
    }
}

/// The host that is found in an authority is the one that it was written with.
pub proof fn host_is_found(
    credentials: Option<Seq<char>>,
    host: Seq<char>,
    authority: &str,
    found: &str,
)
    requires
        is_plain(credentials, host),
        authority@ == authority_of(credentials, host),
        call_ensures(host_of, (authority,), found),
    ensures
        found@ == host,
        host_in(authority@) == host,
{
    if let Some(credentials) = credentials {
        credentials_are_cut_off(credentials, host);
    }
}

/// Every authority can be written with credentials or without, so that it is
/// plain what its host is.
pub proof fn every_authority_is_plain(authority: Seq<char>) -> (parts: (
    Option<Seq<char>>,
    Seq<char>,
))
    ensures
        is_plain(parts.0, parts.1),
        authority == authority_of(parts.0, parts.1),
{
    if authority.contains('@') {
        authority.index_of_first_ensures('@');
        let at = authority.index_of_first('@')->0;
        let credentials = authority.take(at);
        let host = authority.skip(at + 1);
        assert(authority =~= credentials + seq!['@'] + host);
        assert(!credentials.contains('@'));
        (Some(credentials), host)
    } else {
        (None, authority)
    }
}

/// Whether a request is the one for a WebSocket at an address, with the given
/// host and token: a `GET` with exactly five headers, of which the last is the
/// base64 text of the digits of the token.
pub open spec fn asks_for_websocket(
    request: ClientRequest,
    uri: Seq<char>,
    host: Seq<char>,
    token: u128,
) -> bool {
    let headers = request.headers@;
    &&& request.method@ == "GET"@
    &&& request.uri@ == uri
    &&& headers.len() == 5
    &&& headers[0].0@ == "Host"@
    &&& headers[0].1@ == host
    &&& headers[1].0@ == "Connection"@
    &&& headers[1].1@ == "Upgrade"@
    &&& headers[2].0@ == "Upgrade"@
    &&& headers[2].1@ == "websocket"@
    &&& headers[3].0@ == "Sec-WebSocket-Version"@
    &&& headers[3].1@ == "13"@
    &&& headers[4].0@ == "Sec-WebSocket-Key"@
    &&& base64_decoded(headers[4].1@) matches Some(raw)
    &&& are_digits(token, raw)
    &&& headers[4].1@ == base64_encoded(raw)
}

proof fn lemma_upgrade_asks(request: ClientRequest, uri: Seq<char>, host: Seq<char>, token: u128)
    requires
        request@ == ClientRequestView::upgrade(uri, host, token_text(token)),
        carries_token(request@, token),
    ensures
        asks_for_websocket(request, uri, host, token),
{
    let headers = request.headers@;
    let upgrade = ClientRequestView::upgrade(uri, host, token_text(token)).headers;
    assert(request@.headers.len() == 5);
    assert forall|i: int| 0 <= i < 5 implies (#[trigger] headers[i]).0@ == upgrade[i].0
        && headers[i].1@ == upgrade[i].1 by {
        assert(request@.headers[i] == (headers[i].0@, headers[i].1@));
    }
    reveal_strlit("Host");
    reveal_strlit("Connection");
    reveal_strlit("Upgrade");
    reveal_strlit("Sec-WebSocket-Version");
    reveal_strlit("Sec-WebSocket-Key");
    let i = choose|i: int|
        {
            &&& 0 <= i < request@.headers.len()
            &&& (#[trigger] request@.headers[i]).0 == "Sec-WebSocket-Key"@
            &&& token_of(base64_decoded(request@.headers[i].1)) == Ok::<u128, ConnectionError>(
                token,
            )
        };
    assert(upgrade[i].0 == "Sec-WebSocket-Key"@);
    assert(i == 4) by {
        assert(upgrade[0].0.len() == 4);
        assert(upgrade[1].0.len() == 10);
        assert(upgrade[2].0.len() == 7);
        assert(upgrade[3].0.len() == 21);
    }
    let raw = base64_decoded(headers[4].1@)->0;
    lemma_token_of_digits(token, raw);
}

/// An address that is no URI, or that names no authority, or whose host is empty,
/// gives no request but the reason. Any other gives the request for a WebSocket
/// at that address on its host, under the token.
pub proof fn request_asks_for_the_host(
    request: &ConnectionRequest,
    authority: Option<Option<String>>,
    credentials: Option<Seq<char>>,
    host: Seq<char>,
    outcome: Result<ClientRequest, ConnectionError>,
)
    requires
        is_plain(credentials, host),
        authority matches Some(Some(text)) ==> text@ == authority_of(credentials, host),
        call_ensures(ConnectionRequest::request_to, (request, authority), outcome),
    ensures
        (match authority {
            None => outcome == Err::<ClientRequest, ConnectionError>(ConnectionError::InvalidUri),
            Some(None) => outcome == Err::<ClientRequest, ConnectionError>(
                ConnectionError::NoHostName,
            ),
            Some(Some(_)) => if host.len() == 0 {
                outcome == Err::<ClientRequest, ConnectionError>(ConnectionError::EmptyHostName)
            } else {
                outcome matches Ok(made) && asks_for_websocket(
                    made,
                    request.spec_url(),
                    host,
                    request.spec_token(),
                )
            },
        }),
{
    if let Some(credentials) = credentials {
        credentials_are_cut_off(credentials, host);
    }
    if let Ok(made) = outcome {
        lemma_upgrade_asks(made, request.spec_url(), host, request.spec_token());
    }
}

/// The request that opens a connection goes by how the address reads as a URI: it
/// asks for a WebSocket at that address on the host of its authority, under the
/// token, or there is none, and the reason is told.
pub proof fn address_settles_the_request(
    request: &ConnectionRequest,
    credentials: Option<Seq<char>>,
    host: Seq<char>,
    outcome: Result<ClientRequest, ConnectionError>,
)
    requires
        is_plain(credentials, host),
        call_ensures(ConnectionRequest::into_client_request, (request,), outcome),
    ensures
        uri_authority(request.spec_url()) is None ==> outcome == Err::<
            ClientRequest,
            ConnectionError,
        >(ConnectionError::InvalidUri),
        uri_authority(request.spec_url()) == Some(None::<Seq<char>>) ==> outcome == Err::<
            ClientRequest,
            ConnectionError,
        >(ConnectionError::NoHostName),
        uri_authority(request.spec_url()) == Some(Some(authority_of(credentials, host)))
            && host.len() == 0 ==> outcome == Err::<ClientRequest, ConnectionError>(
            ConnectionError::EmptyHostName,
        ),
        uri_authority(request.spec_url()) == Some(Some(authority_of(credentials, host)))
            && 0 < host.len() ==> (outcome matches Ok(made) && asks_for_websocket(
            made,
            request.spec_url(),
            host,
            request.spec_token(),
        ) && is_sendable(made@)),
{
    if let Some(credentials) = credentials {
        credentials_are_cut_off(credentials, host);
    }
    if let Ok(made) = outcome {
        if uri_authority(request.spec_url()) == Some(Some(authority_of(credentials, host))) {
            lemma_upgrade_asks(made, request.spec_url(), host, request.spec_token());
        }
    }
}

/// Whatever can be sent of a request holds nothing but printable characters of
/// ASCII in its headers.
pub proof fn sendable_headers_are_printable(request: ClientRequest, i: int)
    requires
        is_sendable(request@),
        0 <= i < request.headers@.len(),
    ensures
        is_visible(request.headers@[i].0@),
        is_visible(request.headers@[i].1@),
{
    assert(request@.headers[i] == (request.headers@[i].0@, request.headers@[i].1@));
}

/// A connection to a text is a connection to the address that the text is, under
/// the token that it is prepared with.
pub proof fn connection_is_to_the_text(url: &str, token: u128, request: ConnectionRequest)
    requires
        call_ensures(ConnectionRequest::with_token::<str>, (url, token), request),
    ensures
        request.spec_url() == url@,
        request.spec_token() == token,
{
    text_is_written_as_nothing_else(url, request.spec_url());
}

/// A connection under a random token is to the address that the text is, too.
pub proof fn random_connection_is_to_the_text(url: &str, request: ConnectionRequest)
    requires
        call_ensures(ConnectionRequest::new::<str>, (url,), request),
    ensures
        request.spec_url() == url@,
{
    text_is_written_as_nothing_else(url, request.spec_url());
}

/// A connection to a text asks for a WebSocket at the address that the text is,
/// under the token that it is prepared with.
pub proof fn text_and_token_are_asked_for(
    url: &str,
    token: u128,
    request: ConnectionRequest,
    made: ClientRequest,
)
    requires
        call_ensures(ConnectionRequest::with_token::<str>, (url, token), request),
        call_ensures(ConnectionRequest::into_client_request, (&request,), Ok(made)),
    ensures
        uri_authority(url@) matches Some(Some(authority)) && asks_for_websocket(
            made,
            url@,
            host_in(authority),
            token,
        ),
{
    text_is_written_as_nothing_else(url, request.spec_url());
    let authority = uri_authority(url@)->0->0;
    lemma_upgrade_asks(made, url@, host_in(authority), token);
}

} // verus!
