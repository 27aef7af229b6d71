//! The WebSocket handshake.

use vstd::prelude::*;
use vstd::string::*;
use vstd::utf8::valid_utf8;

verus! {

/// The header values of an HTTP request that the WebSocket handshake reads, each list in the
/// order of the request.
#[derive(Debug, Clone)]
pub struct RequestHead {
    /// Values of `Connection`.
    pub connection: Vec<Vec<u8>>,
    /// Values of `Upgrade`.
    pub upgrade: Vec<Vec<u8>>,
    /// Values of `Sec-WebSocket-Key`.
    pub key: Vec<Vec<u8>>,
    /// Values of `Sec-WebSocket-Version`.
    pub version: Vec<Vec<u8>>,
    /// Values of `Sec-WebSocket-Extensions`.
    pub extensions: Vec<Vec<u8>>,
}

/// The byte may occur in the value of a header.
pub open spec fn header_byte(b: u8) -> bool {
    b >= 32 && b != 127 || b == 9
}

/// The bytes may be the value of a header.
pub open spec fn header_value(value: Seq<u8>) -> bool {
    forall|i: int| 0 <= i < value.len() ==> header_byte(#[trigger] value[i])
}

/// Each entry may be the value of a header.
pub open spec fn header_values(values: Seq<Vec<u8>>) -> bool {
    forall|i: int| 0 <= i < values.len() ==> header_value(#[trigger] values[i]@)
}

/// The bytes of an ASCII text.
pub open spec fn ascii(text: Seq<char>) -> Seq<u8> {
    Seq::new(text.len(), |i: int| text[i] as u8)
}

/// ASCII whitespace.
pub open spec fn is_space(b: u8) -> bool {
    b == 32 || b == 9 || b == 10 || b == 12 || b == 13
}

/// The lower case of an ASCII letter; any other byte as it is.
pub open spec fn lower(b: u8) -> u8 {
    if 65 <= b <= 90 {
        (b + 32) as u8
    } else {
        b
    }
}

/// The two differ at most in the case of ASCII letters.
pub open spec fn same_ignoring_case(a: Seq<u8>, b: Seq<u8>) -> bool {
    a.len() == b.len() && forall|i: int| 0 <= i < a.len() ==> lower(#[trigger] a[i]) == lower(b[i])
}

/// Between the start of an entry of a comma-separated list and `from` there is only whitespace.
pub open spec fn entry_starts(value: Seq<u8>, start: int, from: int) -> bool {
    &&& 0 <= start <= from
    &&& start == 0 || value[start - 1] == 44
    &&& forall|i: int| start <= i < from ==> is_space(#[trigger] value[i])
}

/// Between `to` and the end of an entry of a comma-separated list there is only whitespace.
pub open spec fn entry_ends(value: Seq<u8>, to: int, end: int) -> bool {
    &&& to <= end <= value.len()
    &&& end == value.len() || value[end] == 44
    &&& forall|i: int| to <= i < end ==> is_space(#[trigger] value[i])
}

/// `value[from..to]`, with whitespace around it, is an entry of the comma-separated list `value`.
pub open spec fn list_entry(value: Seq<u8>, from: int, to: int) -> bool {
    &&& 0 <= from <= to <= value.len()
    &&& exists|start: int| #[trigger] entry_starts(value, start, from)
    &&& exists|end: int| #[trigger] entry_ends(value, to, end)
}

/// One of the header values lists the wanted text, in any case.
pub open spec fn lists(values: Seq<Seq<u8>>, wanted: Seq<char>) -> bool {
    exists|i: int, from: int, to: int|
        0 <= i < values.len() && #[trigger] list_entry(values[i], from, to) && same_ignoring_case(
            values[i].subrange(from, to),
            ascii(wanted),
        )
}

/// The values of a header, of a request with the given headers.
pub open spec fn values_of(headers: Map<Seq<char>, Seq<Seq<u8>>>, name: Seq<char>) -> Seq<
    Seq<u8>,
> {
    if headers.contains_key(name) {
        headers[name]
    } else {
        seq![]
    }
}

/// The name is one of those that the handshake reads.
pub open spec fn handshake_header(name: Seq<char>) -> bool {
    ||| name == "connection"@
    ||| name == "upgrade"@
    ||| name == "sec-websocket-key"@
    ||| name == "sec-websocket-version"@
    ||| name == "sec-websocket-extensions"@
}

/// The headers that the handshake reads.
#[verifier::ext_equal]
pub struct HandshakeHeaders {
    pub connection: Seq<Seq<u8>>,
    pub upgrade: Seq<Seq<u8>>,
    pub key: Seq<Seq<u8>>,
    pub version: Seq<Seq<u8>>,
    pub extensions: Seq<Seq<u8>>,
}

/// The headers of a request that the handshake reads.
pub open spec fn handshake_headers(headers: Map<Seq<char>, Seq<Seq<u8>>>) -> HandshakeHeaders {
    HandshakeHeaders {
        connection: values_of(headers, "connection"@),
        upgrade: values_of(headers, "upgrade"@),
        key: values_of(headers, "sec-websocket-key"@),
        version: values_of(headers, "sec-websocket-version"@),
        extensions: values_of(headers, "sec-websocket-extensions"@),
    }
}

impl HandshakeHeaders {
    /// The headers ask for an upgrade to a WebSocket connection.
    pub open spec fn asks_for_upgrade(self) -> bool {
        lists(self.connection, "upgrade"@) && lists(self.upgrade, "websocket"@)
    }

    /// What is wrong with the handshake, where something is.
    pub open spec fn fault(self) -> Option<HandshakeFault> {
        if !self.asks_for_upgrade() {
            Some(HandshakeFault::KeyMismatch)
        } else if self.key.len() == 0 {
            Some(HandshakeFault::NoKey)
        } else if self.version.len() == 0 || self.version[0] != ascii("13"@) {
            Some(HandshakeFault::NoVersion)
        } else if self.key[0].len() != 24 {
            Some(HandshakeFault::KeyMismatch)
        } else if exists|i: int|
            0 <= i < self.extensions.len() && !valid_utf8(#[trigger] self.extensions[i]) {
            Some(HandshakeFault::NoUtf8)
        } else {
            None
        }
    }
}

/// The bytes of each header value.
pub open spec fn bytes_of(values: Seq<Vec<u8>>) -> Seq<Seq<u8>> {
    Seq::new(values.len(), |i: int| values[i]@)
}

impl RequestHead {
    /// Each entry may be the value of a header.
    pub open spec fn valid(self) -> bool {
        &&& header_values(self.connection@)
        &&& header_values(self.upgrade@)
        &&& header_values(self.key@)
        &&& header_values(self.version@)
        &&& header_values(self.extensions@)
    }
}

impl View for RequestHead {
    type V = HandshakeHeaders;

    open spec fn view(&self) -> HandshakeHeaders {
        HandshakeHeaders {
            connection: bytes_of(self.connection@),
            upgrade: bytes_of(self.upgrade@),
            key: bytes_of(self.key@),
            version: bytes_of(self.version@),
            extensions: bytes_of(self.extensions@),
        }
    }
}

/// The ways in which a handshake fails.
pub enum HandshakeFault {
    /// No upgrade is asked for, or the key has not 24 bytes.
    KeyMismatch,
    /// There is no key.
    NoKey,
    /// The version is not 13.
    NoVersion,
    /// The extensions are no UTF-8.
    NoUtf8,
}

impl HandshakeFault {
    /// The text describes the fault.
    pub open spec fn described_by(self, text: Seq<char>) -> bool {
        match self {
            HandshakeFault::KeyMismatch => text == "websocket key mismatch"@,
            HandshakeFault::NoKey => text == "header Sec-WebSocket-Key not found"@,
            HandshakeFault::NoVersion => text == "header Sec-WebSocket-Version not found"@,
            HandshakeFault::NoUtf8 => "utf-8 decoding error: "@.is_prefix_of(text),
        }
    }
}

/// The response that completes a handshake: its status and the values of its headers.
#[derive(Debug, Clone, PartialEq, Eq)]
pub struct UpgradeResponse {
    /// Status code.
    pub status: u16,
    /// Value of `Connection`.
    pub connection: Vec<u8>,
    /// Value of `Upgrade`.
    pub upgrade: Vec<u8>,
    /// Value of `Sec-WebSocket-Accept`.
    pub accept: Vec<u8>,
}

impl UpgradeResponse {
    /// The response tells the client that the connection is upgraded, and answers its key.
    pub open spec fn completes(self, key: Seq<u8>) -> bool {
        &&& self.status == 101
        &&& self.connection@ == ascii("upgrade"@)
        &&& self.upgrade@ == ascii("websocket"@)
        &&& self.accept@ == accept_key(key)
    }
}

/// Names the value that `soketto` answers to a `Sec-WebSocket-Key`.
pub uninterp spec fn accept_key(key: Seq<u8>) -> Seq<u8>;

/// HTTP request of hyper.
#[verifier::external_type_specification]
#[verifier::external_body]
#[verifier::reject_recursive_types(T)]
pub struct ExRequest<T>(hyper::Request<T>);

/// Names the values that a request holds for each of its headers, in order.
pub uninterp spec fn request_headers(request: hyper::Request<()>) -> Map<Seq<char>, Seq<Seq<u8>>>;

/// `hyper::Request::new` makes a request without headers.
#[verifier::external_body]
fn empty_request() -> (r: hyper::Request<()>)
    ensures
        request_headers(r).dom() == Set::<Seq<char>>::empty(),
{
    hyper::Request::new(())
}

/// `hyper::HeaderMap::append` adds a value to the end of the values of a header. It panics on a
/// name that no header can have and on too many names; it is called with the names that the
/// handshake reads only. `hyper::header::HeaderValue::from_bytes`, which makes the value, takes tabs
/// and all bytes that are no control characters.
#[verifier::external_body]
fn append_header(request: &mut hyper::Request<()>, name: &'static str, value: &Vec<u8>)
    requires
        handshake_header(name@),
        header_value(value@),
        forall|n: Seq<char>| #[trigger]
            request_headers(*old(request)).contains_key(n) ==> handshake_header(n),
    ensures
        request_headers(*final(request)) == request_headers(*old(request)).insert(
            name@,
            values_of(request_headers(*old(request)), name@).push(value@),
        ),
{
    let value = hyper::header::HeaderValue::from_bytes(value).unwrap();
    request.headers_mut().append(name, value);
}

/// `soketto::handshake::http::is_upgrade_request` tells whether the `Connection` values list
/// `upgrade` and the `Upgrade` values list `websocket`.
#[verifier::external_body]
fn asks_for_websocket(request: &hyper::Request<()>) -> (r: bool)
    ensures
        r == handshake_headers(request_headers(*request)).asks_for_upgrade(),
{
    soketto::handshake::http::is_upgrade_request(request)
}

/// `soketto::handshake::http::Server::receive_request`, on a server without extensions, completes
/// the handshake unless one of the listed faults is found, which its error then describes.
#[verifier::external_body]
fn complete_handshake(request: &hyper::Request<()>) -> (r: Result<UpgradeResponse, String>)
    ensures
        match r {
            Ok(response) => {
                &&& handshake_headers(request_headers(*request)).fault() is None
                &&& response.status == 101
                &&& response.connection@ == ascii("upgrade"@)
                &&& response.upgrade@ == ascii("websocket"@)
                &&& response.accept@ == accept_key(
                    handshake_headers(request_headers(*request)).key[0],
                )
            },
            Err(text) => handshake_headers(request_headers(*request)).fault() matches Some(fault)
                && fault.described_by(text@),
        },
{
    match soketto::handshake::http::Server::new().receive_request(request) {
        Ok(response) => Ok(UpgradeResponse {
            status: response.status().as_u16(),
            connection: response.headers()["connection"].as_bytes().to_vec(),
            upgrade: response.headers()["upgrade"].as_bytes().to_vec(),
            accept: response.headers()["sec-websocket-accept"].as_bytes().to_vec(),
        }),
        Err(err) => Err(err.to_string()),
    }
}

/// Adds the values to the end of the values of a header.
fn append_headers(request: &mut hyper::Request<()>, name: &'static str, values: &Vec<Vec<u8>>)
    requires
        handshake_header(name@),
        header_values(values@),
        forall|n: Seq<char>| #[trigger]
            request_headers(*old(request)).contains_key(n) ==> handshake_header(n),
    ensures
        forall|n: Seq<char>| #[trigger]
            request_headers(*final(request)).contains_key(n) ==> handshake_header(n),
        values_of(request_headers(*final(request)), name@) == values_of(
            request_headers(*old(request)),
            name@,
        ) + bytes_of(values@),
        forall|n: Seq<char>|
            n != name@ ==> #[trigger] values_of(request_headers(*final(request)), n) == values_of(
                request_headers(*old(request)),
                n,
            ),
{
    for i in 0..values.len()
        invariant
            handshake_header(name@),
            header_values(values@),
            forall|n: Seq<char>| #[trigger]
                request_headers(*request).contains_key(n) ==> handshake_header(n),
            values_of(request_headers(*request), name@) == values_of(
                request_headers(*old(request)),
                name@,
            ) + bytes_of(values@).take(i as int),
            forall|n: Seq<char>|
                n != name@ ==> #[trigger] values_of(request_headers(*request), n) == values_of(
                    request_headers(*old(request)),
                    n,
                ),
    {
        let ghost before = request_headers(*request);
        append_header(request, name, &values[i]);
        assert(forall|n: Seq<char>|
            n != name@ ==> #[trigger] values_of(request_headers(*request), n) == values_of(
                before,
                n,
            ));
        assert(bytes_of(values@).take(i + 1) == bytes_of(values@).take(i as int).push(
            values@[i as int]@,
        ));
    }
    assert(bytes_of(values@).take(values@.len() as int) == bytes_of(values@));
}

fn is_header_value(value: &Vec<u8>) -> (r: bool)
    ensures
        r == header_value(value@),
{
    for i in 0..value.len()
        invariant
            forall|k: int| 0 <= k < i ==> header_byte(#[trigger] value@[k]),
    {
        let b: u8 = value[i];
        if !(b >= 32 && b != 127 || b == 9) {
            assert(!header_byte(value@[i as int]));
            return false;
        }
    }
    true
}

fn are_header_values(values: &Vec<Vec<u8>>) -> (r: bool)
    ensures
        r == header_values(values@),
{
    for i in 0..values.len()
        invariant
            forall|k: int| 0 <= k < i ==> header_value(#[trigger] values@[k]@),
    {
        if !is_header_value(&values[i]) {
            assert(!header_value(values@[i as int]@));
            return false;
        }
    }
    true
}

impl RequestHead {
    /// Each entry may be the value of a header.
    pub fn is_valid(&self) -> (r: bool)
        ensures
            r == self.valid(),
    {
        are_header_values(&self.connection) && are_header_values(&self.upgrade)
            && are_header_values(&self.key) && are_header_values(&self.version)
            && are_header_values(&self.extensions)
    }

    /// The request of hyper with these headers.
    fn request(&self) -> (r: hyper::Request<()>)
        requires
            self.valid(),
        ensures
            handshake_headers(request_headers(r)) == self@,
    {
        let mut request = empty_request();
        proof {
            reveal_strlit("connection");
            reveal_strlit("upgrade");
            reveal_strlit("sec-websocket-key");
            reveal_strlit("sec-websocket-version");
            reveal_strlit("sec-websocket-extensions");
            assert("connection"@.len() == 10 && "upgrade"@.len() == 7);
            assert("sec-websocket-key"@.len() == 17 && "sec-websocket-version"@.len() == 21);
            assert("sec-websocket-extensions"@.len() == 24);
        }
        append_headers(&mut request, "connection", &self.connection);
        append_headers(&mut request, "upgrade", &self.upgrade);
        append_headers(&mut request, "sec-websocket-key", &self.key);
        append_headers(&mut request, "sec-websocket-version", &self.version);
        append_headers(&mut request, "sec-websocket-extensions", &self.extensions);
        request
    }

    /// Tells whether the request asks for an upgrade to a WebSocket connection.
    pub fn is_upgrade_request(&self) -> (r: bool)
        requires
            self.valid(),
        ensures
            r == self@.asks_for_upgrade(),
    {
        asks_for_websocket(&self.request())
    }

    /// Completes the handshake, or describes what is wrong with it.
    pub fn receive_request(&self) -> (r: Result<UpgradeResponse, String>)
        requires
            self.valid(),
        ensures
            match r {
                Ok(response) => self@.fault() is None && response.completes(self@.key[0]),
                Err(text) => self@.fault() matches Some(fault) && fault.described_by(text@),
            },
    {
        complete_handshake(&self.request())
    }
}

} // verus!
