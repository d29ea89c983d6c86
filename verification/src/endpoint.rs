//! Registration of a channel with the application server: the one HTTP
//! request that tells the server where to push and how to encrypt.
//!
//! The request is described here, header by header and with its body as
//! text; sending it is the caller's part.

use base64::Engine;
use vstd::prelude::*;
use vstd::slice::slice_to_vec;
use vstd::string::StringExecFns;
use crate::channel::Channel;
use crate::json::{json_string_literal, push_member, push_text_member, with_member};

verus! {

/// The application that notifications are registered for.
pub const DEST_APP: &'static str = "nico_account_webpush";

/// The text that bytes are written as in base64 with the URL-safe alphabet
/// and no padding.
pub uninterp spec fn base64url_encode(bytes: Seq<u8>) -> Seq<char>;

/// Whether the base64 text of `len` bytes has a length that the machine
/// can hold.
pub open spec fn encodable(len: nat) -> bool {
    len / 3 * 4 + 3 <= usize::MAX
}

/// Runs `encode` of `base64::engine::general_purpose::URL_SAFE_NO_PAD`.
///
/// Trusted: the result is the one that [`base64url_encode`] names. `encode`
/// gives up where the length of the text overflows, which the bound on the
/// input rules out.
#[verifier::external_body]
fn bytes_to_base64url(bytes: &[u8]) -> (text: String)
    requires
        encodable(bytes@.len()),
    ensures
        text@ == base64url_encode(bytes@),
{
    base64::engine::general_purpose::URL_SAFE_NO_PAD.encode(bytes)
}

/// Where to push and how to encrypt: the delivery endpoint of a channel
/// with the authentication secret and the public key, both in base64.
#[derive(Debug)]
pub struct RegisterWebPushEndpointRequestEndpoint {
    pub endpoint: String,
    pub auth: String,
    pub p256dh: String,
}

/// The body of the registration request.
#[derive(Debug)]
pub struct RegisterWebPushEndpointRequest {
    pub dest_app: String,
    pub endpoint: RegisterWebPushEndpointRequestEndpoint,
}

/// The mathematical content of a [`RegisterWebPushEndpointRequest`].
pub ghost struct RegisterRequestView {
    pub dest_app: Seq<char>,
    pub endpoint: Seq<char>,
    pub auth: Seq<char>,
    pub p256dh: Seq<char>,
}

impl View for RegisterWebPushEndpointRequest {
    type V = RegisterRequestView;

    open spec fn view(&self) -> RegisterRequestView {
        RegisterRequestView {
            dest_app: self.dest_app@,
            endpoint: self.endpoint.endpoint@,
            auth: self.endpoint.auth@,
            p256dh: self.endpoint.p256dh@,
        }
    }
}

/// The text of the inner object of a body.
pub open spec fn endpoint_text(request: RegisterRequestView) -> Seq<char> {
    let located = with_member("{"@, true, "endpoint"@, json_string_literal(request.endpoint));
    let authenticated = with_member(located, false, "auth"@, json_string_literal(request.auth));
    with_member(authenticated, false, "p256dh"@, json_string_literal(request.p256dh)) + "}"@
}

/// The text of a body:
/// `{"destApp":..,"endpoint":{"endpoint":..,"auth":..,"p256dh":..}}`.
pub open spec fn register_request_text(request: RegisterRequestView) -> Seq<char> {
    let addressed = with_member("{"@, true, "destApp"@, json_string_literal(request.dest_app));
    with_member(addressed, false, "endpoint"@, endpoint_text(request)) + "}"@
}

impl RegisterWebPushEndpointRequest {
    /// The body for an endpoint, an authentication secret and a public key.
    pub fn new(endpoint: String, auth: Vec<u8>, p256dh: Vec<u8>) -> (request: Self)
        requires
            encodable(auth@.len()),
            encodable(p256dh@.len()),
        ensures
            request@ == (RegisterRequestView {
                dest_app: DEST_APP@,
                endpoint: endpoint@,
                auth: base64url_encode(auth@),
                p256dh: base64url_encode(p256dh@),
            }),
    {
        let auth = bytes_to_base64url(auth.as_slice());
        let p256dh = bytes_to_base64url(p256dh.as_slice());
        Self {
            dest_app: String::from_str(DEST_APP),
            endpoint: RegisterWebPushEndpointRequestEndpoint { endpoint, auth, p256dh },
        }
    }

    /// The body as JSON text.
    pub fn to_json(&self) -> (text: String)
        ensures
            text@ == register_request_text(self@),
    {
        let mut inner = String::from_str("{");
        push_text_member(&mut inner, true, "endpoint", self.endpoint.endpoint.as_str());
        push_text_member(&mut inner, false, "auth", self.endpoint.auth.as_str());
        push_text_member(&mut inner, false, "p256dh", self.endpoint.p256dh.as_str());
        inner.append("}");
        let mut text = String::from_str("{");
        push_text_member(&mut text, true, "destApp", self.dest_app.as_str());
        push_member(&mut text, false, "endpoint", inner.as_str());
        text.append("}");
        text
    }
}

/// One header of a request.
#[derive(Debug)]
pub struct Header {
    pub name: String,
    pub value: String,
}

/// A POST request for the caller to send.
#[derive(Debug)]
pub struct PostRequest {
    pub url: String,
    pub headers: Vec<Header>,
    pub body: String,
}

/// The mathematical content of a [`PostRequest`].
pub ghost struct PostRequestView {
    pub url: Seq<char>,
    pub headers: Seq<(Seq<char>, Seq<char>)>,
    pub body: Seq<char>,
}

/// Names and values of a sequence of headers.
pub open spec fn headers_view(headers: Seq<Header>) -> Seq<(Seq<char>, Seq<char>)> {
    Seq::new(headers.len(), |i: int| (headers[i].name@, headers[i].value@))
}

impl View for PostRequest {
    type V = PostRequestView;

    open spec fn view(&self) -> PostRequestView {
        PostRequestView {
            url: self.url@,
            headers: headers_view(self.headers@),
            body: self.body@,
        }
    }
}

/// The headers of a registration request: the session credential as a
/// cookie, the two headers that the server looks for, and the type of the
/// body.
pub open spec fn register_headers(session: Seq<char>) -> Seq<(Seq<char>, Seq<char>)> {
    seq![
        ("Cookie"@, session),
        ("X-Frontend-Id"@, "8"@),
        ("X-Request-With"@, "https://account.nicovideo.jp/my/account"@),
        ("Content-Type"@, "application/json"@),
    ]
}

/// The registration request for an endpoint, an authentication secret and
/// a public key, sent to `url` with the credential `session`.
pub open spec fn register_request(
    url: Seq<char>,
    session: Seq<char>,
    push_endpoint: Seq<char>,
    auth: Seq<u8>,
    p256dh: Seq<u8>,
) -> PostRequestView {
    PostRequestView {
        url,
        headers: register_headers(session),
        body: register_request_text(
            RegisterRequestView {
                dest_app: DEST_APP@,
                endpoint: push_endpoint,
                auth: base64url_encode(auth),
                p256dh: base64url_encode(p256dh),
            },
        ),
    }
}

/// A header.
fn header(name: &str, value: &str) -> (h: Header)
    ensures
        h.name@ == name@,
        h.value@ == value@,
{
    Header { name: String::from_str(name), value: String::from_str(value) }
}

/// The client of the application server's registration interface: where it
/// is reached and the credential to present.
pub struct NicoPushEndpointClient {
    pub url: String,
    pub session: String,
}

impl NicoPushEndpointClient {
    /// A client for the interface at `url`, with the credential `session`.
    pub fn new(url: String, session: String) -> (client: Self)
        ensures
            client.url@ == url@,
            client.session@ == session@,
    {
        Self { url, session }
    }

    /// The request that registers a channel's endpoint, authentication
    /// secret and public key.
    pub fn register(&self, push_endpoint: String, auth: Vec<u8>, p256dh: Vec<u8>) -> (request:
        PostRequest)
        requires
            encodable(auth@.len()),
            encodable(p256dh@.len()),
        ensures
            request@ == register_request(
                self.url@,
                self.session@,
                push_endpoint@,
                auth@,
                p256dh@,
            ),
    {
        let body = RegisterWebPushEndpointRequest::new(push_endpoint, auth, p256dh);
        let mut headers: Vec<Header> = Vec::new();
        headers.push(header("Cookie", self.session.as_str()));
        headers.push(header("X-Frontend-Id", "8"));
        headers.push(header("X-Request-With", "https://account.nicovideo.jp/my/account"));
        headers.push(header("Content-Type", "application/json"));
        assert(headers_view(headers@) =~= register_headers(self.session@));
        PostRequest { url: self.url.clone(), headers, body: body.to_json() }
    }

    /// The request that registers a channel of a session: its endpoint, and
    /// the authentication secret and public key of its key material.
    pub fn register_channel(&self, channel: &Channel) -> (request: PostRequest)
        ensures
            request@ == register_request(
                self.url@,
                self.session@,
                channel@.endpoint,
                channel@.keys.auth_secret,
                channel@.keys.public_key,
            ),
    {
        let auth = slice_to_vec(channel.keys.auth_secret());
        let p256dh = slice_to_vec(channel.keys.public_key());
        self.register(channel.endpoint.clone(), auth, p256dh)
    }

    /// Whether a response status reports that the channel was registered:
    /// any of 200 to 299.
    pub fn accepted(status: u16) -> (r: bool)
        ensures
            r == (200 <= status < 300),
    {
        200 <= status && status < 300
    }
}

} // verus!
