//! The client side of a call: it attaches its token, encodes the envelope,
//! and reads the outcome of the exchange that the caller performed.

use vstd::prelude::*;

use crate::envelope::{outcome_view, token_view, Request, RequestView, Response};
use crate::error::{Error, ErrorCode};
use crate::http::{HttpRequest, HttpResponse};
use crate::transport::{can_encode, decoded_response, encoded_request, JsonTransport};

verus! {

/// Marker struct for the client
pub struct Secrets;

/// HTTP client: the endpoint that calls are sent to
#[derive(Debug, Clone)]
pub struct HttpClient {
    /// API endpoint
    uri: String,
}

impl View for HttpClient {
    /// The endpoint.
    type V = Seq<char>;

    closed spec fn view(&self) -> Seq<char> {
        self.uri@
    }
}

impl HttpClient {
    /// Instantiates a new [HttpClient]
    pub fn new(uri: &str) -> (r: Self)
        ensures
            r@ == uri@,
    {
        HttpClient { uri: uri.to_owned() }
    }

    /// Returns the endpoint.
    pub fn uri(&self) -> (r: &str)
        ensures
            r@ == self@,
    {
        self.uri.as_str()
    }
}

/// Client of the secrets service
#[derive(Debug, Clone)]
pub struct Client {
    /// Transport
    sender: JsonTransport,
    /// Token
    token: Option<String>,
}

impl View for Client {
    /// The token that the client attaches to its calls.
    type V = Option<Seq<char>>;

    closed spec fn view(&self) -> Option<Seq<char>> {
        token_view(self.token)
    }
}

impl Client {
    /// Instantiates a new [Client], without a token.
    pub fn new() -> (r: Self)
        ensures
            r@ is None,
    {
        Client { sender: JsonTransport::new(), token: None }
    }

    /// Authenticates the client: later calls carry `token`.
    pub fn authenticate(&mut self, token: &str)
        ensures
            final(self)@ == Some(token@),
    {
        self.token = Some(token.to_owned());
    }

    /// Deauthenticates the client: later calls carry no token.
    pub fn deauthenticate(&mut self)
        ensures
            final(self)@ is None,
    {
        self.token = None;
    }

    /// Returns the token that calls carry.
    pub fn token(&self) -> (r: Option<String>)
        ensures
            token_view(r) == self@,
    {
        self.token.clone()
    }

    /// The envelope of a call of `method` with a JSON payload, carrying the
    /// client's token.
    pub fn request(&self, method: &str, data: Vec<u8>) -> (r: Request<Vec<u8>>)
        ensures
            r@ == (RequestView { method: method@, token: self@, data: data@ }),
    {
        Request::new(method, self.token.clone(), data)
    }

    /// Encodes a call of `method` with a JSON payload into the HTTP request
    /// to send. Fails with [ErrorCode::InvalidParam] when the method or the
    /// token cannot be carried in a header.
    pub fn encode_call(&self, method: &str, data: Vec<u8>) -> (r: Result<HttpRequest, Error>)
        ensures
            match r {
                Ok(h) => can_encode(method@, self@) && h@ == encoded_request(
                    RequestView { method: method@, token: self@, data: data@ },
                ),
                Err(e) => !can_encode(method@, self@) && e.code == ErrorCode::InvalidParam,
            },
    {
        let req = self.request(method, data);
        self.sender.encode_request(req)
    }

    /// Reads the outcome of a call from what the exchange gave: a failed
    /// transmission, with its diagnostic, becomes a [ErrorCode::NoSend]
    /// error; a response is decoded by its status class.
    pub fn finish_call(&self, sent: Result<HttpResponse, String>) -> (r: Result<
        Response<Vec<u8>, Vec<u8>>,
        Error,
    >)
        ensures
            sent is Err ==> (r is Err && r->Err_0.code == ErrorCode::NoSend && r->Err_0.message@
                == sent->Err_0@),
            sent is Ok ==> match r {
                Ok(o) => decoded_response(sent->Ok_0@) == Some(outcome_view(o)),
                Err(e) => decoded_response(sent->Ok_0@) is None && e.code == ErrorCode::InvalidParam,
            },
    {
        match sent {
            Err(message) => Err(Error { code: ErrorCode::NoSend, message }),
            Ok(res) => self.sender.decode_response(res),
        }
    }
}

} // verus!
