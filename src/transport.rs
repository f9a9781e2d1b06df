//! JSON over HTTP: the method travels in the `X-RPC-METHOD` header, the token
//! in `Authorization: Bearer <token>`, the JSON payload in the body, and the
//! outcome of a call in the status class of the response.

use vstd::prelude::*;
use vstd::string::*;
use vstd::utf8::encode_utf8;

use crate::envelope::{outcome_view, token_view, Request, RequestView, Response};
use crate::error::{code_status, error_json, Error, ErrorCode};
use crate::http::{
    decimal, decimal_text, failure_status, header_text, header_value, is_failure,
    is_header_char, is_header_text, is_success, lookup, same_name, success_status, Header, HttpRequest, HttpRequestView,
    HttpResponse, HttpResponseView,
};

verus! {

/// Headers of every JSON body of `len` bytes.
pub open spec fn json_headers(len: nat) -> Seq<(Seq<char>, Seq<char>)> {
    seq![("Content-Type"@, "application/json"@), ("Content-Length"@, decimal_text(len))]
}

/// The `Authorization` header that carries a token, if there is one.
pub open spec fn auth_headers(token: Option<Seq<char>>) -> Seq<(Seq<char>, Seq<char>)> {
    match token {
        Some(t) => seq![("Authorization"@, "Bearer "@ + t)],
        None => seq![],
    }
}

/// Method and token can be carried as header values.
pub open spec fn can_encode(method: Seq<char>, token: Option<Seq<char>>) -> bool {
    is_header_text(method) && match token {
        Some(t) => is_header_text(t),
        None => true,
    }
}

/// The HTTP request that carries an envelope.
pub open spec fn encoded_request(r: RequestView<Seq<u8>>) -> HttpRequestView {
    HttpRequestView {
        headers: seq![("X-RPC-METHOD"@, r.method)] + auth_headers(r.token) + json_headers(
            r.data.len(),
        ),
        body: r.data,
    }
}

/// Starts with the bearer scheme.
pub open spec fn is_bearer(auth: Seq<char>) -> bool {
    "Bearer "@.len() <= auth.len() && auth.subrange(0, "Bearer "@.len() as int) == "Bearer "@
}

/// The envelope that an HTTP request carries, or the diagnostic that
/// rejects it.
pub open spec fn decoded_request(m: HttpRequestView) -> Result<RequestView<Seq<u8>>, Seq<char>> {
    match lookup(m.headers, "X-RPC-METHOD"@) {
        None => Err("Missing method header"@),
        Some(method) => if !is_header_text(method) {
            Err("Invalid method header: failed to convert header to a str"@)
        } else {
            match lookup(m.headers, "Authorization"@) {
                None => Ok(RequestView { method, token: None, data: m.body }),
                Some(auth) => if !is_header_text(auth) {
                    Err("Invalid auth header: failed to convert header to a str"@)
                } else if is_bearer(auth) {
                    Ok(
                        RequestView {
                            method,
                            token: Some(auth.subrange("Bearer "@.len() as int, auth.len() as int)),
                            data: m.body,
                        },
                    )
                } else {
                    Err("Invalid auth header: "@ + auth)
                },
            }
        },
    }
}

/// Response with the given status and a JSON body.
pub open spec fn json_response(status: u16, body: Seq<u8>) -> HttpResponseView {
    HttpResponseView { status, headers: json_headers(body.len()), body }
}

/// The HTTP response that carries an outcome: 200 for a success, 400 for an
/// error.
pub open spec fn encoded_response(r: Result<Seq<u8>, Seq<u8>>) -> HttpResponseView {
    match r {
        Ok(b) => json_response(200, b),
        Err(b) => json_response(400, b),
    }
}

/// The HTTP response that carries a framework error.
pub open spec fn error_response(code: ErrorCode, message: Seq<char>) -> HttpResponseView {
    json_response(code_status(code), encode_utf8(error_json(code, message)))
}

/// The outcome that an HTTP response carries; `None` when its status is
/// neither a success nor a failure.
pub open spec fn decoded_response(m: HttpResponseView) -> Option<Result<Seq<u8>, Seq<u8>>> {
    if is_success(m.status) {
        Some(Ok(m.body))
    } else if is_failure(m.status) {
        Some(Err(m.body))
    } else {
        None
    }
}

/// Whether `s` starts with `p`.
fn has_prefix(s: &str, p: &str) -> (r: bool)
    ensures
        r == (p@.len() <= s@.len() && s@.subrange(0, p@.len() as int) == p@),
{
    let n = p.unicode_len();
    if s.unicode_len() < n {
        return false;
    }
    let mut i: usize = 0;
    while i < n
        invariant
            n == p@.len(),
            n <= s@.len(),
            i <= n,
            forall|j: int| 0 <= j < i ==> s@[j] == p@[j],
        decreases n - i,
    {
        if s.get_char(i) != p.get_char(i) {
            assert(s@.subrange(0, n as int)[i as int] != p@[i as int]);
            return false;
        }
        i = i + 1;
    }
    assert(s@.subrange(0, n as int) =~= p@);
    true
}

/// Headers of a JSON body of `len` bytes.
fn content_headers(len: usize) -> (r: Vec<Header>)
    ensures
        crate::http::headers_view(r@) == json_headers(len as nat),
{
    let mut hs: Vec<Header> = Vec::new();
    hs.push(Header::new("Content-Type", "application/json"));
    hs.push(Header { name: String::from_str("Content-Length"), value: decimal(len) });
    assert(crate::http::headers_view(hs@) =~= json_headers(len as nat));
    hs
}

/// JSON transport
#[derive(Debug, Clone)]
pub struct JsonTransport {}

impl JsonTransport {
    /// Instantiates a new [JsonTransport]
    pub fn new() -> (r: Self) {
        JsonTransport {  }
    }

    /// Encodes an envelope whose payload is already JSON into an HTTP
    /// request. Fails with [ErrorCode::InvalidParam] when the method or the
    /// token holds a character that a header value cannot carry.
    pub fn encode_request(&self, req: Request<Vec<u8>>) -> (r: Result<HttpRequest, Error>)
        ensures
            match r {
                Ok(h) => can_encode(req.method@, token_view(req.token)) && h@ == encoded_request(
                    req@,
                ),
                Err(e) => !can_encode(req.method@, token_view(req.token)) && e.code
                    == ErrorCode::InvalidParam,
            },
    {
        if !header_text(req.method.as_str()) {
            return Err(Error::invalid_body("Invalid method header"));
        }
        let mut headers: Vec<Header> = Vec::new();
        headers.push(Header { name: String::from_str("X-RPC-METHOD"), value: req.method });
        let ghost auth: Seq<(Seq<char>, Seq<char>)> = seq![];
        match req.token {
            Some(t) => {
                if !header_text(t.as_str()) {
                    return Err(Error::invalid_body("Invalid auth header"));
                }
                let value = String::from_str("Bearer ").concat(t.as_str());
                headers.push(Header { name: String::from_str("Authorization"), value });
                proof {
                    auth = seq![("Authorization"@, "Bearer "@ + t@)];
                }
            },
            None => {},
        }
        let len = req.data.len();
        let mut tail = content_headers(len);
        let ghost front = crate::http::headers_view(headers@);
        headers.append(&mut tail);
        assert(crate::http::headers_view(headers@) =~= front + json_headers(len as nat));
        assert(front =~= seq![("X-RPC-METHOD"@, req.method@)] + auth);
        Ok(HttpRequest { headers, body: req.data })
    }

    /// Decodes an HTTP request into an envelope whose payload is still JSON.
    /// A missing or unreadable method header, and an `Authorization` header
    /// that is unreadable or not of the bearer scheme, are rejected with
    /// [ErrorCode::InvalidParam]; a missing `Authorization` header gives no
    /// token.
    pub fn decode_request(&self, req: HttpRequest) -> (r: Result<Request<Vec<u8>>, Error>)
        ensures
            match r {
                Ok(v) => decoded_request(req@) == Ok::<_, Seq<char>>(v@),
                Err(e) => e.code == ErrorCode::InvalidParam && decoded_request(req@) == Err::<
                    RequestView<Seq<u8>>,
                    _,
                >(e.message@),
            },
    {
        let method = match header_value(&req.headers, "X-RPC-METHOD") {
            None => {
                return Err(Error::invalid_body("Missing method header"));
            },
            Some(m) => {
                if !header_text(m.as_str()) {
                    return Err(
                        Error::invalid_body("Invalid method header: failed to convert header to a str"),
                    );
                }
                m.clone()
            },
        };
        let token = match header_value(&req.headers, "Authorization") {
            None => None,
            Some(a) => {
                if !header_text(a.as_str()) {
                    return Err(
                        Error::invalid_body("Invalid auth header: failed to convert header to a str"),
                    );
                }
                if !has_prefix(a.as_str(), "Bearer ") {
                    let message = String::from_str("Invalid auth header: ").concat(a.as_str());
                    return Err(Error { code: ErrorCode::InvalidParam, message });
                }
                let start = "Bearer ".unicode_len();
                let end = a.as_str().unicode_len();
                Some(String::from_str(a.as_str().substring_char(start, end)))
            },
        };
        Ok(Request { method, token, data: req.body })
    }

    /// Encodes a success payload: status 200 and a JSON body.
    pub fn encode_ok(&self, value: Vec<u8>) -> (r: HttpResponse)
        ensures
            r@ == json_response(200, value@),
    {
        let headers = content_headers(value.len());
        HttpResponse { status: 200, headers, body: value }
    }

    /// Encodes an error payload: status 400 and a JSON body.
    pub fn encode_err(&self, error: Vec<u8>) -> (r: HttpResponse)
        ensures
            r@ == json_response(400, error@),
    {
        let headers = content_headers(error.len());
        HttpResponse { status: 400, headers, body: error }
    }

    /// Encodes an outcome: a success through [JsonTransport::encode_ok], an
    /// error through [JsonTransport::encode_err].
    pub fn encode_response(&self, res: Response<Vec<u8>, Vec<u8>>) -> (r: HttpResponse)
        ensures
            r@ == encoded_response(outcome_view(res)),
    {
        match res {
            Ok(ok) => self.encode_ok(ok),
            Err(err) => self.encode_err(err),
        }
    }

    /// Encodes a framework error as its JSON text, with the status that its
    /// kind calls for.
    pub fn encode_error(&self, error: &Error) -> (r: HttpResponse)
        ensures
            r@ == error_response(error.code, error.message@),
    {
        let body = error.to_json();
        let headers = content_headers(body.len());
        HttpResponse { status: error.code.status(), headers, body }
    }

    /// Reads the outcome of a call from an HTTP response: the body of a 2xx
    /// response is the success payload, that of a 4xx or 5xx response the
    /// error payload. Any other status is rejected with
    /// [ErrorCode::InvalidParam].
    pub fn decode_response(&self, res: HttpResponse) -> (r: Result<Response<Vec<u8>, Vec<u8>>, Error>)
        ensures
            match r {
                Ok(o) => decoded_response(res@) == Some(outcome_view(o)),
                Err(e) => decoded_response(res@) is None && e.code == ErrorCode::InvalidParam,
            },
    {
        if success_status(res.status) {
            Ok(Ok(res.body))
        } else if failure_status(res.status) {
            Ok(Err(res.body))
        } else {
            Err(Error::invalid_body("Unexpected response status"))
        }
    }
}


/// Round trip of an envelope: encoding it into an HTTP request, carrying that
/// request unchanged and decoding it on the serving side gives back the same
/// method, token and payload, for every method and token that a header value
/// can carry.
pub proof fn lemma_request_round_trip(r: RequestView<Seq<u8>>)
    requires
        can_encode(r.method, r.token),
    ensures
        decoded_request(encoded_request(r)) == Ok::<_, Seq<char>>(r),
{
    reveal_strlit("X-RPC-METHOD");
    reveal_strlit("Authorization");
    reveal_strlit("Content-Type");
    reveal_strlit("Content-Length");
    reveal_strlit("Bearer ");
    let hs = encoded_request(r).headers;
    let tail = json_headers(r.data.len());
    assert(!same_name("Content-Type"@, "Authorization"@));
    assert(!same_name("Content-Length"@, "Authorization"@));
    assert(!same_name("X-RPC-METHOD"@, "Authorization"@));
    assert(same_name("X-RPC-METHOD"@, "X-RPC-METHOD"@));
    assert(lookup(hs, "X-RPC-METHOD"@) == Some(r.method));
    assert(hs.drop_first() =~= auth_headers(r.token) + tail);
    assert(tail.drop_first().drop_first() =~= Seq::<(Seq<char>, Seq<char>)>::empty());
    assert(lookup(tail.drop_first().drop_first(), "Authorization"@) is None);
    assert(lookup(tail.drop_first(), "Authorization"@) is None);
    assert(lookup(tail, "Authorization"@) is None);
    match r.token {
        Some(t) => {
            let auth = "Bearer "@ + t;
            assert(same_name("Authorization"@, "Authorization"@));
            let rest = auth_headers(r.token) + tail;
            assert(rest[0] == ("Authorization"@, auth));
            assert(lookup(rest, "Authorization"@) == Some(auth));
            assert(lookup(hs, "Authorization"@) == Some(auth));
            assert forall|i: int| 0 <= i < auth.len() implies is_header_char(#[trigger] auth[i]) by {
                if i >= 7 {
                    assert(auth[i] == t[i - 7]);
                }
            }
            assert(auth.subrange(0, 7) =~= "Bearer "@);
            assert(auth.subrange(7, auth.len() as int) =~= t);
        },
        None => {
            assert(auth_headers(r.token) + tail =~= tail);
            assert(lookup(hs, "Authorization"@) is None);
        },
    }
}

/// Symmetry of success and error encoding: the outcome that
/// [JsonTransport::encode_response] writes is read back by
/// [JsonTransport::decode_response] with the same side and payload.
pub proof fn lemma_response_round_trip(r: Result<Seq<u8>, Seq<u8>>)
    ensures
        decoded_response(encoded_response(r)) == Some(r),
{
}


/// Reading the token: an `Authorization` header `Bearer <t>` gives the token
/// `t`; a readable header of another scheme is rejected; no header gives no
/// token and the request is accepted.
pub proof fn lemma_bearer_token(m: HttpRequestView, method: Seq<char>)
    requires
        lookup(m.headers, "X-RPC-METHOD"@) == Some(method),
        is_header_text(method),
    ensures
        forall|t: Seq<char>|
            lookup(m.headers, "Authorization"@) == Some("Bearer "@ + t) && is_header_text(t)
                ==> #[trigger] decoded_request(m) == Ok::<_, Seq<char>>(
                RequestView { method, token: Some(t), data: m.body },
            ),
        forall|a: Seq<char>|
            lookup(m.headers, "Authorization"@) == Some(a) && is_header_text(a) && !is_bearer(a)
                ==> #[trigger] decoded_request(m) == Err::<RequestView<Seq<u8>>, _>(
                "Invalid auth header: "@ + a,
            ),
        lookup(m.headers, "Authorization"@) is None ==> decoded_request(m) == Ok::<
            _,
            Seq<char>,
        >(RequestView { method, token: None, data: m.body }),
{
    reveal_strlit("Bearer ");
    assert forall|t: Seq<char>|
        lookup(m.headers, "Authorization"@) == Some("Bearer "@ + t) && is_header_text(
            t,
        ) implies #[trigger] decoded_request(m) == Ok::<_, Seq<char>>(
        RequestView { method, token: Some(t), data: m.body },
    ) by {
        let auth = "Bearer "@ + t;
        assert forall|i: int| 0 <= i < auth.len() implies is_header_char(#[trigger] auth[i]) by {
            if i >= 7 {
                assert(auth[i] == t[i - 7]);
            }
        }
        assert(auth.subrange(0, 7) =~= "Bearer "@);
        assert(auth.subrange(7, auth.len() as int) =~= t);
    }
}

} // verus!
