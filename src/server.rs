//! The server-side dispatcher of the secrets service.

use vstd::prelude::*;
use vstd::string::*;
use vstd::utf8::encode_utf8;

use crate::error::{code_status, Error, ErrorCode};
use crate::http::{HttpRequest, HttpRequestView, HttpResponse, HttpResponseView};
use crate::json::{is_padded_null, parse_unit, unit_error_of};
use crate::service::{ServiceStatus, StatusSrvMethod};
use crate::transport::{decoded_request, error_response, json_response, JsonTransport};

verus! {

/// Whether the service answers a method: the set of method names is closed
/// and holds `status` alone.
pub open spec fn is_registered(method: Seq<char>) -> bool {
    method == "status"@
}

/// The response that the service gives to an HTTP request.
pub open spec fn handled(m: HttpRequestView) -> HttpResponseView {
    match decoded_request(m) {
        Err(msg) => error_response(ErrorCode::InvalidParam, msg),
        Ok(req) => if is_registered(req.method) {
            if is_padded_null(req.data) {
                status_reply(Ok(()))
            } else {
                status_reply(
                    Err(
                        match unit_error_of(req.data) {
                            Some(e) => e,
                            None => Seq::empty(),
                        },
                    ),
                )
            }
        } else {
            error_response(ErrorCode::NotImplemented, "Invalid method: "@ + req.method)
        },
    }
}

/// The response to a `status` call, given what reading its parameters gave:
/// `{}` under status 200, or the reading's diagnostic as an
/// [ErrorCode::InvalidParam] error.
pub open spec fn status_reply(parsed: Result<(), Seq<char>>) -> HttpResponseView {
    match parsed {
        Ok(_) => json_response(200, encode_utf8("{}"@)),
        Err(e) => error_response(ErrorCode::InvalidParam, "Invalid body: "@ + e),
    }
}

/// Secrets service implementation
#[derive(Debug, Clone)]
pub struct Service {}

impl Service {
    /// Instantiates a new [Service]
    pub fn new() -> (r: Self) {
        Service {  }
    }

    /// Answers a `status` call, given what reading its parameters as `()`
    /// gave.
    pub fn reply_status(&self, receiver: &JsonTransport, parsed: Result<(), String>) -> (r:
        HttpResponse)
        ensures
            r@ == status_reply(
                match parsed {
                    Ok(_) => Ok(()),
                    Err(e) => Err(e@),
                },
            ),
    {
        match parsed {
            Ok(()) => {
                let status = ServiceStatus {  };
                receiver.encode_ok(status.to_json())
            },
            Err(e) => {
                let message = String::from_str("Invalid body: ").concat(e.as_str());
                receiver.encode_error(&Error { code: ErrorCode::InvalidParam, message })
            },
        }
    }

    /// Handles one request: decodes its envelope, dispatches on the method
    /// name, and encodes the outcome. A request that cannot be decoded is
    /// answered with the decoding error; an unknown method with a
    /// [ErrorCode::NotImplemented] error that names it.
    pub fn handle(&self, receiver: &JsonTransport, request: HttpRequest) -> (r: HttpResponse)
        ensures
            r@ == handled(request@),
    {
        let req = match receiver.decode_request(request) {
            Ok(ok) => ok,
            Err(err) => {
                return receiver.encode_error(&err);
            },
        };
        if req.method == String::from_str(StatusSrvMethod::id()) {
            self.reply_status(receiver, parse_unit(req.data.as_slice()))
        } else {
            let message = String::from_str("Invalid method: ").concat(req.method.as_str());
            receiver.encode_error(&Error { code: ErrorCode::NotImplemented, message })
        }
    }
}

/// RPC server: a receiver bound to a handler. It keeps no state between
/// requests, so each request is answered on its own.
#[derive(Debug, Clone)]
pub struct Server {
    /// Server receiver
    receiver: JsonTransport,
    /// Service handler
    handler: Service,
}

impl Server {
    /// Instantiates a new [Server]
    pub fn new(receiver: JsonTransport, handler: Service) -> (r: Self) {
        Server { receiver, handler }
    }

    /// Answers one inbound request, as each connection does.
    pub fn respond(&self, request: HttpRequest) -> (r: HttpResponse)
        ensures
            r@ == handled(request@),
    {
        self.handler.handle(&self.receiver, request)
    }
}

/// A request without a method header is answered with the decoding error
/// "Missing method header", of kind [ErrorCode::InvalidParam], before any
/// dispatch; that kind differs from the one of an unknown method.
pub proof fn lemma_missing_method_rejected(m: HttpRequestView)
    requires
        crate::http::lookup(m.headers, "X-RPC-METHOD"@) is None,
    ensures
        decoded_request(m) == Err::<crate::envelope::RequestView<Seq<u8>>, _>(
            "Missing method header"@,
        ),
        handled(m) == error_response(ErrorCode::InvalidParam, "Missing method header"@),
        ErrorCode::InvalidParam != ErrorCode::NotImplemented,
{
}

/// A request that decodes but names a method outside the registered set is
/// answered with a [ErrorCode::NotImplemented] error that carries the
/// method's name, under a 4xx status.
pub proof fn lemma_unknown_method(m: HttpRequestView)
    requires
        decoded_request(m) is Ok,
        !is_registered(decoded_request(m)->Ok_0.method),
    ensures
        handled(m) == error_response(
            ErrorCode::NotImplemented,
            "Invalid method: "@ + decoded_request(m)->Ok_0.method,
        ),
        400 <= code_status(ErrorCode::NotImplemented) <= 499,
{
}

} // verus!
