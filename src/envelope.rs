//! The envelope of a call: method, token and payload.

use vstd::prelude::*;

verus! {

/// RPC request
#[derive(Debug, Clone)]
pub struct Request<T> {
    /// Method
    pub method: String,
    /// Authentication token
    pub token: Option<String>,
    /// Data
    pub data: T,
}

/// Model of a [Request].
pub struct RequestView<V> {
    pub method: Seq<char>,
    pub token: Option<Seq<char>>,
    pub data: V,
}

/// Text of an optional token.
pub open spec fn token_view(t: Option<String>) -> Option<Seq<char>> {
    match t {
        Some(s) => Some(s@),
        None => None,
    }
}

impl<T: View> View for Request<T> {
    type V = RequestView<T::V>;

    open spec fn view(&self) -> RequestView<T::V> {
        RequestView { method: self.method@, token: token_view(self.token), data: self.data@ }
    }
}

/// RPC response: exactly one of a success value and an error value.
pub type Response<T, E> = Result<T, E>;

/// Model of a response whose two sides are encoded payloads.
pub open spec fn outcome_view(r: Response<Vec<u8>, Vec<u8>>) -> Result<Seq<u8>, Seq<u8>> {
    match r {
        Ok(b) => Ok(b@),
        Err(b) => Err(b@),
    }
}

impl<T> Request<T> {
    /// Instantiates a new [Request]
    pub fn new(method: &str, token: Option<String>, data: T) -> (r: Self)
        ensures
            r.method@ == method@,
            r.token == token,
            r.data == data,
    {
        Request { method: method.to_owned(), token, data }
    }
}

} // verus!
