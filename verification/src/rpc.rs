//! Calls and requests: a method name with its positional parameters, and the
//! same with the id that ties a response to it.

use crate::json::{duplicate_values, values_view, Json, JsonValue};
use vstd::prelude::*;

verus! {

/// A remote call as a namespace client builds it.
#[derive(Debug, PartialEq, Eq)]
pub struct RpcCall {
    pub method: String,
    pub params: Vec<JsonValue>,
}

/// The mathematical value of an [`RpcCall`].
pub struct CallView {
    pub method: Seq<char>,
    pub params: Seq<Json>,
}

impl View for RpcCall {
    type V = CallView;

    open spec fn view(&self) -> CallView {
        CallView { method: self.method@, params: values_view(self.params@) }
    }
}

/// A call with its correlation id: the position of the call in the round
/// trip that carries it.
#[derive(Debug, PartialEq, Eq)]
pub struct RpcRequest {
    pub method: String,
    pub params: Vec<JsonValue>,
    pub id: u64,
}

/// The mathematical value of an [`RpcRequest`].
pub struct RequestView {
    pub method: Seq<char>,
    pub params: Seq<Json>,
    pub id: u64,
}

impl View for RpcRequest {
    type V = RequestView;

    open spec fn view(&self) -> RequestView {
        RequestView { method: self.method@, params: values_view(self.params@), id: self.id }
    }
}

impl CallView {
    /// The request that carries this call under `id`.
    pub open spec fn with_id(self, id: u64) -> RequestView {
        RequestView { method: self.method, params: self.params, id }
    }
}

impl RequestView {
    /// The call that this request carries.
    pub open spec fn call(self) -> CallView {
        CallView { method: self.method, params: self.params }
    }
}

/// The values of a sequence of requests, element by element.
pub open spec fn requests_view(requests: Seq<RpcRequest>) -> Seq<RequestView> {
    Seq::new(requests.len(), |i: int| requests[i]@)
}

/// An independent copy of the call.
impl Clone for RpcCall {
    fn clone(&self) -> (r: RpcCall)
        ensures
            r@ == self@,
    {
        RpcCall { method: self.method.clone(), params: duplicate_values(&self.params) }
    }
}

impl RpcCall {
    /// The call of `method` with `params`.
    pub fn new(method: &str, params: Vec<JsonValue>) -> (r: RpcCall)
        ensures
            r@ == (CallView { method: method@, params: values_view(params@) }),
    {
        RpcCall { method: method.to_owned(), params }
    }

    /// The request that carries this call under `id`.
    pub fn with_id(self, id: u64) -> (r: RpcRequest)
        ensures
            r@ == self@.with_id(id),
    {
        RpcRequest { method: self.method, params: self.params, id }
    }

}

/// An independent copy of the request.
impl Clone for RpcRequest {
    fn clone(&self) -> (r: RpcRequest)
        ensures
            r@ == self@,
    {
        RpcRequest {
            method: self.method.clone(),
            params: duplicate_values(&self.params),
            id: self.id,
        }
    }
}

impl RpcRequest {

    /// The call that this request carries.
    pub fn into_call(self) -> (r: RpcCall)
        ensures
            r@ == self@.call(),
    {
        RpcCall { method: self.method, params: self.params }
    }
}

} // verus!
