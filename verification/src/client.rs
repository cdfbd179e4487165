//! The transport adapter: what goes out for an endpoint, and what the answer
//! that comes back means. The call itself is the transport's business.

use crate::endpoints::{form_view, Endpoint, Method};
use crate::params::{params_view, Param, ParamView};
use vstd::prelude::*;

verus! {

/// Why a request yielded no result.
#[derive(Debug, PartialEq, Eq)]
pub enum Error<E> {
    /// The request got no answer. Holds the transport's own error, unchanged.
    Transport(E),
    /// The API answered with a status that does not mean success. The body is
    /// kept as it came; nothing here reads it.
    Api { status: u16, body: Vec<u8> },
    /// The API answered with success, but the body is not what the endpoint
    /// returns.
    Deserialization,
}

/// The mathematical value of a [`Payload`].
pub enum PayloadView {
    Empty,
    Query(Seq<ParamView>),
    Body(Seq<ParamView>),
}

/// Where the form of a request travels.
#[derive(Debug, PartialEq, Eq)]
pub enum Payload {
    /// The endpoint has no form.
    Empty,
    /// The form travels in the query string.
    Query(Vec<Param>),
    /// The form travels in the body.
    Body(Vec<Param>),
}

impl View for Payload {
    type V = PayloadView;

    open spec fn view(&self) -> PayloadView {
        match self {
            Payload::Empty => PayloadView::Empty,
            Payload::Query(params) => PayloadView::Query(params_view(params@)),
            Payload::Body(params) => PayloadView::Body(params_view(params@)),
        }
    }
}

/// The mathematical value of an [`HttpCall`].
pub struct HttpCallView {
    pub method: Method,
    pub target: Seq<char>,
    pub payload: PayloadView,
}

/// One HTTP request, ready for the transport.
#[derive(Debug, PartialEq, Eq)]
pub struct HttpCall {
    pub method: Method,
    pub target: String,
    pub payload: Payload,
}

impl View for HttpCall {
    type V = HttpCallView;

    open spec fn view(&self) -> HttpCallView {
        HttpCallView { method: self.method, target: self.target@, payload: self.payload@ }
    }
}

/// The request that stands for an endpoint with the given method, target and
/// form: the method and the target as they are, and the form, if there is
/// one, in the query string for `GET` and in the body for every other method.
pub open spec fn planned_call(
    method: Method,
    target: Seq<char>,
    form: Option<Seq<ParamView>>,
) -> HttpCallView {
    HttpCallView {
        method,
        target,
        payload: match form {
            None => PayloadView::Empty,
            Some(params) => if method.form_in_query() {
                PayloadView::Query(params)
            } else {
                PayloadView::Body(params)
            },
        },
    }
}

/// Whether `call` is the request that stands for what `endpoint` says of
/// itself: for some method, target and form that its three methods can
/// return, `call` is the request planned for them.
pub open spec fn stands_for<P: Endpoint + ?Sized>(call: HttpCall, endpoint: &P) -> bool {
    exists|method: Method, target: &str, form: Option<Vec<Param>>|
        #[trigger] call_ensures(P::method, (endpoint,), method) && #[trigger] call_ensures(
            P::endpoint,
            (endpoint,),
            target,
        ) && #[trigger] call_ensures(P::form, (endpoint,), form) && call@ == planned_call(
            method,
            target@,
            form_view(form),
        )
}

/// Reads the endpoint's three facts, each once, and lays out the one request
/// that stands for them.
pub fn build_request<P: Endpoint + ?Sized>(endpoint: &P) -> (call: HttpCall)
    ensures
        stands_for(call, endpoint),
{
    let method = endpoint.method();
    let target = endpoint.endpoint();
    let form = endpoint.form();
    let payload = match form {
        None => Payload::Empty,
        Some(params) => match method {
            Method::Get => Payload::Query(params),
            _ => Payload::Body(params),
        },
    };
    HttpCall { method, target: target.to_owned(), payload }
}

/// What the transport hands back when the API has answered.
#[derive(Debug, PartialEq, Eq)]
pub struct RawResponse {
    pub status: u16,
    pub body: Vec<u8>,
}

/// Whether an HTTP status means success: the statuses from 200 to 299 do.
pub open spec fn is_success(status: u16) -> bool {
    200 <= status <= 299
}

/// What the outcome of the call means before anyone reads the body: a
/// transport failure passes through, a status that is no success fails with
/// the status and the body, and a success yields the body to decode.
pub open spec fn judged<E>(outcome: Result<RawResponse, E>) -> Result<Vec<u8>, Error<E>> {
    match outcome {
        Err(failure) => Err(Error::Transport(failure)),
        Ok(response) => if is_success(response.status) {
            Ok(response.body)
        } else {
            Err(Error::Api { status: response.status, body: response.body })
        },
    }
}

/// What a decoded body means: a body that did not decode is a
/// deserialization failure, never an empty result.
pub open spec fn accepted<R, E>(decoded: Option<R>) -> Result<R, Error<E>> {
    match decoded {
        Some(value) => Ok(value),
        None => Err(Error::Deserialization),
    }
}

/// Judges the outcome of the call by its status.
pub fn check_response<E>(outcome: Result<RawResponse, E>) -> (body: Result<Vec<u8>, Error<E>>)
    ensures
        body == judged(outcome),
{
    match outcome {
        Err(failure) => Err(Error::Transport(failure)),
        Ok(response) => {
            if 200 <= response.status && response.status <= 299 {
                Ok(response.body)
            } else {
                Err(Error::Api { status: response.status, body: response.body })
            }
        },
    }
}

/// Turns what the decoder made of the body into the result of the request.
pub fn accept_decoded<R, E>(decoded: Option<R>) -> (resolved: Result<R, Error<E>>)
    ensures
        resolved == accepted::<R, E>(decoded),
{
    match decoded {
        Some(value) => Ok(value),
        None => Err(Error::Deserialization),
    }
}

/// Whether `decode` can be handed the body of `outcome`, should the outcome
/// be a success. A decoder that takes every body can always be.
pub open spec fn receivable<R, E, D: FnOnce(Vec<u8>) -> Option<R>>(
    outcome: Result<RawResponse, E>,
    decode: D,
) -> bool {
    judged(outcome) matches Ok(body) ==> call_requires(decode, (body,))
}

/// Whether `resolved` is what the outcome of the call resolves to under
/// `decode`: the failure, where the outcome is a transport failure or a
/// status that is no success; and otherwise what is accepted of something
/// that `decode` can return for the body.
pub open spec fn resolved_by<R, E, D: FnOnce(Vec<u8>) -> Option<R>>(
    outcome: Result<RawResponse, E>,
    decode: D,
    resolved: Result<R, Error<E>>,
) -> bool {
    match judged(outcome) {
        Err(failure) => resolved == Err::<R, Error<E>>(failure),
        Ok(body) => exists|decoded: Option<R>| #[trigger]
            call_ensures(decode, (body,), decoded) && resolved == accepted::<R, E>(decoded),
    }
}

/// Resolves the outcome of the call: fails at once on a transport failure or
/// on a status that is no success, and otherwise hands the body to `decode`,
/// once, and accepts what it returns.
pub fn resolve<R, E, D: FnOnce(Vec<u8>) -> Option<R>>(
    outcome: Result<RawResponse, E>,
    decode: D,
) -> (resolved: Result<R, Error<E>>)
    requires
        receivable(outcome, decode),
    ensures
        resolved_by(outcome, decode, resolved),
{
    match check_response(outcome) {
        Err(failure) => Err(failure),
        Ok(body) => {
            let decoded = decode(body);
            accept_decoded(decoded)
        },
    }
}

} // verus!
