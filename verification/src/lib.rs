//! A typed client for the CUMTD public transit data service.
//!
//! The service exposes stops, routes, shapes and service-calendar
//! exceptions over a JSON/HTTP API.  This crate covers the verifiable
//! core of a client: the closed query-variant types for each resource,
//! the mapping of each variant to a concrete wire request (endpoint and
//! ordered query parameters), the decoding of response bodies into the
//! domain model, and the normalization that flattens grouped stops while
//! attaching parent identifiers.  The HTTP round trip itself is left to
//! an unverified shell around this library.

use vstd::prelude::*;

pub mod api;
pub mod date;
pub mod json;
pub mod wiretext;

verus! {

/// The view of an ordered query-parameter list: each pair as the
/// character sequences of its key and value.
pub open spec fn params_view(v: Seq<(String, String)>) -> Seq<(Seq<char>, Seq<char>)> {
    v.map_values(|p: (String, String)| (p.0@, p.1@))
}

/// Appends one query parameter, preserving the order of those already
/// present.
pub fn push_param(params: &mut Vec<(String, String)>, key: &str, value: String)
    ensures
        params_view(final(params)@) == params_view(old(params)@).push((key@, value@)),
{
    let ghost value_view = value@;
    params.push((String::from_str(key), value));
    proof {
        assert(params_view(params@) =~= params_view(old(params)@).push((key@, value_view)));
    }
}

pub fn add(left: usize, right: usize) -> (r: usize)
    requires
        left + right <= usize::MAX,
    ensures
        r == left + right,
{
    left + right
}

/// The single error taxonomy every operation of the client reports
/// through.  Callers branch on the variant; the carried `String` is a
/// human-readable detail message only.
#[derive(Debug, Clone)]
pub enum Error {
    /// The HTTP transport could not be constructed or configured.
    ClientError(String),
    /// The round trip itself failed: network failure, error status, or
    /// any transport-level report distinct from a bad body.
    RequestError(String),
    /// The response body could not be decoded into the expected shape.
    DeserializeError(String),
    /// A local date value could not be rendered into wire date text.
    FormatDateError(String),
}

/// How the transport layer classified its own failure, stripped of any
/// transport-specific type: the connection or client could not be set
/// up, the request itself failed in flight, or anything else.
#[derive(Debug, Clone, Copy, PartialEq, Eq, Structural)]
pub enum TransportFault {
    Builder,
    Request,
    Other,
}

impl Error {
    /// The adapter from a raw transport failure classification to the
    /// error taxonomy: setup failures become `ClientError`, in-flight
    /// failures become `RequestError`, and everything else the
    /// transport reports is treated as a bad body, `DeserializeError`.
    pub fn from_transport(kind: TransportFault, detail: String) -> (r: Error)
        ensures
            kind == TransportFault::Builder ==> r == Error::ClientError(detail),
            kind == TransportFault::Request ==> r == Error::RequestError(detail),
            kind == TransportFault::Other ==> r == Error::DeserializeError(detail),
    {
        match kind {
            TransportFault::Builder => Error::ClientError(detail),
            TransportFault::Request => Error::RequestError(detail),
            TransportFault::Other => Error::DeserializeError(detail),
        }
    }
}

} // verus!
