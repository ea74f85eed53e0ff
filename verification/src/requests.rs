//! The execution layer requests that a block collects.

use alloy_eips::eip7685::Requests;

use vstd::prelude::*;

verus! {

/// The type byte of deposit requests.
pub const DEPOSIT_REQUEST_TYPE: u8 = 0;

/// The container of requests of `alloy_eips`.
#[verifier::external_type_specification]
#[verifier::external_body]
pub struct ExRequests(Requests);

/// The bytes of one request of `alloy_primitives`.
#[verifier::external_type_specification]
#[verifier::external_body]
pub struct ExBytes(alloy_primitives::Bytes);

/// The shared buffer under `alloy_primitives::Bytes`.
#[verifier::external_type_specification]
#[verifier::external_body]
pub struct ExSharedBytes(alloy_primitives::bytes::Bytes);

/// The requests that a container holds, in order, each with its type byte first.
pub uninterp spec fn requests_in(requests: Requests) -> Seq<Seq<u8>>;

/// An empty container.
///
/// This calls `alloy_eips::eip7685::Requests::default`. The contract claims that it holds no
/// request.
#[verifier::external_body]
pub(crate) fn no_requests() -> (requests: Requests)
    ensures
        requests_in(requests) == Seq::<Seq<u8>>::empty(),
{
    Requests::default()
}

/// Adds the request with the type `request_type` and the contents `request`.
///
/// This calls `alloy_eips::eip7685::Requests::push_request_with_type`. The contract claims that
/// the request goes to the end, behind its type byte, and that an empty one is left out.
#[verifier::external_body]
pub(crate) fn push_request_with_type(requests: &mut Requests, request_type: u8, request: Vec<u8>)
    ensures
        requests_in(*final(requests)) == if request@.len() == 0 {
            requests_in(*old(requests))
        } else {
            requests_in(*old(requests)).push(seq![request_type] + request@)
        },
{
    requests.push_request_with_type(request_type, request)
}

/// Adds all requests of `other`.
///
/// This calls `alloy_eips::eip7685::Requests::extend`. The contract claims that the requests of
/// `other` follow those that are there, in their order.
#[verifier::external_body]
pub(crate) fn extend_requests(requests: &mut Requests, other: Requests)
    ensures
        requests_in(*final(requests)) == requests_in(*old(requests)) + requests_in(other),
{
    requests.extend(other)
}

} // verus!
