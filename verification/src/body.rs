//! Request bodies, held in `bytes::Bytes`.
//!
//! The functions of `bytes` that are used here are not verified: their contracts are taken on
//! trust.

use vstd::prelude::*;

verus! {

/// `bytes::Bytes`, whose content is given by [`content_of`].
#[verifier::external_type_specification]
#[verifier::external_body]
pub struct ExBytes(bytes::Bytes);

/// The bytes of a body.
pub uninterp spec fn content_of(body: bytes::Bytes) -> Seq<u8>;

/// The bytes of a body, where there is one.
pub open spec fn body_content(body: Option<bytes::Bytes>) -> Option<Seq<u8>> {
    match body {
        Some(bytes) => Some(content_of(bytes)),
        None => None,
    }
}

/// `bytes::Bytes::deref`: the bytes as a slice.
#[verifier::external_body]
pub(crate) fn body_slice(body: &bytes::Bytes) -> (slice: &[u8])
    ensures
        slice@ == content_of(*body),
{
    std::ops::Deref::deref(body)
}

/// `From<Vec<u8>>` of `bytes::Bytes`: a body of the same bytes.
#[verifier::external_body]
pub(crate) fn body_from(bytes: Vec<u8>) -> (body: bytes::Bytes)
    ensures
        content_of(body) == bytes@,
{
    bytes::Bytes::from(bytes)
}

/// A body gives its own bytes, and nothing where there is none.
pub proof fn body_gives_its_bytes(body: Option<bytes::Bytes>)
    ensures
        body_content(body) is Some <==> body is Some,
        body matches Some(bytes) ==> body_content(body) == Some(content_of(bytes)),
{
}

} // verus!
