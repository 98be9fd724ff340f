//! The byte buffer in which object bodies travel.
//!
//! Bodies arrive as [`bytes::Bytes`], a cheaply cloneable view into shared
//! memory. The verifier cannot look inside such a value, so this module gives
//! the bytes it holds a name, [`contents`], and states what the conversions
//! used by the decoders do in terms of that name.
use bytes::Bytes;
use vstd::prelude::*;

verus! {

/// `bytes::Bytes`, carried through verified code as an opaque value.
#[verifier::external_type_specification]
#[verifier::external_body]
pub struct ExBytes(Bytes);

/// The bytes that a buffer holds, first to last.
pub uninterp spec fn contents(bytes: Bytes) -> Seq<u8>;

/// `<Vec<u8> as From<Bytes>>::from`: turns the buffer into a vector that holds
/// the same bytes in the same order. Trusted, not proved: the conversion goes
/// through the buffer's vtable, which hands back exactly the `len` bytes that
/// start at its `ptr`, that is, the slice that the buffer dereferences to.
#[verifier::external_body]
pub(crate) fn into_vec(bytes: Bytes) -> (vec: Vec<u8>)
    ensures
        vec@ == contents(bytes),
{
    Vec::from(bytes)
}

} // verus!
