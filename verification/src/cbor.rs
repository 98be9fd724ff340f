//! CBOR (Concise Binary Object Representation) decoder.
//!
//! [`Cbor`] reads a body as one CBOR item and hands it to the `serde`
//! deserializer of the target type, as in
//! `File::<Cbor<Settings>>::unloaded("bucket", "settings.cbor")`.
//!
//! A target type opts in by implementing [`FromCbor`]. For a type that `serde`
//! can deserialize the implementation is one call of [`deserialize`].
use crate::parse::{described, describes, Parse, ParseResult};
use crate::payload::contents;
use bytes::Bytes;
use cbor4ii::serde::DecodeError;
use serde::de::DeserializeOwned;
use std::convert::Infallible;
use std::marker::PhantomData;
use vstd::prelude::*;

verus! {

/// `cbor4ii::serde::DecodeError`, carried through verified code as an opaque
/// value.
#[verifier::external_type_specification]
#[verifier::external_body]
#[verifier::reject_recursive_types(E)]
pub struct ExDecodeError<E>(DecodeError<E>);

/// `cbor4ii::serde::from_slice` on the bytes of the body: deserializes a `T`
/// from CBOR. Nothing is claimed of the answer: it depends on how `T`
/// implements `Deserialize`.
#[verifier::external_body]
fn cbor4ii_from_slice<T: DeserializeOwned>(bytes: Bytes) -> (result: Result<
    T,
    DecodeError<Infallible>,
>) {
    cbor4ii::serde::from_slice(&bytes)
}

/// Deserializes a `T` from a body of CBOR.
///
/// Fails with the deserializer's description of the error if the body is not
/// CBOR or does not have the structure that `T` expects.
pub fn deserialize<T: DeserializeOwned>(bytes: Bytes) -> (result: ParseResult<T>)
    ensures
        exists|outcome: Result<T, DecodeError<Infallible>>| describes(outcome, result),
{
    described(cbor4ii_from_slice::<T>(bytes))
}

/// A type that [`Cbor`] can decode.
pub trait FromCbor: Sized {
    /// Reads a value from a body of CBOR; see [`deserialize`].
    fn from_cbor(bytes: Bytes) -> ParseResult<Self>;
}

/// Parser that reads CBOR data into a deserialized `T`.
///
/// The decoder adds nothing of its own: it answers what [`FromCbor::from_cbor`]
/// of `T` answers for the body.
#[derive(Debug)]
pub struct Cbor<T>(PhantomData<T>);

impl<T: FromCbor> Parse for Cbor<T> {
    type Output = T;

    /// The answers admitted for a body are those that `T::from_cbor` gives for
    /// a buffer that holds the body.
    open spec fn parses(body: Seq<u8>, result: ParseResult<T>) -> bool {
        exists|bytes: Bytes|
            contents(bytes) == body && #[trigger] call_ensures(T::from_cbor, (bytes,), result)
    }

    fn parse(bytes: Bytes) -> (result: ParseResult<T>)
        ensures
            call_ensures(T::from_cbor, (bytes,), result),
    {
        T::from_cbor(bytes)
    }
}

} // verus!
