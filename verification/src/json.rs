//! JSON decoders.
//!
//! Two decoders read a body as JSON text and hand it to the `serde`
//! deserializer of the target type: [`Json`] works with `serde_json`,
//! [`SimdJson`] with `simd_json`. A handle picks one by its type parameter, as
//! in `File::<Json<Settings>>::unloaded("bucket", "settings.json")`.
//!
//! A target type opts in by implementing [`FromJson`] or [`FromSimdJson`]. For
//! a type that `serde` can deserialize the implementation is one call of
//! [`deserialize`] or [`deserialize_simd`].
use crate::parse::{described, describes, Parse, ParseResult};
use crate::payload::contents;
use bytes::{Buf, Bytes};
use serde::de::DeserializeOwned;
use serde_json::Error as JsonError;
use simd_json::Error as SimdJsonError;
use std::marker::PhantomData;
use vstd::prelude::*;

verus! {

/// `serde_json::Error`, carried through verified code as an opaque value.
#[verifier::external_type_specification]
#[verifier::external_body]
pub struct ExJsonError(JsonError);

/// `simd_json::Error`, carried through verified code as an opaque value.
#[verifier::external_type_specification]
#[verifier::external_body]
pub struct ExSimdJsonError(SimdJsonError);

/// `serde_json::from_reader` on `Buf::reader` of the body: deserializes a `T`
/// from JSON text. Nothing is claimed of the answer: it depends on how `T`
/// implements `Deserialize`.
#[verifier::external_body]
fn serde_json_from_reader<T: DeserializeOwned>(bytes: Bytes) -> (result: Result<T, JsonError>) {
    serde_json::from_reader(bytes.reader())
}

/// `simd_json::from_reader` on `Buf::reader` of the body: deserializes a `T`
/// from JSON text. Nothing is claimed of the answer: it depends on how `T`
/// implements `Deserialize`.
#[verifier::external_body]
fn simd_json_from_reader<T: DeserializeOwned>(bytes: Bytes) -> (result: Result<
    T,
    SimdJsonError,
>) {
    simd_json::from_reader(bytes.reader())
}

/// Deserializes a `T` from a body of JSON text with `serde_json`.
///
/// Fails with the deserializer's description of the error if the body is not
/// JSON or does not have the structure that `T` expects.
pub fn deserialize<T: DeserializeOwned>(bytes: Bytes) -> (result: ParseResult<T>)
    ensures
        exists|outcome: Result<T, JsonError>| describes(outcome, result),
{
    described(serde_json_from_reader::<T>(bytes))
}

/// Deserializes a `T` from a body of JSON text with `simd_json`.
///
/// Fails with the deserializer's description of the error if the body is not
/// JSON or does not have the structure that `T` expects.
pub fn deserialize_simd<T: DeserializeOwned>(bytes: Bytes) -> (result: ParseResult<T>)
    ensures
        exists|outcome: Result<T, SimdJsonError>| describes(outcome, result),
{
    described(simd_json_from_reader::<T>(bytes))
}

/// A type that [`Json`] can decode.
pub trait FromJson: Sized {
    /// Reads a value from a body of JSON text; see [`deserialize`].
    fn from_json(bytes: Bytes) -> ParseResult<Self>;
}

/// A type that [`SimdJson`] can decode.
pub trait FromSimdJson: Sized {
    /// Reads a value from a body of JSON text; see [`deserialize_simd`].
    fn from_simd_json(bytes: Bytes) -> ParseResult<Self>;
}

/// Parser that reads JSON data into a deserialized `T`, using `serde_json`.
///
/// The decoder adds nothing of its own: it answers what [`FromJson::from_json`]
/// of `T` answers for the body.
#[derive(Debug)]
pub struct Json<T>(PhantomData<T>);

impl<T: FromJson> Parse for Json<T> {
    type Output = T;

    /// The answers admitted for a body are those that `T::from_json` gives for
    /// a buffer that holds the body.
    open spec fn parses(body: Seq<u8>, result: ParseResult<T>) -> bool {
        exists|bytes: Bytes|
            contents(bytes) == body && #[trigger] call_ensures(T::from_json, (bytes,), result)
    }

    fn parse(bytes: Bytes) -> (result: ParseResult<T>)
        ensures
            call_ensures(T::from_json, (bytes,), result),
    {
        T::from_json(bytes)
    }
}

/// Parser that reads JSON data into a deserialized `T`, using `simd_json`.
///
/// The decoder adds nothing of its own: it answers what
/// [`FromSimdJson::from_simd_json`] of `T` answers for the body.
#[derive(Debug)]
pub struct SimdJson<T>(PhantomData<T>);

impl<T: FromSimdJson> Parse for SimdJson<T> {
    type Output = T;

    /// The answers admitted for a body are those that `T::from_simd_json`
    /// gives for a buffer that holds the body.
    open spec fn parses(body: Seq<u8>, result: ParseResult<T>) -> bool {
        exists|bytes: Bytes|
            contents(bytes) == body && #[trigger] call_ensures(
                T::from_simd_json,
                (bytes,),
                result,
            )
    }

    fn parse(bytes: Bytes) -> (result: ParseResult<T>)
        ensures
            call_ensures(T::from_simd_json, (bytes,), result),
    {
        T::from_simd_json(bytes)
    }
}

} // verus!
