//! Decoders: how the body of a file becomes a value.
//!
//! A [`Parse`] implementation is a pure function from the complete body to a
//! value or to a reason for turning the body down. The handle logic knows
//! nothing of formats; it only calls [`Parse::parse`]. This module defines the
//! trait and the decoders for bodies that are used as they are: as raw bytes
//! ([`Bytes`] or `Vec<u8>`) or as UTF-8 text (`String`).
use crate::payload::{contents, into_vec};
use bytes::Bytes;
use std::fmt::Display;
use std::string::FromUtf8Error;
use vstd::prelude::*;
use vstd::string::to_string_from_display_ensures;
use vstd::utf8::{decode_utf8, encode_utf8, encode_utf8_decode_utf8, valid_utf8};

verus! {

/// What a decoder answers: the decoded value, or why the body was turned down.
pub type ParseResult<T> = Result<T, String>;

/// Parses the content of a [`File`](crate::File) once it has been fetched.
pub trait Parse {
    /// The type of the decoded value.
    type Output;

    /// The answers that [`Parse::parse`] may give for a body: `parses(body, result)`
    /// holds when `result` is one of them.
    ///
    /// A decoder whose answer is a function of the body alone admits exactly one
    /// value or only failures for each body. A decoder that states nothing of
    /// what it does admits every answer, and this is what an implementation has
    /// if it says nothing else.
    open spec fn parses(body: Seq<u8>, result: ParseResult<Self::Output>) -> bool {
        true
    }

    /// Decodes the complete body of a file.
    ///
    /// Returns the reason as `Err` if the body is not of the decoder's format.
    fn parse(bytes: Bytes) -> (result: ParseResult<Self::Output>)
        ensures
            Self::parses(contents(bytes), result),
    ;
}

/// Whether `answer` is what a decoder gives for the outcome of the function
/// that did its work: the value as it is, or the text with which the error
/// describes itself.
pub open spec fn describes<T, E: Display>(outcome: Result<T, E>, answer: ParseResult<T>) -> bool {
    match outcome {
        Ok(value) => answer == Ok::<T, String>(value),
        Err(error) => answer matches Err(reason) && to_string_from_display_ensures::<E>(
            &error,
            reason,
        ),
    }
}

/// Turns the outcome of a decoding function into a decoder's answer: hands a
/// value on and replaces an error by its description.
pub fn described<T, E: Display>(outcome: Result<T, E>) -> (answer: ParseResult<T>)
    ensures
        describes(outcome, answer),
{
    match outcome {
        Ok(value) => Ok(value),
        Err(error) => Err(error.to_string()),
    }
}

/// `std::string::FromUtf8Error`, the error of `String::from_utf8`.
#[verifier::external_type_specification]
#[verifier::external_body]
pub struct ExFromUtf8Error(FromUtf8Error);

/// `String::from_utf8`: checks that the bytes are valid UTF-8 and, if they
/// are, returns the string made of exactly these bytes; if they are not, it
/// returns an error. Trusted, not proved; validity and encoding are those
/// that `vstd::utf8` defines.
#[verifier::external_body]
fn string_from_utf8(bytes: Vec<u8>) -> (result: Result<String, FromUtf8Error>)
    ensures
        result is Ok <==> valid_utf8(bytes@),
        result matches Ok(text) ==> encode_utf8(text@) == bytes@,
{
    String::from_utf8(bytes)
}

/// Parses the content of a file as UTF-8 text.
impl Parse for String {
    type Output = String;

    /// A valid UTF-8 body decodes to the characters it encodes; any other body
    /// is turned down.
    open spec fn parses(body: Seq<u8>, result: ParseResult<String>) -> bool {
        match result {
            Ok(text) => valid_utf8(body) && text@ == decode_utf8(body),
            Err(_) => !valid_utf8(body),
        }
    }

    fn parse(bytes: Bytes) -> (result: ParseResult<String>) {
        let decoded = string_from_utf8(into_vec(bytes));
        proof {
            if decoded is Ok {
                encode_utf8_decode_utf8(decoded->Ok_0@);
            }
        }
        described(decoded)
    }
}

/// Parses the content of a file as the bytes it is made of, kept in the buffer
/// they arrived in.
impl Parse for Bytes {
    type Output = Bytes;

    /// Every body is accepted and decodes to itself.
    open spec fn parses(body: Seq<u8>, result: ParseResult<Bytes>) -> bool {
        result matches Ok(bytes) && contents(bytes) == body
    }

    fn parse(bytes: Bytes) -> (result: ParseResult<Bytes>) {
        Ok(bytes)
    }
}

/// Parses the content of a file as the bytes it is made of, copied into a vector.
impl Parse for Vec<u8> {
    type Output = Vec<u8>;

    /// Every body is accepted and decodes to itself.
    open spec fn parses(body: Seq<u8>, result: ParseResult<Vec<u8>>) -> bool {
        result matches Ok(bytes) && bytes@ == body
    }

    fn parse(bytes: Bytes) -> (result: ParseResult<Vec<u8>>) {
        Ok(into_vec(bytes))
    }
}

} // verus!
