//! What is said to the store and what the store says back.
//!
//! The library performs no I/O. A refresh is a [`Request`] that the caller
//! sends to the store in whatever way it has, and a [`Response`] that the
//! caller hands back, holding what the store answered in plain values.
use bytes::Bytes;
use vstd::prelude::*;

verus! {

/// The HTTP status with which the store says that the object still has the
/// entity tag that the request named.
pub const NOT_MODIFIED: u16 = 304;

/// A read of one object, conditional if an entity tag is given.
#[derive(Debug, Clone, PartialEq, Eq)]
pub struct Request {
    /// The bucket that holds the object.
    pub bucket: String,
    /// The key of the object inside the bucket.
    pub key: String,
    /// The entity tag for the `If-None-Match` precondition: the store is to
    /// send the body only if the object's tag differs from this one. `None`
    /// asks for the body whatever its tag.
    pub if_none_match: Option<String>,
}

/// What came of a [`Request`].
#[derive(Debug, PartialEq, Eq)]
pub enum Response {
    /// The store sent the object: its complete body, and its entity tag if the
    /// store gave one.
    Object { body: Bytes, e_tag: Option<String> },
    /// The store began to send the object, but the body broke off before its
    /// end. `reason` describes the failure.
    Interrupted { reason: String },
    /// The store answered with an HTTP status that is not a success, among
    /// them [`NOT_MODIFIED`]. `reason` describes the answer.
    Refused { status: u16, reason: String },
    /// No answer of the store was had: the request could not be built or
    /// sent, timed out, or the answer could not be understood. `reason`
    /// describes the failure.
    Failed { reason: String },
}

impl Response {
    /// Whether the store said that the object is unchanged.
    pub open spec fn is_not_modified(self) -> bool {
        self matches Response::Refused { status, .. } && status == NOT_MODIFIED
    }
}

/// The entity tag that a handle keeps for a body: the characters of the tag
/// that the store sent, or no characters at all if it sent none.
pub open spec fn kept_tag(e_tag: Option<String>) -> Seq<char> {
    match e_tag {
        Some(tag) => tag@,
        None => Seq::empty(),
    }
}

} // verus!
