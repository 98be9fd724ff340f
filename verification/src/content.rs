//! A decoded body together with the entity tag it came with.
use std::ops::Deref;
use vstd::prelude::*;
use vstd::std_specs::cmp::{PartialEqSpec, PartialEqSpecImpl};

verus! {

/// Container for the parsed content and the `ETag` of a file.
///
/// The two are set together when a body is decoded and never change
/// afterwards. The container dereferences to the body, so the body's own
/// methods can be called on it directly.
#[derive(Debug)]
pub struct Content<T> {
    etag: String,
    body: T,
}

/// What a [`Content`] holds: the characters of its entity tag, and its body.
pub struct ContentView<T> {
    pub etag: Seq<char>,
    pub body: T,
}

impl<T: PartialEq> ContentView<T> {
    /// Whether two contents have entity tags of the same characters and
    /// bodies that `T` calls equal.
    pub open spec fn same(self, other: Self) -> bool {
        self.etag == other.etag && self.body.eq_spec(&other.body)
    }
}

impl<T> View for Content<T> {
    type V = ContentView<T>;

    closed spec fn view(&self) -> ContentView<T> {
        ContentView { etag: self.etag@, body: self.body }
    }
}

impl<T> Content<T> {
    /// Pairs a decoded body with the entity tag that the store sent with it.
    pub(crate) fn new(etag: String, body: T) -> (content: Self)
        ensures
            content@ == (ContentView { etag: etag@, body }),
    {
        Content { etag, body }
    }

    /// The entity tag that the store sent with the body.
    pub fn etag(&self) -> (etag: &str)
        ensures
            etag@ == self@.etag,
    {
        self.etag.as_str()
    }

    /// Converts the container into the body it holds, dropping the entity tag.
    pub fn into_inner(self) -> (body: T)
        ensures
            body == self@.body,
    {
        self.body
    }
}

impl<T> Deref for Content<T> {
    type Target = T;

    fn deref(&self) -> (body: &T)
        ensures
            *body == self@.body,
    {
        &self.body
    }
}

impl<T: Clone> Clone for Content<T> {
    fn clone(&self) -> (copy: Self)
        ensures
            copy@.etag == self@.etag,
            cloned(self@.body, copy@.body),
    {
        Content { etag: self.etag.clone(), body: self.body.clone() }
    }
}

impl<T: PartialEq> PartialEq for Content<T> {
    fn eq(&self, other: &Self) -> (equal: bool) {
        self.etag == other.etag && self.body == other.body
    }
}

impl<T: PartialEq> PartialEqSpecImpl for Content<T> {
    /// `==` on contents is what is stated below wherever `==` on bodies is
    /// what `T` states of it.
    open spec fn obeys_eq_spec() -> bool {
        T::obeys_eq_spec()
    }

    /// Two contents are equal when their entity tags have the same characters
    /// and `T` calls their bodies equal.
    open spec fn eq_spec(&self, other: &Self) -> bool {
        self@.same(other@)
    }
}

impl<T: Eq> Eq for Content<T> {

}

} // verus!
