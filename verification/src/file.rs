//! Handles to files in the store, and the rules by which they are refreshed.
use crate::content::{Content, ContentView};
use crate::error::Error;
use crate::parse::{Parse, ParseResult};
use crate::payload::contents;
use crate::transport::{kept_tag, Request, Response, NOT_MODIFIED};
use bytes::Bytes;
use std::fmt::{Debug, Formatter};
use std::marker::PhantomData;
use vstd::prelude::*;
use vstd::string::StringExecFns;
use vstd::std_specs::cmp::{PartialEqSpec, PartialEqSpecImpl};

verus! {

/// What a handle stands for: an object named by bucket and path, and, once
/// loaded, the content that was last fetched for it.
pub enum FileView<T> {
    Unloaded { bucket: Seq<char>, path: Seq<char> },
    Loaded { bucket: Seq<char>, path: Seq<char>, content: ContentView<T> },
}

impl<T> FileView<T> {
    /// The bucket that holds the object.
    pub open spec fn bucket(self) -> Seq<char> {
        match self {
            FileView::Unloaded { bucket, .. } => bucket,
            FileView::Loaded { bucket, .. } => bucket,
        }
    }

    /// The path of the object inside the bucket.
    pub open spec fn path(self) -> Seq<char> {
        match self {
            FileView::Unloaded { path, .. } => path,
            FileView::Loaded { path, .. } => path,
        }
    }

    /// The content that was last fetched, if any was.
    pub open spec fn content(self) -> Option<ContentView<T>> {
        match self {
            FileView::Unloaded { .. } => None,
            FileView::Loaded { content, .. } => Some(content),
        }
    }

    /// The entity tag to name in the next request, if there is one.
    pub open spec fn etag(self) -> Option<Seq<char>> {
        match self {
            FileView::Unloaded { .. } => None,
            FileView::Loaded { content, .. } => Some(content.etag),
        }
    }

    /// The text that shows a handle to a developer, given the text that shows
    /// its parser: state, bucket and path, the parser, and for a loaded handle
    /// the entity tag. The body is left out.
    pub open spec fn shown(self, parser: Seq<char>) -> Seq<char> {
        match self {
            FileView::Unloaded { bucket, path } => "File#Unloaded<"@ + bucket + ":"@ + path
                + " parser="@ + parser + ">"@,
            FileView::Loaded { bucket, path, content } => "File#Loaded<"@ + bucket + ":"@ + path
                + " parser="@ + parser + " etag="@ + content.etag + ">"@,
        }
    }
}

impl<T: PartialEq> FileView<T> {
    /// Whether two handles are in the same state, name the same object and,
    /// if loaded, hold the same content.
    pub open spec fn same(self, other: Self) -> bool {
        match (self, other) {
            (FileView::Unloaded { .. }, FileView::Unloaded { .. }) => self == other,
            (FileView::Loaded { content: mine, .. }, FileView::Loaded { content: theirs, .. }) => {
                self.bucket() == other.bucket() && self.path() == other.path() && mine.same(
                    theirs,
                )
            },
            _ => false,
        }
    }
}

/// Container for the metadata of a file that is yet to be fetched.
#[derive(Debug)]
pub struct UnloadedFile<P: Parse> {
    bucket: String,
    path: String,
    parser: PhantomData<P>,
}

/// Container for the metadata of a file together with its parsed content.
#[derive(Debug)]
pub struct LoadedFile<P: Parse> {
    bucket: String,
    path: String,
    inner: Content<P::Output>,
    parser: PhantomData<P>,
}

/// Either a reference to an unloaded file or a loaded file with its content
/// parsed by `P`.
///
/// A handle never changes. A refresh that brings a new body yields a new
/// handle for the same object, and the caller decides when to let go of the
/// old one.
pub enum File<P: Parse> {
    /// Reference to a file that was not fetched yet.
    Unloaded(UnloadedFile<P>),
    /// Reference to a file with the content that was last fetched for it.
    Loaded(LoadedFile<P>),
}

impl<P: Parse> View for UnloadedFile<P> {
    type V = FileView<P::Output>;

    closed spec fn view(&self) -> FileView<P::Output> {
        FileView::Unloaded { bucket: self.bucket@, path: self.path@ }
    }
}

impl<P: Parse> View for LoadedFile<P> {
    type V = FileView<P::Output>;

    closed spec fn view(&self) -> FileView<P::Output> {
        FileView::Loaded { bucket: self.bucket@, path: self.path@, content: self.inner@ }
    }
}

impl<P: Parse> UnloadedFile<P> {
    /// An unloaded file stands for an object without content.
    pub proof fn view_is_unloaded(self)
        ensures
            self@ is Unloaded,
    {
    }
}

impl<P: Parse> LoadedFile<P> {
    /// A loaded file stands for an object with content.
    pub proof fn view_is_loaded(self)
        ensures
            self@ is Loaded,
    {
    }
}

impl<P: Parse> View for File<P> {
    type V = FileView<P::Output>;

    open spec fn view(&self) -> FileView<P::Output> {
        match *self {
            File::Unloaded(file) => file@,
            File::Loaded(file) => file@,
        }
    }
}

impl<P: Parse> File<P> {
    /// Returns the path of the file inside the bucket.
    pub fn path(&self) -> (path: &str)
        ensures
            path@ == self@.path(),
    {
        match self {
            File::Unloaded(file) => file.path.as_str(),
            File::Loaded(file) => file.path.as_str(),
        }
    }

    /// Returns the bucket of the file.
    pub fn bucket(&self) -> (bucket: &str)
        ensures
            bucket@ == self@.bucket(),
    {
        match self {
            File::Unloaded(file) => file.bucket.as_str(),
            File::Loaded(file) => file.bucket.as_str(),
        }
    }

    /// Returns a reference to the content if the file is loaded.
    pub fn as_content(&self) -> (content: Option<&Content<P::Output>>)
        ensures
            match content {
                Some(content) => self@.content() == Some(content@),
                None => self@.content() is None,
            },
    {
        match self {
            File::Unloaded(_) => None,
            File::Loaded(file) => Some(&file.inner),
        }
    }

    /// Returns the parsed body if the file is loaded, dropping everything
    /// that refers to the store.
    pub fn into_inner(self) -> (body: Option<P::Output>)
        ensures
            match body {
                Some(body) => self@.content() matches Some(content) && content.body == body,
                None => self@.content() is None,
            },
    {
        match self {
            File::Unloaded(_) => None,
            File::Loaded(file) => Some(file.inner.into_inner()),
        }
    }

    /// Creates a reference to a file that is not loaded yet.
    ///
    /// No store is needed for this. The file can be loaded later with
    /// [`File::request`] and [`File::fetch`].
    pub fn unloaded(bucket: &str, path: &str) -> (file: Self)
        ensures
            file@ == (FileView::<P::Output>::Unloaded { bucket: bucket@, path: path@ }),
    {
        File::Unloaded(
            UnloadedFile { bucket: bucket.to_owned(), path: path.to_owned(), parser: PhantomData },
        )
    }

    /// The request that refreshes this file.
    ///
    /// It names the file's bucket and path. For a loaded file it carries the
    /// entity tag of the content held, so that the store sends a body only if
    /// it has another version; for an unloaded file it carries none. A loaded
    /// file whose content came without a tag holds the empty tag and sends
    /// that.
    pub fn request(&self) -> (request: Request)
        ensures
            request.bucket@ == self@.bucket(),
            request.key@ == self@.path(),
            match request.if_none_match {
                Some(tag) => self@.etag() == Some(tag@),
                None => self@.etag() is None,
            },
    {
        let if_none_match = match self {
            File::Unloaded(_) => None,
            File::Loaded(file) => Some(file.inner.etag().to_owned()),
        };
        Request { bucket: self.bucket().to_owned(), key: self.path().to_owned(), if_none_match }
    }

    /// Whether `next` is the handle that follows this one when a body was
    /// decoded to `body` and came with `e_tag`: a loaded handle for the same
    /// object that holds this body under the tag kept for `e_tag`.
    pub open spec fn succeeded_by(self, next: Self, body: P::Output, e_tag: Option<String>) -> bool {
        next@ == (FileView::Loaded {
            bucket: self@.bucket(),
            path: self@.path(),
            content: ContentView { etag: kept_tag(e_tag), body },
        })
    }

    /// The handle that follows this one once the decoder has answered.
    ///
    /// If the decoder gave a value, the new handle is loaded with that value
    /// and with the entity tag that came with the body, or with the empty tag
    /// if none came. If the decoder turned the body down, there is no new
    /// handle and its reason is returned as [`Error::ParseError`].
    pub fn successor(&self, parsed: ParseResult<P::Output>, e_tag: Option<String>) -> (result:
        Result<Self, Error>)
        ensures
            match parsed {
                Ok(body) => result matches Ok(next) && self.succeeded_by(next, body, e_tag),
                Err(reason) => result matches Err(Error::ParseError(r)) && r == reason,
            },
    {
        match parsed {
            Ok(body) => {
                let etag = match e_tag {
                    Some(tag) => tag,
                    None => String::new(),
                };
                Ok(
                    File::Loaded(
                        LoadedFile {
                            bucket: self.bucket().to_owned(),
                            path: self.path().to_owned(),
                            inner: Content::new(etag, body),
                            parser: PhantomData,
                        },
                    ),
                )
            },
            Err(reason) => Err(Error::ParseError(reason)),
        }
    }

    /// Whether `result` is an outcome of decoding `body`, sent with `e_tag`,
    /// for the object at `path` in `bucket`: a loaded handle for that object
    /// with a value that `P` may give for the body, held under the tag kept
    /// for `e_tag`, or [`Error::ParseError`] with a reason with which `P` may
    /// turn the body down.
    pub open spec fn decoded(
        bucket: Seq<char>,
        path: Seq<char>,
        body: Bytes,
        e_tag: Option<String>,
        result: Result<Self, Error>,
    ) -> bool {
        match result {
            Ok(file) => {
                &&& file@ matches FileView::Loaded { bucket: b, path: p, content }
                &&& b == bucket
                &&& p == path
                &&& content.etag == kept_tag(e_tag)
                &&& P::parses(contents(body), Ok(content.body))
            },
            Err(Error::ParseError(reason)) => P::parses(contents(body), Err(reason)),
            Err(_) => false,
        }
    }

    /// Decodes a body that the store sent and builds the handle that holds it.
    fn attempt_extract(&self, body: Bytes, e_tag: Option<String>) -> (result: Result<Self, Error>)
        ensures
            Self::decoded(self@.bucket(), self@.path(), body, e_tag, result),
    {
        self.successor(P::parse(body), e_tag)
    }

    /// Whether `result` is an outcome of [`File::fetch`] on this file for
    /// `response`.
    ///
    /// - The store said "not modified": nothing new, `Ok(None)`.
    /// - The store refused otherwise, or no answer was had:
    ///   [`Error::SdkError`] with the reason given.
    /// - The body broke off: [`Error::ReadError`] with the reason given.
    /// - The store sent the object: what decoding it gives for this file's
    ///   bucket and path, see [`File::decoded`].
    pub open spec fn fetched(self, response: Response, result: Result<Option<Self>, Error>) -> bool {
        match response {
            Response::Refused { status, reason } => if status == NOT_MODIFIED {
                result matches Ok(None)
            } else {
                result matches Err(Error::SdkError(r)) && r == reason
            },
            Response::Failed { reason } => result matches Err(Error::SdkError(r)) && r == reason,
            Response::Interrupted { reason } => result matches Err(Error::ReadError(r)) && r
                == reason,
            Response::Object { body, e_tag } => match result {
                Ok(Some(next)) => Self::decoded(self@.bucket(), self@.path(), body, e_tag, Ok(next)),
                Ok(None) => false,
                Err(e) => Self::decoded(self@.bucket(), self@.path(), body, e_tag, Err(e)),
            },
        }
    }

    /// Refreshes the file with what the store answered to [`File::request`].
    ///
    /// Returns `Ok(None)` if the store holds the version that this handle
    /// holds, and `Ok(Some(file))` with a new handle for the same object if it
    /// sent a body and the body was decoded. Every failure is returned as an
    /// [`Error`]; this handle stays as it was and remains good to use.
    pub fn fetch(&self, response: Response) -> (result: Result<Option<Self>, Error>)
        ensures
            self.fetched(response, result),
    {
        match response {
            Response::Refused { status, reason } => {
                if status == NOT_MODIFIED {
                    Ok(None)
                } else {
                    Err(Error::SdkError(reason))
                }
            },
            Response::Failed { reason } => Err(Error::SdkError(reason)),
            Response::Interrupted { reason } => Err(Error::ReadError(reason)),
            Response::Object { body, e_tag } => {
                match self.attempt_extract(body, e_tag) {
                    Ok(next) => Ok(Some(next)),
                    Err(e) => Err(e),
                }
            },
        }
    }

    /// Whether `result` is an outcome of [`File::loaded`] for the object at
    /// `path` in `bucket` and for `response`.
    ///
    /// It is what [`File::fetched`] says of an unloaded file, but for "not
    /// modified": no entity tag was sent, so this answer breaks the protocol
    /// and gives [`Error::UnabledToLoad`].
    pub open spec fn loaded_from(
        bucket: Seq<char>,
        path: Seq<char>,
        response: Response,
        result: Result<Self, Error>,
    ) -> bool {
        match response {
            Response::Refused { status, reason } => if status == NOT_MODIFIED {
                result matches Err(Error::UnabledToLoad)
            } else {
                result matches Err(Error::SdkError(r)) && r == reason
            },
            Response::Failed { reason } => result matches Err(Error::SdkError(r)) && r == reason,
            Response::Interrupted { reason } => result matches Err(Error::ReadError(r)) && r
                == reason,
            Response::Object { body, e_tag } => Self::decoded(bucket, path, body, e_tag, result),
        }
    }

    /// Creates a loaded file from what the store answered to the request of
    /// the unloaded file for `bucket` and `path`.
    ///
    /// Useful at start-up, where a failure should halt the service: anything
    /// but a decoded body is an error, and no handle is returned for it.
    pub fn loaded(bucket: &str, path: &str, response: Response) -> (result: Result<Self, Error>)
        ensures
            Self::loaded_from(bucket@, path@, response, result),
    {
        let file = Self::unloaded(bucket, path);
        match file.fetch(response) {
            Ok(Some(loaded)) => Ok(loaded),
            Ok(None) => Err(Error::UnabledToLoad),
            Err(e) => Err(e),
        }
    }
}

/// `std::fmt::Formatter`, carried through verified code as an opaque value.
#[verifier::external_type_specification]
#[verifier::external_body]
pub struct ExFormatter<'a>(Formatter<'a>);

/// `std::fmt::Error`, carried through verified code as an opaque value.
#[verifier::external_type_specification]
#[verifier::external_body]
pub struct ExFormatError(std::fmt::Error);

/// `Formatter::write_str`: hands the text to the sink behind the formatter.
/// Nothing is claimed of the answer: it is the sink's.
pub assume_specification<'a>[ Formatter::<'a>::write_str ](
    f: &mut Formatter<'a>,
    data: &str,
) -> (result: Result<(), std::fmt::Error>)
;

/// `Debug` for `PhantomData<P>`, which names the type `P`, written to a
/// string. Nothing is claimed of the text: the name of a type is the
/// compiler's to choose.
#[verifier::external_body]
fn parser_name<P>() -> (name: String) {
    format!("{:?}", PhantomData::<P>)
}

impl<P: Parse> File<P> {
    /// The text that shows this handle, given the text that shows its parser.
    pub fn show(&self, parser: &str) -> (text: String)
        ensures
            text@ == self@.shown(parser@),
    {
        match self {
            File::Unloaded(file) => String::from_str("File#Unloaded<").concat(
                file.bucket.as_str(),
            ).concat(":").concat(file.path.as_str()).concat(" parser=").concat(parser).concat(">"),
            File::Loaded(file) => String::from_str("File#Loaded<").concat(
                file.bucket.as_str(),
            ).concat(":").concat(file.path.as_str()).concat(" parser=").concat(parser).concat(
                " etag=",
            ).concat(file.inner.etag()).concat(">"),
        }
    }
}

impl<P: Parse> Debug for File<P> {
    /// Writes [`FileView::shown`] for this handle, with the parser shown as
    /// `PhantomData<P>` is.
    fn fmt(&self, f: &mut Formatter<'_>) -> (result: Result<(), std::fmt::Error>) {
        let parser = parser_name::<P>();
        f.write_str(self.show(parser.as_str()).as_str())
    }
}

impl<P: Parse + Clone> Clone for UnloadedFile<P> {
    fn clone(&self) -> (copy: Self)
        ensures
            copy@ == self@,
    {
        UnloadedFile { bucket: self.bucket.clone(), path: self.path.clone(), parser: PhantomData }
    }
}

impl<P: Parse + Clone> Clone for LoadedFile<P> where P::Output: Clone {
    fn clone(&self) -> (copy: Self)
        ensures
            copy@ is Loaded,
            copy@.bucket() == self@.bucket(),
            copy@.path() == self@.path(),
            copy@.etag() == self@.etag(),
            cloned(self@.content()->Some_0.body, copy@.content()->Some_0.body),
    {
        LoadedFile {
            bucket: self.bucket.clone(),
            path: self.path.clone(),
            inner: self.inner.clone(),
            parser: PhantomData,
        }
    }
}

impl<P: Parse + PartialEq> PartialEq for UnloadedFile<P> {
    fn eq(&self, other: &Self) -> (equal: bool) {
        self.bucket == other.bucket && self.path == other.path
    }
}

impl<P: Parse + PartialEq> PartialEqSpecImpl for UnloadedFile<P> {
    open spec fn obeys_eq_spec() -> bool {
        true
    }

    /// Two unloaded files are equal when they name the same object.
    open spec fn eq_spec(&self, other: &Self) -> bool {
        self@ == other@
    }
}

impl<P: Parse + Eq> Eq for UnloadedFile<P> {

}

impl<P: Parse + PartialEq> PartialEq for LoadedFile<P> where P::Output: PartialEq {
    fn eq(&self, other: &Self) -> (equal: bool) {
        self.bucket == other.bucket && self.path == other.path && self.inner == other.inner
    }
}

impl<P: Parse + PartialEq> PartialEqSpecImpl for LoadedFile<P> where P::Output: PartialEq {
    /// `==` on loaded files is what is stated below wherever `==` on bodies
    /// is what the body's type states of it.
    open spec fn obeys_eq_spec() -> bool {
        <P::Output as PartialEqSpec>::obeys_eq_spec()
    }

    /// Two loaded files are equal when they name the same object and hold the
    /// same content.
    open spec fn eq_spec(&self, other: &Self) -> bool {
        self@.same(other@)
    }
}

impl<P: Parse + Eq> Eq for LoadedFile<P> where P::Output: Eq {

}

impl<P: Parse + PartialEq> PartialEq for File<P> where P::Output: PartialEq {
    fn eq(&self, other: &Self) -> (equal: bool) {
        match (self, other) {
            (File::Unloaded(l0), File::Unloaded(r0)) => l0 == r0,
            (File::Loaded(l0), File::Loaded(r0)) => l0 == r0,
            _ => false,
        }
    }
}

impl<P: Parse + PartialEq> PartialEqSpecImpl for File<P> where P::Output: PartialEq {
    /// `==` on files is what is stated below wherever `==` on bodies is what
    /// the body's type states of it.
    open spec fn obeys_eq_spec() -> bool {
        <P::Output as PartialEqSpec>::obeys_eq_spec()
    }

    /// Two files are equal when they are in the same state, name the same
    /// object and, if loaded, hold the same content.
    open spec fn eq_spec(&self, other: &Self) -> bool {
        self@.same(other@)
    }
}

impl<P: Parse + PartialEq> Eq for File<P> where P::Output: Eq {

}

} // verus!
