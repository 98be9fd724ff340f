//! What callers can rely on across refreshes, whatever decoder they use.
//!
//! Each statement below is proved from the contracts of [`File::fetch`] and
//! [`File::loaded`] alone. A handle is a value that `fetch` only reads, so
//! every statement about an outcome also holds with the old handle standing
//! exactly as it stood.
use crate::error::Error;
use crate::file::{File, FileView};
use crate::parse::Parse;
use crate::payload::contents;
use crate::transport::{kept_tag, Response};
use bytes::Bytes;
use vstd::prelude::*;
use vstd::utf8::valid_utf8;

verus! {

/// A refresh that the store answers with "not modified" yields `Ok(None)`:
/// there is no new handle, no error, and the handle that was refreshed is the
/// one to go on with. This holds of a handle in either state.
pub proof fn unchanged_object_yields_no_handle<P: Parse>(
    file: File<P>,
    response: Response,
    result: Result<Option<File<P>>, Error>,
)
    requires
        file.fetched(response, result),
        response.is_not_modified(),
    ensures
        result matches Ok(None),
{
}

/// A handle that a refresh yields names the object that the refreshed handle
/// names, and it is loaded.
pub proof fn new_handle_keeps_identity<P: Parse>(
    file: File<P>,
    response: Response,
    next: File<P>,
)
    requires
        file.fetched(response, Ok(Some(next))),
    ensures
        next@ is Loaded,
        next@.bucket() == file@.bucket(),
        next@.path() == file@.path(),
{
}

/// A handle that a refresh yields holds the entity tag that the store sent
/// with the body. So wherever the store sends a tag other than the one held,
/// as a store that honours the precondition does for a body it sends, the new
/// handle's tag differs from the old one's.
pub proof fn new_handle_takes_new_tag<P: Parse>(
    file: File<P>,
    body: Bytes,
    e_tag: Option<String>,
    next: File<P>,
)
    requires
        file.fetched(Response::Object { body, e_tag }, Ok(Some(next))),
        file@.etag() != Some(kept_tag(e_tag)),
    ensures
        next@.etag() == Some(kept_tag(e_tag)),
        next@.etag() != file@.etag(),
{
}

/// Whether the decoder `P` gives no value for `body`, whatever else it does.
pub open spec fn undecodable<P: Parse>(body: Seq<u8>) -> bool {
    forall|value: P::Output| !P::parses(body, Ok(value))
}

/// Whether the decoder `P` does not turn `body` down, whatever else it does.
pub open spec fn decodable<P: Parse>(body: Seq<u8>) -> bool {
    forall|reason: String| !P::parses(body, Err(reason))
}

/// The decoders for raw bytes turn no body down.
pub proof fn raw_bytes_are_decodable(body: Seq<u8>)
    ensures
        decodable::<Vec<u8>>(body),
        decodable::<Bytes>(body),
{
}

/// The decoder for text turns down no body that is valid UTF-8, and gives no
/// value for any other body.
pub proof fn text_is_decodable_as_far_as_it_is_utf8(body: Seq<u8>)
    ensures
        valid_utf8(body) ==> decodable::<String>(body),
        !valid_utf8(body) ==> undecodable::<String>(body),
{
}

/// A refresh that receives a body for which the decoder gives no value fails
/// with [`Error::ParseError`]. No handle for that body comes into being, so
/// the content held before the refresh is the content held after it.
pub proof fn undecodable_body_is_parse_error<P: Parse>(
    file: File<P>,
    body: Bytes,
    e_tag: Option<String>,
    result: Result<Option<File<P>>, Error>,
)
    requires
        file.fetched(Response::Object { body, e_tag }, result),
        undecodable::<P>(contents(body)),
    ensures
        result matches Err(Error::ParseError(_)),
{
}

/// A first load that receives a body which the decoder does not turn down
/// succeeds. The handle it returns is loaded, names the object asked for, and
/// holds a value that the decoder gives for the body, under the tag that came
/// with it.
pub proof fn first_load_of_decodable_body_succeeds<P: Parse>(
    bucket: Seq<char>,
    path: Seq<char>,
    body: Bytes,
    e_tag: Option<String>,
    result: Result<File<P>, Error>,
)
    requires
        File::<P>::loaded_from(bucket, path, Response::Object { body, e_tag }, result),
        decodable::<P>(contents(body)),
    ensures
        result matches Ok(file) && file@ matches FileView::Loaded { bucket: b, path: p, content }
            && b == bucket && p == path && content.etag == kept_tag(e_tag) && P::parses(
            contents(body),
            Ok(content.body),
        ),
{
}

} // verus!
