//! Handles to single objects of a remote blob store that are fetched again only
//! when the store holds a newer version.
//!
//! A [`File`] names one object by bucket and path. It starts out unloaded, and
//! every refresh that brings a body yields a new, loaded handle that carries
//! the decoded body together with the entity tag the store sent with it. The
//! next refresh hands that tag back to the store as an `If-None-Match`
//! precondition, so an unchanged object costs no transfer.
//!
//! The library decides and never performs I/O: [`File::request`] says what to
//! ask the store, and [`File::fetch`] turns the store's [`Response`] into the
//! next handle, into "unchanged", or into an [`Error`]. How a body becomes a
//! value is left to a [`Parse`] implementation chosen by the handle's type
//! parameter: `String`, `Vec<u8>` and `bytes::Bytes` take the body as it is,
//! [`Json`], [`SimdJson`] and [`Cbor`] deserialize it.
//!
//! ```ignore
//! let mut file = File::<String>::unloaded("my-bucket", "/my/path.txt");
//! loop {
//!     // `send` is the caller's: it performs the request and reports what came back
//!     let response: Response = send(file.request());
//!     match file.fetch(response) {
//!         Ok(Some(new)) => file = new,
//!         Ok(None) => println!("No modification"),
//!         Err(e) => eprintln!("Error: {}", e),
//!     }
//!     wait();
//! }
//! ```
//!
//! The contracts are stated over [`FileView`], the mathematical value that a
//! handle stands for, and over [`Parse::parses`], which says what a decoder
//! may answer for a body. The module [`guarantees`] holds what follows from
//! them for every decoder.
pub mod cbor;
pub mod content;
pub mod error;
pub mod file;
pub mod guarantees;
pub mod json;
pub mod parse;
pub mod payload;
pub mod transport;

pub use cbor::{Cbor, FromCbor};
pub use content::{Content, ContentView};
pub use error::Error;
pub use file::{File, FileView, LoadedFile, UnloadedFile};
pub use json::{FromJson, FromSimdJson, Json, SimdJson};
pub use parse::{described, Parse, ParseResult};
pub use transport::{Request, Response, NOT_MODIFIED};
