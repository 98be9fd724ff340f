//! What can go wrong between asking the store and holding a decoded value.
use std::fmt::{Display, Formatter};
use vstd::prelude::*;
use vstd::string::StringExecFns;

verus! {

/// The ways in which loading or refreshing a file fails.
///
/// Each variant but the last carries the description that the failing party
/// gave of its failure, word for word.
#[derive(Debug)]
pub enum Error {
    /// The store could not be reached or refused the request.
    SdkError(String),
    /// The store answered, but the body broke off before it was read to the end.
    ReadError(String),
    /// The body was read, but the decoder turned it down.
    ParseError(String),
    /// A first load was answered with "not modified", though no entity tag was sent.
    UnabledToLoad,
}

impl Error {
    /// The text of the error message, as a sequence of characters.
    pub open spec fn message(self) -> Seq<char> {
        match self {
            Error::SdkError(reason) => "S3 Access Error: "@ + reason@,
            Error::ReadError(reason) => "Read Error: "@ + reason@,
            Error::ParseError(reason) => "Parse Error: "@ + reason@,
            Error::UnabledToLoad => "Unabled to convert an unloaded file to a loaded file"@,
        }
    }

    /// Renders the error as a message for the user.
    pub fn to_string(&self) -> (text: String)
        ensures
            text@ == self.message(),
    {
        match self {
            Error::SdkError(reason) => String::from_str("S3 Access Error: ").concat(reason.as_str()),
            Error::ReadError(reason) => String::from_str("Read Error: ").concat(reason.as_str()),
            Error::ParseError(reason) => String::from_str("Parse Error: ").concat(reason.as_str()),
            Error::UnabledToLoad => String::from_str(
                "Unabled to convert an unloaded file to a loaded file",
            ),
        }
    }
}

impl Display for Error {
    /// Writes [`Error::message`].
    fn fmt(&self, f: &mut Formatter<'_>) -> (result: Result<(), std::fmt::Error>) {
        f.write_str(self.to_string().as_str())
    }
}

impl std::error::Error for Error {

}

} // verus!
