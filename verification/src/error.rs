//! The error type of the library.
use vstd::prelude::*;

verus! {

#[verifier::external_type_specification]
#[verifier::external_body]
pub struct ExIoError(std::io::Error);

/// `std::io::Error::new(std::io::ErrorKind::Other, message)`: an I/O error of
/// kind `Other` whose payload is `message`. A `std::io::Error` is opaque to
/// Verus, so nothing is stated of the result.
#[verifier::external_body]
fn other_io_error(message: String) -> std::io::Error {
    std::io::Error::new(std::io::ErrorKind::Other, message)
}

/// What the library's fallible operations return.
pub type Result<T> = std::result::Result<T, Error>;

/// The library's error: an I/O error. One made from a message is held as
/// that message, so that what it says can be stated and read.
#[derive(Debug)]
pub enum Error {
    /// An error reported by an I/O operation.
    Io(std::io::Error),
    /// An I/O error of kind `Other` whose payload is this message.
    Other(String),
}

impl Error {
    /// An error carrying `message`: an I/O error of kind `Other`.
    pub fn from_message(message: String) -> (e: Error)
        ensures
            e == Error::Other(message),
    {
        Error::Other(message)
    }

    /// The error as a `std::io::Error`: the I/O error itself, or a new one of
    /// kind `Other` whose payload is the message.
    pub fn into_io_error(self) -> (e: std::io::Error)
        ensures
            self matches Error::Io(io) ==> e == io,
    {
        match self {
            Error::Io(io) => io,
            Error::Other(message) => other_io_error(message),
        }
    }
}

impl From<std::io::Error> for Error {
    fn from(error: std::io::Error) -> (e: Error) {
        Error::Io(error)
    }
}

impl vstd::std_specs::convert::FromSpecImpl<std::io::Error> for Error {
    open spec fn obeys_from_spec() -> bool {
        true
    }

    open spec fn from_spec(error: std::io::Error) -> Error {
        Error::Io(error)
    }
}

impl From<String> for Error {
    fn from(message: String) -> (e: Error) {
        Error::from_message(message)
    }
}

impl vstd::std_specs::convert::FromSpecImpl<String> for Error {
    open spec fn obeys_from_spec() -> bool {
        true
    }

    open spec fn from_spec(message: String) -> Error {
        Error::Other(message)
    }
}

} // verus!
