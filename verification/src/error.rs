//! The error type of the library.

use vstd::prelude::*;

verus! {

/// `std::io::Error`, carried by [`AppError::Io`].
#[verifier::external_type_specification]
#[verifier::external_body]
pub struct ExIoError(std::io::Error);

/// What can go wrong.
#[derive(Debug)]
pub enum AppError {
    /// The configuration could not be read, written or understood.
    Config(String),
    /// The tariff API could not be reached or answered with an error.
    Api(String),
    /// Data could not be parsed.
    Parse(String),
    /// No such region.
    RegionNotFound(String),
    /// The cache failed.
    Cache(String),
    /// An I/O operation failed.
    Io(std::io::Error),
}

/// The result type of the library.
pub type Result<T> = std::result::Result<T, AppError>;

}
