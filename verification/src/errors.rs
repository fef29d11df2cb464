//! The site's errors and the HTTP status each one is answered with.
use vstd::prelude::*;
use vstd::std_specs::convert::FromSpecImpl;
use crate::hexcodec::HexError;

verus! {

/// Status codes the site answers errors with.
pub const STATUS_BAD_REQUEST: u16 = 400;
pub const STATUS_UNAUTHORIZED: u16 = 401;
pub const STATUS_NOT_FOUND: u16 = 404;
pub const STATUS_UNPROCESSABLE_ENTITY: u16 = 422;
pub const STATUS_INTERNAL_SERVER_ERROR: u16 = 500;

/// Everything a request can fail with. Failures that come from the database,
/// the file system or JSON serialisation carry the message of the underlying
/// error.
#[derive(Debug)]
pub enum Errors {
    Db(String),
    Io(String),
    Hex(HexError),
    NotFound,
    Serialization(String),
    Validation(String),
    Authorization,
    Custom(String, u16),
}

impl Errors {
    /// The status an error is answered with: storage, I/O and serialisation
    /// failures are the server's fault, malformed hex is the client's, a
    /// missing row is "not found", a refused value is "unprocessable", a
    /// refused login is "unauthorised", and a custom error names its own.
    pub open spec fn status_of(&self) -> u16 {
        match self {
            Errors::Db(_) | Errors::Io(_) | Errors::Serialization(_) => STATUS_INTERNAL_SERVER_ERROR,
            Errors::Hex(_) => STATUS_BAD_REQUEST,
            Errors::NotFound => STATUS_NOT_FOUND,
            Errors::Validation(_) => STATUS_UNPROCESSABLE_ENTITY,
            Errors::Authorization => STATUS_UNAUTHORIZED,
            Errors::Custom(_, status) => *status,
        }
    }

    /// The HTTP status this error is answered with.
    pub fn status(&self) -> (s: u16)
        ensures
            s == self.status_of(),
    {
        match self {
            Errors::Db(_) | Errors::Io(_) | Errors::Serialization(_) => STATUS_INTERNAL_SERVER_ERROR,
            Errors::Hex(_) => STATUS_BAD_REQUEST,
            Errors::NotFound => STATUS_NOT_FOUND,
            Errors::Validation(_) => STATUS_UNPROCESSABLE_ENTITY,
            Errors::Authorization => STATUS_UNAUTHORIZED,
            Errors::Custom(_, status) => *status,
        }
    }
}

/// A row that the database did not find is answered "not found".
pub fn found<T>(row: Option<T>) -> (r: Result<T, Errors>)
    ensures
        match row {
            Some(x) => r == Ok::<T, Errors>(x),
            None => r == Err::<T, Errors>(Errors::NotFound),
        },
{
    match row {
        Some(x) => Ok(x),
        None => Err(Errors::NotFound),
    }
}

impl From<HexError> for Errors {
    fn from(e: HexError) -> (r: Errors) {
        Errors::Hex(e)
    }
}

impl FromSpecImpl<HexError> for Errors {
    open spec fn obeys_from_spec() -> bool {
        true
    }

    open spec fn from_spec(e: HexError) -> Errors {
        Errors::Hex(e)
    }
}

} // verus!
