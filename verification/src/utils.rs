use vstd::prelude::*;

verus! {

/// Errors that a request handler of the service answers with.
#[derive(Debug)]
pub enum Error {
    /// The request carried data that cannot be processed.
    InvalidData(String),
    /// The database refused or failed a query; the text is the database's message.
    DatabaseInternal(String),
    /// No record matched the request.
    NotFound,
}

impl Error {
    /// The HTTP status code that the error is answered with.
    pub open spec fn status_spec(&self) -> u16 {
        match self {
            Error::InvalidData(_) => 400,
            Error::DatabaseInternal(_) => 500,
            Error::NotFound => 404,
        }
    }

    /// The HTTP status code that the error is answered with: 404 for a missing
    /// record, 500 for a database failure, 400 for invalid request data.
    pub fn status_code(&self) -> (code: u16)
        ensures
            code == self.status_spec(),
            self is InvalidData ==> code == 400,
            self is DatabaseInternal ==> code == 500,
            self is NotFound ==> code == 404,
    {
        match self {
            Error::InvalidData(_) => 400,
            Error::DatabaseInternal(_) => 500,
            Error::NotFound => 404,
        }
    }
}

/// A record that a lookup found, or `Error::NotFound` when it found none.
pub fn require_found<T>(found: Option<T>) -> (r: Result<T, Error>)
    ensures
        match found {
            Some(v) => r == Ok::<T, Error>(v),
            None => r matches Err(Error::NotFound),
        },
{
    match found {
        Some(v) => Ok(v),
        None => Err(Error::NotFound),
    }
}

/// The answer to a request that created a record: the record's id.
#[derive(Clone, Copy, Debug)]
pub struct CreatedEntity {
    pub uuid: u128,
}

impl CreatedEntity {
    pub fn new(uuid: u128) -> (e: Self)
        ensures
            e.uuid == uuid,
    {
        CreatedEntity { uuid }
    }
}

} // verus!
