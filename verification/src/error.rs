//! Why an aggregation failed.

use vstd::prelude::*;
use crate::executor::RequestError;
use crate::link::LinkError;

verus! {

/// The failures of a fetch. None is ever turned into a partial result.
#[derive(Clone, Copy, Debug, PartialEq, Eq, Structural)]
pub enum Error {
    /// An attempt brought no response.
    Transport,
    /// A retryable status came back after the last retry.
    RetriesExhausted,
    /// A status that is neither a success nor retryable.
    UnretryableStatus(u16),
    /// A page of a search reported that its results are incomplete.
    IncompleteSearchResult,
    /// The `Link` header of a page could not be read.
    PaginationParse(LinkError),
    /// A response body did not have the expected shape.
    Deserialization,
    /// The URL that a paged fetch starts from is not an absolute URL.
    InvalidUrl,
    /// A total does not fit the integer that holds it.
    Overflow,
}

impl Error {
    /// The failure of a fetch whose request was given up for `e`.
    pub open spec fn of_request(e: RequestError) -> Error {
        match e {
            RequestError::Transport => Error::Transport,
            RequestError::Status(code) => Error::UnretryableStatus(code),
            RequestError::RetriesExhausted => Error::RetriesExhausted,
        }
    }

    /// The failure of a fetch whose request was given up for `e`.
    pub fn from_request(e: RequestError) -> (r: Error)
        ensures
            r == Error::of_request(e),
    {
        match e {
            RequestError::Transport => Error::Transport,
            RequestError::Status(code) => Error::UnretryableStatus(code),
            RequestError::RetriesExhausted => Error::RetriesExhausted,
        }
    }
}

} // verus!
