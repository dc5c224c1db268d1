use vstd::prelude::*;

verus! {

/// What can go wrong with an operation.
#[derive(Debug, Clone, PartialEq, Eq)]
pub enum Error {
    /// The request completed with a status outside the success set; carries
    /// the status and the response body decoded lossily as UTF-8.
    HttpError(u16, String),
    /// The request never completed; carries a description of the failure.
    Transport(String),
    /// A body could not be encoded or decoded; carries a description.
    Serialization(String),
}

impl Error {
    /// The status code that the error carries, if any.
    pub open spec fn status_spec(&self) -> Option<u16> {
        match self {
            Error::HttpError(code, _) => Some(*code),
            _ => None,
        }
    }

    /// The status code that the error carries, if any.
    pub fn status(&self) -> (r: Option<u16>)
        ensures
            r == self.status_spec(),
    {
        match self {
            Error::HttpError(code, _) => Some(*code),
            _ => None,
        }
    }
}

} // verus!
