//! The kinds of failure that a caller can be told of.

use vstd::prelude::*;

verus! {

/// Why a request failed.
#[derive(Debug, Clone, Copy, PartialEq, Eq, Structural)]
pub enum ErrorKind {
    /// The store holds no notification with the requested ID.
    NotFound,
    /// The request could not be decoded into the expected shape.
    InvalidInput,
}

} // verus!
