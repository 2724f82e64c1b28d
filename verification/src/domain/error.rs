//! The error type shared by all repository operations.

use vstd::prelude::*;

verus! {

/// Domain-level error shared by all repository operations.
#[derive(Debug)]
pub enum DomainError {
    NotFound(String),
    AlreadyExists(String),
    ValidationError(String),
    DatabaseError(String),
}

} // verus!
