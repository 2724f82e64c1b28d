//! What a store operation answers once the database has done its part.

use vstd::prelude::*;

use crate::data::ids::{ulid_text, ulid_to_text};
use crate::domain::error::DomainError;

verus! {

broadcast use vstd::string::group_string_axioms;

/// The text of the error for a row that is not there: the message of
/// `DomainError::NotFound` for the id's text, as the store passes it on.
pub open spec fn not_found_text(id: u128) -> Seq<char> {
    "not found: "@ + ulid_text(id)
}

/// The answer to an update or delete of the row with id `id` that changed `n`
/// rows: success when a row changed; otherwise the not-found message for `id`,
/// carried as a database error (the store reports every failure as one).
pub fn check_affected(n: usize, id: u128) -> (r: Result<(), DomainError>)
    ensures
        n > 0 ==> r is Ok,
        n == 0 ==> (r matches Err(DomainError::DatabaseError(m)) && m@ == not_found_text(id)),
{
    if n == 0 {
        let mut msg = String::from_str("not found: ");
        let text = ulid_to_text(id);
        msg.append(text.as_str());
        return Err(DomainError::DatabaseError(msg));
    }
    Ok(())
}

/// The text that `Display` writes for an `anyhow::Error`: its outermost message.
pub uninterp spec fn anyhow_text(e: anyhow::Error) -> Seq<char>;

/// `Display` of an `anyhow::Error` (`to_string`). Claims only that the text is
/// the named [`anyhow_text`] of the error, which anyhow writes from the error's
/// own message.
#[verifier::external_body]
fn error_text(e: &anyhow::Error) -> (r: String)
    ensures
        r@ == anyhow_text(*e),
{
    e.to_string()
}

/// Convert an error of the store into a `DomainError`: always a database error
/// (whatever the error wraps) that carries the error's message.
pub fn anyhow_to_domain(e: anyhow::Error) -> (r: DomainError)
    ensures
        r matches DomainError::DatabaseError(m) && m@ == anyhow_text(e),
{
    DomainError::DatabaseError(error_text(&e))
}

} // verus!
