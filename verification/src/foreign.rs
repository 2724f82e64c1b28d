//! Outside types that the library carries through without looking inside.

use vstd::prelude::*;

verus! {

/// `anyhow::Error`: an opaque error raised by a caller-supplied module or store.
#[verifier::external_type_specification]
#[verifier::external_body]
pub struct ExAnyhowError(anyhow::Error);

} // verus!

verus! {

/// `std::io::Error`: an opaque failure of reading or writing a file.
#[verifier::external_type_specification]
#[verifier::external_body]
pub struct ExIoError(std::io::Error);

} // verus!
