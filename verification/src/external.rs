//! Declarations that let verified code carry values of types it does not
//! look inside.
use vstd::prelude::*;

verus! {

/// `std::io::Error`, carried through error values unopened.
#[verifier::external_type_specification]
#[verifier::external_body]
pub struct ExIoError(std::io::Error);

} // verus!
