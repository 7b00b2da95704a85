//! The non-blocking result type of the `nb` crate, as the HAL traits use it.
use nb::Error as NbError;
use vstd::prelude::*;

verus! {

#[verifier::external_type_specification]
#[verifier::reject_recursive_types(E)]
pub struct ExNbError<E>(NbError<E>);

} // verus!
