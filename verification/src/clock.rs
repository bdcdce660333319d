//! The wall clock, as far as the store needs it.

use vstd::prelude::*;
use std::time::SystemTime;

verus! {

/// `std::time::SystemTime`, carried through as an opaque value: the store
/// records such a value and never looks inside it.
#[verifier::external_type_specification]
#[verifier::external_body]
pub struct ExSystemTime(SystemTime);

/// `SystemTime::now` reads the system clock. Nothing is claimed of the
/// value it returns: two readings may differ in either direction.
pub assume_specification[ SystemTime::now ]() -> (now: SystemTime);

} // verus!
