use vstd::prelude::*;

verus! {

/// The error reported when a command of the installation exits unsuccessfully.
#[derive(Debug, PartialEq, Eq, Structural)]
pub struct Error;

} // verus!
