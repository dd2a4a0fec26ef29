use vstd::prelude::*;

verus! {

/// The terminal of a user whose description names none: bash.
pub fn terminal() -> (res: String)
    ensures
        res@ == "bash"@,
{
    "bash".to_owned()
}

} // verus!
