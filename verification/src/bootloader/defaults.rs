use vstd::prelude::*;

verus! {

/// Whether the boot loader goes to the removable-media path when the options
/// do not say: it does not.
pub fn removable() -> (res: bool)
    ensures
        !res,
{
    false
}

/// Whether other operating systems are looked for when the options do not
/// say: they are not.
pub fn multiboot() -> (res: bool)
    ensures
        !res,
{
    false
}

} // verus!
