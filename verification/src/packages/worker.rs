//! Installing the packages of the new system.
use super::{pacstrap_step, Packages};
use crate::terminal::Step;
use vstd::prelude::*;

verus! {

/// The steps that install the packages into the new system.
pub fn install(packages: Packages) -> (res: Vec<Step>)
    ensures
        res.deep_view() == seq![pacstrap_step(packages.packages.deep_view())],
{
    let mut res: Vec<Step> = Vec::new();
    res.push(packages.install());
    assert(res.deep_view() =~= seq![pacstrap_step(packages.packages.deep_view())]);
    res
}

} // verus!
