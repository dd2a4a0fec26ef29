//! Setting up the accounts of the new system.
use super::{add_user_step, root_password_step, Root, User, UserView};
use crate::terminal::Step;
use vstd::prelude::*;

verus! {

/// The steps that set the password of root.
pub fn set_root(root: Root) -> (res: Vec<Step>)
    ensures
        res.deep_view() == seq![root_password_step(root.passwd@)],
{
    let mut res: Vec<Step> = Vec::new();
    res.push(root.set_pwd());
    assert(res.deep_view() =~= seq![root_password_step(root.passwd@)]);
    res
}

/// The steps that create the user accounts: one per user, in the order given.
pub fn set_users(users: Vec<User>) -> (res: Vec<Step>)
    ensures
        res.deep_view() == users.deep_view().map_values(|u: UserView| add_user_step(u)),
{
    let ghost us = users.deep_view();
    let n = users.len();
    let mut rest = users;
    let mut res: Vec<Step> = Vec::new();
    while rest.len() > 0
        invariant
            n == us.len(),
            rest.len() <= n,
            rest.deep_view() == us.subrange(n - rest.len(), n as int),
            res.deep_view() == us.take(n - rest.len()).map_values(|u: UserView| add_user_step(u)),
        decreases rest.len(),
    {
        let ghost k = n - rest.len();
        let ghost old_rest = rest@;
        let ghost old_dv = rest.deep_view();
        let ghost old_res = res.deep_view();
        let user = rest.remove(0);
        assert(user == old_rest[0]);
        assert(user@ == old_dv[0]);
        assert(old_dv[0] == us[k]);
        assert forall|j: int| 0 <= j < rest.len() implies rest.deep_view()[j] == old_dv[j + 1] by {
            assert(rest@[j] == old_rest[j + 1]);
        }
        assert(rest.deep_view() =~= us.subrange(k + 1, n as int));
        let step = user.add();
        res.push(step);
        assert(res.deep_view() =~= old_res.push(add_user_step(us[k])));
        assert(us.take(k + 1) =~= us.take(k).push(us[k]));
        assert(res.deep_view() =~= us.take(k + 1).map_values(|u: UserView| add_user_step(u)));
    }
    assert(us.take(n as int) =~= us);
    res
}

} // verus!
