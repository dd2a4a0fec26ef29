use super::{chroot, chroot_line, Step, StepView};
use vstd::prelude::*;

verus! {

/// Installs packages inside the new system with pacman.
pub struct Pacman;

/// The step that installs `packages` inside the new system.
pub open spec fn pacman_install_step(packages: Seq<Seq<char>>) -> StepView {
    StepView::Execute {
        command: chroot_line(seq!["pacman"@, "-Syu"@] + packages),
        context: "pacman error on install packages"@,
    }
}

impl Pacman {
    /// Upgrades the new system and installs `packages` in it, in the order given.
    pub fn install(packages: Vec<String>) -> (res: Step)
        ensures
            res@ == pacman_install_step(packages.deep_view()),
    {
        let mut args: Vec<String> = Vec::new();
        args.push("pacman".to_owned());
        args.push("-Syu".to_owned());
        let mut rest = packages;
        let ghost pkgs = rest.deep_view();
        args.append(&mut rest);
        assert(args.deep_view() =~= seq!["pacman"@, "-Syu"@] + pkgs);
        Step::Execute {
            command: chroot(args),
            context: "pacman error on install packages".to_owned(),
        }
    }
}

} // verus!
