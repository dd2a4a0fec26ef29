//! The packages installed into the new system.
pub mod worker;

use crate::terminal::{command, command_line, Step, StepView};
use vstd::prelude::*;

verus! {

/// The packages to install into the new system.
pub struct Packages {
    pub packages: Vec<String>,
}

/// The step that installs packages into the new system with `pacstrap`.
pub open spec fn pacstrap_step(packages: Seq<Seq<char>>) -> StepView {
    StepView::Execute {
        command: command_line("pacstrap"@, seq!["/mnt"@] + packages),
        context: "Error during installation of base packages"@,
    }
}

impl Packages {
    /// Lists the packages to install.
    pub fn new(packages: Vec<String>) -> (res: Packages)
        ensures
            res.packages@ == packages@,
    {
        Packages { packages }
    }

    /// The step that installs the packages, in the order given, into the new system.
    pub fn install(&self) -> (res: Step)
        ensures
            res@ == pacstrap_step(self.packages.deep_view()),
    {
        let mut args: Vec<String> = Vec::new();
        args.push("/mnt".to_owned());
        let n = self.packages.len();
        for i in 0..n
            invariant
                n == self.packages.len(),
                args.deep_view() == seq!["/mnt"@] + self.packages.deep_view().take(i as int),
        {
            let ghost before = args.deep_view();
            let item = self.packages[i].clone();
            assert(item@ == self.packages.deep_view()[i as int]);
            args.push(item);
            assert(args.deep_view() =~= before.push(item@));
            assert(self.packages.deep_view().take(i + 1) =~= self.packages.deep_view().take(i as int).push(item@));
            assert(args.deep_view() =~= seq!["/mnt"@] + self.packages.deep_view().take(i + 1));
        }
        assert(self.packages.deep_view().take(n as int) =~= self.packages.deep_view());
        Step::Execute {
            command: command("pacstrap", args),
            context: "Error during installation of base packages".to_owned(),
        }
    }
}

} // verus!
