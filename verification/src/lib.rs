//! Planning of an Arch Linux installation from a declarative description:
//! partitions, packages, system configuration, users and bootloader.
//!
//! Every step of the installation is computed here as plain data
//! (commands, file lines, directories), together with the decisions
//! that depend on the state of the machine. Running the steps is left
//! to the caller.
pub mod bootloader;
pub mod error;
pub mod fs;
pub mod packages;
pub mod partitions;
pub mod system;
pub mod terminal;
pub mod users;

use terminal::{command, command_line, Step, StepView};
use vstd::prelude::*;

verus! {

/// The step that ends the installation: everything mounted under `/mnt` is unmounted.
pub open spec fn exit_step() -> StepView {
    StepView::Execute {
        command: command_line("umount"@, seq!["-R"@, "/mnt"@]),
        context: "Error umounting fs"@,
    }
}

/// The step that ends the installation by unmounting the new system.
pub fn exit() -> (res: Step)
    ensures
        res@ == exit_step(),
{
    let mut args: Vec<String> = Vec::new();
    args.push("-R".to_owned());
    args.push("/mnt".to_owned());
    assert(args.deep_view() =~= seq!["-R"@, "/mnt"@]);
    Step::Execute { command: command("umount", args), context: "Error umounting fs".to_owned() }
}

} // verus!
