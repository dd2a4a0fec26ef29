//! Configuring the new system once its file system is mounted and its
//! packages are installed.
use super::{config_steps, System, SystemView};
use crate::terminal::{chroot, chroot_line, command, command_line, extend_steps, Step, StepView};
use vstd::prelude::*;

verus! {

/// The step that writes the file system table of the new system from what
/// `genfstab -U /mnt` prints.
pub open spec fn fstab_step() -> StepView {
    StepView::Capture {
        command: command_line("genfstab"@, seq!["-U"@, "/mnt"@]),
        path: "/mnt/etc/fstab"@,
        context: "error generating fstab"@,
    }
}

/// The step that builds the initial ram disks.
pub open spec fn initramfs_step() -> StepView {
    StepView::Execute {
        command: chroot_line(seq!["mkinitcpio"@, "-P"@]),
        context: "error setting initramfs"@,
    }
}

/// The steps that configure the new system.
pub open spec fn system_config_steps(sys: SystemView) -> Seq<StepView> {
    seq![fstab_step()] + config_steps(sys) + seq![initramfs_step()]
}

/// The step that writes the file system table.
pub fn gen_fstab() -> (res: Step)
    ensures
        res@ == fstab_step(),
{
    let mut args: Vec<String> = Vec::new();
    args.push("-U".to_owned());
    args.push("/mnt".to_owned());
    assert(args.deep_view() =~= seq!["-U"@, "/mnt"@]);
    Step::Capture {
        command: command("genfstab", args),
        path: "/mnt/etc/fstab".to_owned(),
        context: "error generating fstab".to_owned(),
    }
}

/// The step that builds the initial ram disks.
pub fn set_initramfs() -> (res: Step)
    ensures
        res@ == initramfs_step(),
{
    let mut args: Vec<String> = Vec::new();
    args.push("mkinitcpio".to_owned());
    args.push("-P".to_owned());
    assert(args.deep_view() =~= seq!["mkinitcpio"@, "-P"@]);
    Step::Execute { command: chroot(args), context: "error setting initramfs".to_owned() }
}

/// The steps that configure the new system: the file system table first,
/// then the time zone, localization and network, and the initial ram disks last.
pub fn set_system_config(system: System) -> (res: Vec<Step>)
    ensures
        res.deep_view() == system_config_steps(system@),
{
    let ghost sys = system@;
    let mut res: Vec<Step> = Vec::new();
    res.push(gen_fstab());
    assert(res.deep_view() =~= seq![fstab_step()]);
    extend_steps(&mut res, system.set_config());
    let ghost before = res.deep_view();
    res.push(set_initramfs());
    assert(res.deep_view() =~= before.push(initramfs_step()));
    assert(res.deep_view() =~= system_config_steps(sys));
    res
}

} // verus!
