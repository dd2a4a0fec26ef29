//! GRUB as the boot loader.
use super::{BootMode, BootOptions};
use crate::terminal::pacman::{pacman_install_step, Pacman};
use crate::terminal::{chroot, chroot_line, Step, StepView};
use vstd::prelude::*;

verus! {

/// The packages GRUB needs: `os-prober` too when other systems are looked for.
pub open spec fn grub_packages(multiboot: bool) -> Seq<Seq<char>> {
    if multiboot {
        seq!["grub"@, "efibootmgr"@, "os-prober"@]
    } else {
        seq!["grub"@, "efibootmgr"@]
    }
}

/// The arguments of `grub-install` for a UEFI machine.
pub open spec fn grub_install_args(removable: bool) -> Seq<Seq<char>> {
    let args = seq![
        "grub-install"@,
        "--target=x86_64-efi"@,
        "--efi-directory=/boot/efi"@,
        "--bootloader-id=ArchLinux"@,
    ];
    if removable {
        args.push("--removable"@)
    } else {
        args
    }
}

/// The step that installs GRUB on a UEFI machine.
pub open spec fn uefi_step(removable: bool) -> StepView {
    StepView::Execute {
        command: chroot_line(grub_install_args(removable)),
        context: "error installing grub"@,
    }
}

/// The step that writes the main GRUB configuration file.
pub open spec fn cfg_step() -> StepView {
    StepView::Execute {
        command: chroot_line(seq!["grub-mkconfig"@, "-o"@, "/boot/grub/grub.cfg"@]),
        context: "error generaing grub main config file"@,
    }
}

/// The steps that install GRUB on a UEFI machine: its packages, the boot
/// loader itself, then its configuration, written twice when other systems
/// are looked for so that they are found.
pub open spec fn grub_steps(removable: bool, multiboot: bool) -> Seq<StepView> {
    let head = seq![pacman_install_step(grub_packages(multiboot)), uefi_step(removable)];
    if multiboot {
        head + seq![cfg_step(), cfg_step()]
    } else {
        head + seq![cfg_step()]
    }
}

/// The steps that install GRUB. Only booting through UEFI is supported.
pub fn install(options: BootOptions) -> (res: Vec<Step>)
    requires
        options.bootmode == BootMode::Uefi,
    ensures
        res.deep_view() == grub_steps(options.removable, options.multiboot),
{
    let mut packages: Vec<String> = Vec::new();
    packages.push("grub".to_owned());
    packages.push("efibootmgr".to_owned());
    if options.multiboot {
        packages.push("os-prober".to_owned());
    }
    assert(packages.deep_view() =~= grub_packages(options.multiboot));
    let mut res: Vec<Step> = Vec::new();
    res.push(Pacman::install(packages));
    res.push(uefi(options.removable));
    if options.multiboot {
        res.push(cfg());
    }
    res.push(cfg());
    assert(res.deep_view() =~= grub_steps(options.removable, options.multiboot));
    res
}

/// The step that writes the main GRUB configuration file.
pub fn cfg() -> (res: Step)
    ensures
        res@ == cfg_step(),
{
    let mut args: Vec<String> = Vec::new();
    args.push("grub-mkconfig".to_owned());
    args.push("-o".to_owned());
    args.push("/boot/grub/grub.cfg".to_owned());
    assert(args.deep_view() =~= seq!["grub-mkconfig"@, "-o"@, "/boot/grub/grub.cfg"@]);
    Step::Execute {
        command: chroot(args),
        context: "error generaing grub main config file".to_owned(),
    }
}

/// The step that installs GRUB for UEFI, at the removable-media path when asked.
pub fn uefi(removable: bool) -> (res: Step)
    ensures
        res@ == uefi_step(removable),
{
    let mut args: Vec<String> = Vec::new();
    args.push("grub-install".to_owned());
    args.push("--target=x86_64-efi".to_owned());
    args.push("--efi-directory=/boot/efi".to_owned());
    args.push("--bootloader-id=ArchLinux".to_owned());
    if removable {
        args.push("--removable".to_owned());
    }
    assert(args.deep_view() =~= grub_install_args(removable));
    Step::Execute { command: chroot(args), context: "error installing grub".to_owned() }
}


/// Installing at the removable-media path adds `--removable` to the
/// arguments of `grub-install` and changes nothing else: one command either
/// way, run through `arch-chroot /mnt` with the same failure message.
pub proof fn law_removable_adds_flag()
    ensures
        grub_install_args(true) == grub_install_args(false).push("--removable"@),
        uefi_step(true) == (StepView::Execute {
            command: chroot_line(grub_install_args(false).push("--removable"@)),
            context: "error installing grub"@,
        }),
        uefi_step(false) == (StepView::Execute {
            command: chroot_line(grub_install_args(false)),
            context: "error installing grub"@,
        }),
{
}

/// `os-prober` is installed exactly when other systems are looked for.
pub proof fn law_os_prober_iff_multiboot(multiboot: bool)
    ensures
        grub_packages(multiboot).contains("os-prober"@) <==> multiboot,
{
    reveal_strlit("os-prober");
    reveal_strlit("grub");
    reveal_strlit("efibootmgr");
    if multiboot {
        assert(grub_packages(multiboot)[2] == "os-prober"@);
    } else {
        assert("grub"@ != "os-prober"@) by {
            assert("grub"@.len() != "os-prober"@.len());
        }
        assert("efibootmgr"@ != "os-prober"@) by {
            assert("efibootmgr"@[0] != "os-prober"@[0]);
        }
    }
}

/// After the packages and the boot loader, the configuration is written:
/// twice when other systems are looked for, once otherwise.
pub proof fn law_config_written_twice_iff_multiboot(removable: bool, multiboot: bool)
    ensures
        grub_steps(removable, multiboot).subrange(0, 2) == seq![
            pacman_install_step(grub_packages(multiboot)),
            uefi_step(removable),
        ],
        grub_steps(removable, multiboot).subrange(2, grub_steps(removable, multiboot).len() as int)
            == (if multiboot {
            seq![cfg_step(), cfg_step()]
        } else {
            seq![cfg_step()]
        }),
{
    let steps = grub_steps(removable, multiboot);
    assert(steps.subrange(0, 2) =~= seq![
        pacman_install_step(grub_packages(multiboot)),
        uefi_step(removable),
    ]);
    if multiboot {
        assert(steps.subrange(2, steps.len() as int) =~= seq![cfg_step(), cfg_step()]);
    } else {
        assert(steps.subrange(2, steps.len() as int) =~= seq![cfg_step()]);
    }
}

} // verus!
