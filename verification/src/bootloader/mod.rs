//! The boot loader of the new system.
pub mod defaults;
pub mod grub;

use crate::terminal::{Step, StepView};
use vstd::prelude::*;

verus! {

/// How the boot loader is to be installed.
pub struct BootOptions {
    /// Install the boot loader at the removable-media path (see [`defaults::removable`]).
    pub removable: bool,
    /// Look for other operating systems to boot (see [`defaults::multiboot`]).
    pub multiboot: bool,
    pub bootmode: BootMode,
    pub bootloader: Bootloaders,
}

/// The firmware interface the machine boots with.
#[derive(Clone, Copy, Debug, PartialEq, Eq, Structural)]
pub enum BootMode {
    Uefi,
    Bios,
}

/// The boot loaders that can be installed.
#[derive(Clone, Copy, Debug, PartialEq, Eq, Structural)]
pub enum Bootloaders {
    Grub,
}

/// The steps that install the chosen boot loader.
pub open spec fn boot_steps(options: BootOptions) -> Seq<StepView> {
    match options.bootloader {
        Bootloaders::Grub => grub::grub_steps(options.removable, options.multiboot),
    }
}

/// The steps that install the chosen boot loader. Only booting through UEFI
/// is supported.
pub fn install(options: BootOptions) -> (res: Vec<Step>)
    requires
        options.bootmode == BootMode::Uefi,
    ensures
        res.deep_view() == boot_steps(options),
{
    match options.bootloader {
        Bootloaders::Grub => grub::install(options),
    }
}

/// Installing the boot loader when GRUB is chosen plans exactly what
/// installing GRUB plans, for every choice of the other options.
pub proof fn law_install_is_grub_install(options: BootOptions)
    requires
        options.bootloader == Bootloaders::Grub,
    ensures
        boot_steps(options) == grub::grub_steps(options.removable, options.multiboot),
{
}

} // verus!
