use archinstall::bootloader::defaults::{multiboot, removable};
use archinstall::bootloader::{self, BootMode, BootOptions, Bootloaders};
use archinstall::error::Error;
use archinstall::fs::{self, Query, FS};
use archinstall::packages::{self, Packages};
use archinstall::partitions::worker::{mount_file_system, partitions_to_hashmap};
use archinstall::partitions::Partition;
use archinstall::system::worker::set_system_config;
use archinstall::system::{Localization, Network, System, Timezone};
use archinstall::terminal::pacman::Pacman;
use archinstall::terminal::{Command, Executer, Progress, PromtInput, Step};
use archinstall::users::defaults::terminal;
use archinstall::users::worker::{set_root, set_users};
use archinstall::users::{Root, User};

fn line(c: &Command) -> String {
    let mut s = c.program.clone();
    for a in &c.args {
        s.push(' ');
        s.push_str(a);
    }
    s
}

fn describe(step: &Step) -> String {
    match step {
        Step::Execute { command, context } => format!("run[{}]: {}", context, line(command)),
        Step::ExecuteWithInput { command, context, input } => {
            format!("run[{}] <{:?}: {}", context, input, line(command))
        }
        Step::Invoke { command } => format!("invoke: {}", line(command)),
        Step::Append { path, line, context } => format!("append[{}] {} << {}", context, path, line),
        Step::Capture { command, path, context } => {
            format!("capture[{}] {} >> {}", context, line(command), path)
        }
        Step::CreateDir { path } => format!("mkdir {}", path),
        Step::MountDevice { device, dir } => format!("mount {} on {}", device, dir),
        Step::EnableSwap { device } => format!("swap {}", device),
    }
}

fn describe_all(steps: &[Step]) -> Vec<String> {
    steps.iter().map(describe).collect()
}

fn part(name: &str, device: &str, fs: FS, format: bool) -> Partition {
    Partition::new(name.to_string(), device.to_string(), fs, format)
}

fn strings(items: &[&str]) -> Vec<String> {
    items.iter().map(|s| s.to_string()).collect()
}

#[test]
fn mount_points_follow_the_role() {
    assert_eq!(part("root", "/dev/sda2", FS::Ext4, true).mount_point(), "/mnt");
    assert_eq!(part("boot", "/dev/sda1", FS::Vfat, true).mount_point(), "/mnt/boot/efi");
    assert_eq!(part("home", "/dev/sda3", FS::Ext4, false).mount_point(), "/mnt/home");
}

#[test]
fn format_uses_lower_case_type_name() {
    let step = part("root", "/dev/sda2", FS::Ext4, true).format();
    assert_eq!(describe(&step), "invoke: mkfs -t ext4 /dev/sda2");
    assert_eq!(line(&fs::format("/dev/sdb1", FS::Fat32)), "mkfs -t fat32 /dev/sdb1");
    assert_eq!(FS::Vfat.to_string(), "Vfat");
    assert_eq!(FS::Swap.mkfs_type(), "swap");
}

#[test]
fn swap_partition_is_enabled_not_mounted() {
    let steps = part("swap", "/dev/sda4", FS::Swap, false).mount();
    assert_eq!(describe_all(&steps), vec!["swap /dev/sda4"]);
}

#[test]
fn other_partitions_get_a_mount_point() {
    let steps = part("home", "/dev/sda3", FS::Ext4, false).mount();
    assert_eq!(describe_all(&steps), vec!["mkdir /mnt/home", "mount /dev/sda3 on /mnt/home"]);
}

#[test]
fn root_is_formatted_and_mounted_first() {
    let steps = mount_file_system(vec![
        part("home", "/dev/sda3", FS::Ext4, false),
        part("root", "/dev/sda2", FS::Ext4, true),
    ]);
    assert_eq!(
        describe_all(&steps),
        vec![
            "invoke: mkfs -t ext4 /dev/sda2",
            "mkdir /mnt",
            "mount /dev/sda2 on /mnt",
            "mkdir /mnt/home",
            "mount /dev/sda3 on /mnt/home",
        ]
    );
}

#[test]
fn later_description_of_a_role_wins() {
    let table = partitions_to_hashmap(vec![
        part("root", "/dev/sda1", FS::Ext2, true),
        part("home", "/dev/sda3", FS::Ext4, false),
        part("root", "/dev/sda2", FS::Ext4, false),
    ]);
    assert_eq!(table.len(), 2);
    let root = table.iter().find(|p| p.partition == "root").unwrap();
    assert_eq!(root.device, "/dev/sda2");
    assert!(!root.format);
    let steps = mount_file_system(vec![
        part("root", "/dev/sda1", FS::Ext2, true),
        part("root", "/dev/sda2", FS::Ext4, false),
    ]);
    assert_eq!(describe_all(&steps), vec!["mkdir /mnt", "mount /dev/sda2 on /mnt"]);
}

#[test]
fn every_role_mounted_once() {
    let steps = mount_file_system(vec![
        part("boot", "/dev/sda1", FS::Vfat, true),
        part("swap", "/dev/sda4", FS::Swap, true),
        part("root", "/dev/sda2", FS::Ext4, true),
    ]);
    let text = describe_all(&steps);
    assert_eq!(text.len(), 8);
    assert_eq!(&text[0..3], &["invoke: mkfs -t ext4 /dev/sda2", "mkdir /mnt", "mount /dev/sda2 on /mnt"]);
    assert_eq!(text.iter().filter(|s| s.as_str() == "mount /dev/sda1 on /mnt/boot/efi").count(), 1);
    assert_eq!(text.iter().filter(|s| s.as_str() == "swap /dev/sda4").count(), 1);
    assert_eq!(text.iter().filter(|s| s.as_str() == "invoke: mkfs -t swap /dev/sda4").count(), 1);
    assert_eq!(text.iter().filter(|s| s.as_str() == "invoke: mkfs -t vfat /dev/sda1").count(), 1);
}

#[test]
fn mounted_device_is_remounted() {
    let step = Step::MountDevice { device: "/dev/sda2".to_string(), dir: "/mnt".to_string() };
    match step.query() {
        Some(Query::IsMounted { device }) => assert_eq!(device, "/dev/sda2"),
        _ => panic!("a mount depends on whether the device is mounted"),
    }
    let again: Vec<String> = step.resolve(true).iter().map(line).collect();
    assert_eq!(again, vec!["umount /dev/sda2", "mount /dev/sda2 /mnt"]);
    let first: Vec<String> = step.resolve(false).iter().map(line).collect();
    assert_eq!(first, vec!["mount /dev/sda2 /mnt"]);
}

#[test]
fn active_swap_is_left_alone() {
    let step = Step::EnableSwap { device: "/dev/sda4".to_string() };
    let q = step.query().unwrap();
    assert_eq!(line(&q.command()), "swapon -s");
    assert!(step.resolve(true).is_empty());
    let on: Vec<String> = step.resolve(false).iter().map(line).collect();
    assert_eq!(on, vec!["swapon /dev/sda4"]);
    let q = Step::MountDevice { device: "/dev/sdb".to_string(), dir: "/mnt".to_string() }.query().unwrap();
    assert_eq!(line(&q.command()), "findmnt /dev/sdb");
    assert!(Step::CreateDir { path: "/mnt".to_string() }.query().is_none());
}

#[test]
fn swap_listing_is_searched_for_the_device() {
    let listing = "Filename\tType\tSize\tUsed\tPriority\n/dev/sda4 partition 8388604 0 -2\n";
    assert!(fs::swap_is_active(listing, "/dev/sda4"));
    assert!(!fs::swap_is_active(listing, "/dev/sda5"));
    assert!(!fs::swap_is_active("", ""));
    assert!(fs::contains_text("abcabd", "abd"));
    assert!(!fs::contains_text("ab", "abc"));
}

#[test]
fn mounted_when_findmnt_prints() {
    assert!(fs::is_mounted(b"TARGET SOURCE\n/mnt /dev/sda2\n"));
    assert!(!fs::is_mounted(b""));
}

#[test]
fn fs_commands() {
    assert_eq!(line(&fs::mount("/dev/sda2", "/mnt")), "mount /dev/sda2 /mnt");
    assert_eq!(line(&fs::umount("/dev/sda2")), "umount /dev/sda2");
    assert_eq!(line(&fs::activate_swap("/dev/sda4")), "swapon /dev/sda4");
    let r: Vec<String> = fs::remount("/dev/sda2", "/mnt").iter().map(line).collect();
    assert_eq!(r, vec!["umount /dev/sda2", "mount /dev/sda2 /mnt"]);
    assert_eq!(describe(&fs::write_on_file("/mnt/etc/x", "y", "oops")), "append[oops] /mnt/etc/x << y");
    assert_eq!(describe(&fs::create_if_no_exists("/mnt/home")), "mkdir /mnt/home");
}

#[test]
fn groups_are_joined_with_commas() {
    assert_eq!(User::groups(strings(&["wheel", "audio", "video"])), "wheel,audio,video");
    assert_eq!(User::groups(strings(&["wheel"])), "wheel");
    assert_eq!(User::groups(Vec::new()), "");
    assert_eq!(User::groups(strings(&["a", ""])), "a,");
}

#[test]
fn terminals_select_shells() {
    assert_eq!(User::terminal("zsh"), "/bin/zsh");
    assert_eq!(User::terminal("sh"), "/bin/sh");
    assert_eq!(User::terminal("fish"), "/bin/bash");
    assert_eq!(User::terminal(&terminal()), "/bin/bash");
}

#[test]
fn users_are_added_in_order() {
    let alice = User::new(
        "alice".to_string(),
        Some(strings(&["wheel", "audio"])),
        "x".to_string(),
        "zsh".to_string(),
    );
    let bob = User::new("bob".to_string(), None, "y".to_string(), terminal());
    let steps = set_users(vec![alice, bob]);
    assert_eq!(
        describe_all(&steps),
        vec![
            "run[Error creating users]: arch-chroot /mnt useradd -m -g users -G wheel,audio -s /bin/zsh -p x alice",
            "run[Error creating users]: arch-chroot /mnt useradd -m -g users -s /bin/bash -p y bob",
        ]
    );
}

#[test]
fn root_password_is_typed_twice() {
    let steps = set_root(Root { passwd: "secret".to_string() });
    assert_eq!(
        describe_all(&steps),
        vec!["run[error setting root passwd] <\"secret\\nsecret\\n\": arch-chroot /mnt passwd"]
    );
}

#[test]
fn prompt_input_puts_each_answer_on_a_line() {
    assert_eq!(PromtInput::new(strings(&["a", "b"])).input(), "a\nb\n");
    assert_eq!(PromtInput::new(Vec::new()).input(), "");
}

#[test]
fn executer_outcome() {
    assert_eq!(Executer::outcome(true), Ok(()));
    assert_eq!(Executer::outcome(false), Err(Error));
}

#[test]
fn packages_are_pacstrapped() {
    let steps = packages::worker::install(Packages::new(strings(&["base", "linux"])));
    assert_eq!(
        describe_all(&steps),
        vec!["run[Error during installation of base packages]: pacstrap /mnt base linux"]
    );
    assert_eq!(
        describe(&Pacman::install(strings(&["vim"]))),
        "run[pacman error on install packages]: arch-chroot /mnt pacman -Syu vim"
    );
}

fn system(keymap: Option<&str>) -> System {
    System {
        timezone: Timezone { region: "Europe".to_string(), city: "Rome".to_string() },
        localization: Localization {
            locale: "en_US.UTF-8 UTF-8".to_string(),
            lang: "en_US.UTF-8".to_string(),
            keymap: keymap.map(|k| k.to_string()),
        },
        network: Network { hostname: "arch".to_string() },
    }
}

#[test]
fn system_configuration_in_order() {
    let steps = set_system_config(system(Some("it")));
    assert_eq!(
        describe_all(&steps),
        vec![
            "capture[error generating fstab] genfstab -U /mnt >> /mnt/etc/fstab",
            "run[error setting timezone]: arch-chroot /mnt ln -sf /usr/share/zoneinfo/Europe/Rome /etc/localtime",
            "run[error setting hwclock]: arch-chroot /mnt hwclock --systohc",
            "append[error setting locale] /mnt/etc/locale.gen << en_US.UTF-8 UTF-8",
            "run[error generating locale]: arch-chroot /mnt locale-gen",
            "append[error setting  lang] /mnt/etc/locale.conf << LANG=en_US.UTF-8",
            "append[error setting keymap] /mnt/etc/vconsole.conf << KEYMAP=it",
            "append[error setting hostname] /mnt/etc/hostname << arch",
            "append[error setting /etc/hosts] /mnt/etc/hosts << 127.0.0.1\tlocalhost",
            "append[error setting /etc/hosts] /mnt/etc/hosts << ::1\t\tlocalhost",
            "append[error setting /etc/hosts] /mnt/etc/hosts << 127.0.1.1\tarch",
            "run[error setting initramfs]: arch-chroot /mnt mkinitcpio -P",
        ]
    );
}

#[test]
fn empty_or_missing_keymap_is_not_written() {
    assert!(system(Some("")).localization.set_keymap().is_empty());
    assert!(system(None).localization.set_keymap().is_empty());
    assert_eq!(set_system_config(system(None)).len(), 11);
}

fn options(removable: bool, multiboot: bool) -> BootOptions {
    BootOptions { removable, multiboot, bootmode: BootMode::Uefi, bootloader: Bootloaders::Grub }
}

#[test]
fn grub_single_boot() {
    let steps = bootloader::install(options(removable(), multiboot()));
    assert_eq!(
        describe_all(&steps),
        vec![
            "run[pacman error on install packages]: arch-chroot /mnt pacman -Syu grub efibootmgr",
            "run[error installing grub]: arch-chroot /mnt grub-install --target=x86_64-efi --efi-directory=/boot/efi --bootloader-id=ArchLinux",
            "run[error generaing grub main config file]: arch-chroot /mnt grub-mkconfig -o /boot/grub/grub.cfg",
        ]
    );
}

#[test]
fn grub_multiboot_removable() {
    let steps = bootloader::install(options(true, true));
    let text = describe_all(&steps);
    assert_eq!(text.len(), 4);
    assert_eq!(text[0], "run[pacman error on install packages]: arch-chroot /mnt pacman -Syu grub efibootmgr os-prober");
    assert!(text[1].ends_with("--bootloader-id=ArchLinux --removable"));
    assert_eq!(text[2], text[3]);
    assert!(text[3].contains("grub-mkconfig"));
}

#[test]
fn exit_unmounts_everything() {
    assert_eq!(describe(&archinstall::exit()), "run[Error umounting fs]: umount -R /mnt");
}

#[test]
fn defaults() {
    assert!(!removable());
    assert!(!multiboot());
    assert_eq!(terminal(), "bash");
}

fn run_with(outcomes: &[bool]) -> (usize, Result<(), Error>) {
    let mut performed = 0;
    let mut progress = Progress::start(outcomes.len());
    loop {
        match progress {
            Progress::Next(i) => {
                performed += 1;
                let outcome = Executer::outcome(outcomes[i]);
                progress = Progress::advance(outcomes.len(), i, outcome);
            }
            Progress::Done(r) => return (performed, r),
        }
    }
}

#[test]
fn run_stops_at_first_failure() {
    assert_eq!(run_with(&[]), (0, Ok(())));
    assert_eq!(run_with(&[true, true, true]), (3, Ok(())));
    assert_eq!(run_with(&[true, false, true]), (2, Err(Error)));
    assert_eq!(run_with(&[false]), (1, Err(Error)));
}

#[test]
fn command_output_must_be_utf8() {
    assert_eq!(fs::output_text(b"/dev/sda4 partition\n"), Some("/dev/sda4 partition\n".to_string()));
    assert_eq!(fs::output_text(&[0xff, 0xfe]), None);
    assert_eq!(fs::output_text(b""), Some(String::new()));
}

#[test]
fn removable_only_adds_the_flag() {
    let plain = describe_all(&bootloader::install(options(false, false)));
    let removable = describe_all(&bootloader::install(options(true, false)));
    assert_eq!(plain.len(), removable.len());
    assert_eq!(removable[1], format!("{} --removable", plain[1]));
    assert_eq!(plain[0], removable[0]);
    assert_eq!(plain[2], removable[2]);
}

#[test]
fn non_query_steps_resolve_to_nothing() {
    assert!(Step::CreateDir { path: "/mnt".to_string() }.resolve(true).is_empty());
}

#[test]
fn uefi_removable_adds_only_the_flag() {
    let plain = describe(&archinstall::bootloader::grub::uefi(false));
    assert_eq!(plain, "run[error installing grub]: arch-chroot /mnt grub-install --target=x86_64-efi --efi-directory=/boot/efi --bootloader-id=ArchLinux");
    assert_eq!(describe(&archinstall::bootloader::grub::uefi(true)), format!("{} --removable", plain));
    assert_eq!(
        describe(&archinstall::bootloader::grub::cfg()),
        "run[error generaing grub main config file]: arch-chroot /mnt grub-mkconfig -o /boot/grub/grub.cfg"
    );
}
