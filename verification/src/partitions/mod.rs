//! Partitions of the target disk: where each is mounted and the steps that
//! format and mount it.
pub mod worker;

use crate::fs::{self, format_line, FS};
use crate::terminal::{extend_steps, Step, StepView};
use vstd::prelude::*;

verus! {

/// A partition of the target disk, as the installation describes it.
pub struct Partition {
    /// Its role: `root`, `boot`, `swap`, or the name of a directory under the new root.
    pub partition: String,
    /// The block device that holds it.
    pub device: String,
    /// The file system it is formatted with.
    pub fs: FS,
    /// Whether it is formatted before it is mounted.
    pub format: bool,
}

/// What a [`Partition`] stands for.
pub struct PartitionView {
    pub partition: Seq<char>,
    pub device: Seq<char>,
    pub fs: FS,
    pub format: bool,
}

impl View for Partition {
    type V = PartitionView;

    open spec fn view(&self) -> PartitionView {
        PartitionView {
            partition: self.partition@,
            device: self.device@,
            fs: self.fs,
            format: self.format,
        }
    }
}

impl DeepView for Partition {
    type V = PartitionView;

    open spec fn deep_view(&self) -> PartitionView {
        self@
    }
}

/// Where a partition with the given role is mounted: the root partition on
/// `/mnt`, the boot partition on `/mnt/boot/efi`, any other on `/mnt/<role>`.
pub open spec fn mount_point_of(name: Seq<char>) -> Seq<char> {
    if name == "root"@ {
        "/mnt"@
    } else if name == "boot"@ {
        "/mnt/boot/efi"@
    } else {
        "/mnt/"@ + name
    }
}

/// The step that formats a partition.
pub open spec fn format_step(p: PartitionView) -> StepView {
    StepView::Invoke { command: format_line(p.device, p.fs) }
}

/// The steps that mount a partition: a swap partition is enabled, any other
/// gets its mount point created and is mounted there.
pub open spec fn mount_steps(p: PartitionView) -> Seq<StepView> {
    if p.partition == "swap"@ {
        seq![StepView::EnableSwap { device: p.device }]
    } else {
        seq![
            StepView::CreateDir { path: mount_point_of(p.partition) },
            StepView::MountDevice { device: p.device, dir: mount_point_of(p.partition) },
        ]
    }
}

/// The steps for one partition: formatting when it asks for it, then mounting.
pub open spec fn partition_steps(p: PartitionView) -> Seq<StepView> {
    if p.format {
        seq![format_step(p)] + mount_steps(p)
    } else {
        mount_steps(p)
    }
}

impl Partition {
    /// Describes a partition.
    pub fn new(partition: String, device: String, fs: FS, format: bool) -> (res: Partition)
        ensures
            res@ == (PartitionView { partition: partition@, device: device@, fs, format }),
    {
        Partition { partition, device, fs, format }
    }

    /// The step that formats the partition with its file system; like every
    /// [`Step::Invoke`], `mkfs` runs with its standard input a pipe.
    pub fn format(&self) -> (res: Step)
        ensures
            res@ == format_step(self@),
    {
        Step::Invoke { command: fs::format(self.device.as_str(), self.fs) }
    }

    /// The steps that mount the partition.
    pub fn mount(&self) -> (res: Vec<Step>)
        ensures
            res.deep_view() == mount_steps(self@),
    {
        let mut res: Vec<Step> = Vec::new();
        if self.partition == "swap".to_owned() {
            res.push(Step::EnableSwap { device: self.device.clone() });
        } else {
            let path = self.mount_point();
            res.push(fs::create_if_no_exists(path.as_str()));
            res.push(Step::MountDevice { device: self.device.clone(), dir: path });
        }
        assert(res.deep_view() =~= mount_steps(self@));
        res
    }

    /// Where the partition is mounted.
    pub fn mount_point(&self) -> (res: String)
        ensures
            res@ == mount_point_of(self@.partition),
    {
        if self.partition == "root".to_owned() {
            "/mnt".to_owned()
        } else if self.partition == "boot".to_owned() {
            "/mnt/boot/efi".to_owned()
        } else {
            "/mnt/".to_owned().concat(self.partition.as_str())
        }
    }

    /// The steps for the partition: formatting when it asks for it, then mounting.
    pub fn format_and_mount(&self) -> (res: Vec<Step>)
        ensures
            res.deep_view() == partition_steps(self@),
    {
        let mut res: Vec<Step> = Vec::new();
        if self.format {
            res.push(self.format());
        }
        extend_steps(&mut res, self.mount());
        assert(res.deep_view() =~= partition_steps(self@));
        res
    }
}


/// Every partition is mounted inside the new system: its mount point begins
/// with `/mnt`.
pub proof fn law_mount_point_inside_new_root(name: Seq<char>)
    ensures
        "/mnt"@.is_prefix_of(mount_point_of(name)),
{
    reveal_strlit("/mnt");
    reveal_strlit("/mnt/");
    reveal_strlit("/mnt/boot/efi");
    assert("/mnt"@ =~= mount_point_of(name).subrange(0, 4));
}

} // verus!
