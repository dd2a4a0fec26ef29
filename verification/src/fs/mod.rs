//! File systems: the commands that format, mount and enable them, and the
//! decisions taken from what the machine reports about them.
use crate::terminal::{command, command_line, Command, CommandView, Step, StepView};
use vstd::prelude::*;
use vstd::utf8::{encode_utf8, valid_utf8};

verus! {

/// A file system a partition can be formatted with.
#[derive(Clone, Copy, Debug, PartialEq, Eq, Structural)]
pub enum FS {
    Ext2,
    Ext3,
    Ext4,
    Vfat,
    Swap,
    Fat32,
}

/// The name of a file system as it is displayed.
pub open spec fn fs_display_name(fs: FS) -> Seq<char> {
    match fs {
        FS::Ext2 => "Ext2"@,
        FS::Ext3 => "Ext3"@,
        FS::Ext4 => "Ext4"@,
        FS::Vfat => "Vfat"@,
        FS::Swap => "Swap"@,
        FS::Fat32 => "Fat32"@,
    }
}

/// A character with ASCII upper case letters turned to lower case.
pub open spec fn ascii_lower_char(c: char) -> char {
    if 'A' <= c <= 'Z' {
        ((c as int) + 32) as char
    } else {
        c
    }
}

/// A text with its ASCII upper case letters turned to lower case.
pub open spec fn ascii_lower(s: Seq<char>) -> Seq<char> {
    s.map_values(|c: char| ascii_lower_char(c))
}

/// The type name that `mkfs -t` is given for a file system: its displayed
/// name in lower case.
pub open spec fn fs_type_name(fs: FS) -> Seq<char> {
    ascii_lower(fs_display_name(fs))
}

impl FS {
    /// The displayed name of the file system, such as `Ext4`.
    pub fn to_string(&self) -> (res: String)
        ensures
            res@ == fs_display_name(*self),
    {
        match self {
            FS::Ext2 => "Ext2".to_owned(),
            FS::Ext3 => "Ext3".to_owned(),
            FS::Ext4 => "Ext4".to_owned(),
            FS::Vfat => "Vfat".to_owned(),
            FS::Swap => "Swap".to_owned(),
            FS::Fat32 => "Fat32".to_owned(),
        }
    }

    /// The type name given to `mkfs -t`, such as `ext4`.
    pub fn mkfs_type(&self) -> (res: String)
        ensures
            res@ == fs_type_name(*self),
    {
        let res = match self {
            FS::Ext2 => "ext2".to_owned(),
            FS::Ext3 => "ext3".to_owned(),
            FS::Ext4 => "ext4".to_owned(),
            FS::Vfat => "vfat".to_owned(),
            FS::Swap => "swap".to_owned(),
            FS::Fat32 => "fat32".to_owned(),
        };
        proof {
            match self {
                FS::Ext2 => {
                    reveal_strlit("Ext2");
                    reveal_strlit("ext2");
                },
                FS::Ext3 => {
                    reveal_strlit("Ext3");
                    reveal_strlit("ext3");
                },
                FS::Ext4 => {
                    reveal_strlit("Ext4");
                    reveal_strlit("ext4");
                },
                FS::Vfat => {
                    reveal_strlit("Vfat");
                    reveal_strlit("vfat");
                },
                FS::Swap => {
                    reveal_strlit("Swap");
                    reveal_strlit("swap");
                },
                FS::Fat32 => {
                    reveal_strlit("Fat32");
                    reveal_strlit("fat32");
                },
            }
            assert(res@ =~= fs_type_name(*self));
        }
        res
    }
}


/// The position of a file system in the list of supported ones.
spec fn fs_index(fs: FS) -> int {
    match fs {
        FS::Ext2 => 0,
        FS::Ext3 => 1,
        FS::Ext4 => 2,
        FS::Vfat => 3,
        FS::Swap => 4,
        FS::Fat32 => 5,
    }
}

/// Tells the supported file systems apart by their `mkfs -t` type name.
spec fn index_of_type_name(name: Seq<char>) -> int {
    if name.len() == 5 {
        5
    } else if name[0] == 'v' {
        3
    } else if name[0] == 's' {
        4
    } else if name[3] == '2' {
        0
    } else if name[3] == '3' {
        1
    } else {
        2
    }
}

proof fn lemma_type_name_tells_fs(fs: FS)
    ensures
        index_of_type_name(fs_type_name(fs)) == fs_index(fs),
        fs_type_name(fs).len() > 0,
        forall|k: int| 0 <= k < fs_type_name(fs).len() ==> !('A' <= #[trigger] fs_type_name(fs)[k] <= 'Z'),
{
    reveal_strlit("Ext2");
    reveal_strlit("Ext3");
    reveal_strlit("Ext4");
    reveal_strlit("Vfat");
    reveal_strlit("Swap");
    reveal_strlit("Fat32");
    match fs {
        FS::Ext2 => assert(fs_type_name(fs) =~= seq!['e', 'x', 't', '2']),
        FS::Ext3 => assert(fs_type_name(fs) =~= seq!['e', 'x', 't', '3']),
        FS::Ext4 => assert(fs_type_name(fs) =~= seq!['e', 'x', 't', '4']),
        FS::Vfat => assert(fs_type_name(fs) =~= seq!['v', 'f', 'a', 't']),
        FS::Swap => assert(fs_type_name(fs) =~= seq!['s', 'w', 'a', 'p']),
        FS::Fat32 => assert(fs_type_name(fs) =~= seq!['f', 'a', 't', '3', '2']),
    }
}

/// Different file systems are formatted with different `mkfs` types, and
/// each type name is the file system's displayed name in lower case, with no
/// upper case letter left.
pub proof fn law_mkfs_types_distinct(a: FS, b: FS)
    ensures
        a != b ==> fs_type_name(a) != fs_type_name(b),
        fs_type_name(a) == ascii_lower(fs_display_name(a)),
        forall|k: int| 0 <= k < fs_type_name(a).len() ==> !('A' <= #[trigger] fs_type_name(a)[k] <= 'Z'),
{
    lemma_type_name_tells_fs(a);
    lemma_type_name_tells_fs(b);
}

/// `mount <device> <dir>`.
pub open spec fn mount_line(device: Seq<char>, dir: Seq<char>) -> CommandView {
    command_line("mount"@, seq![device, dir])
}

/// `umount <device>`.
pub open spec fn umount_line(device: Seq<char>) -> CommandView {
    command_line("umount"@, seq![device])
}

/// `mkfs -t <type> <device>`.
pub open spec fn format_line(device: Seq<char>, fs: FS) -> CommandView {
    command_line("mkfs"@, seq!["-t"@, fs_type_name(fs), device])
}

/// `swapon <device>`.
pub open spec fn swapon_line(device: Seq<char>) -> CommandView {
    command_line("swapon"@, seq![device])
}

/// The commands that mount `device` on `dir` when it is mounted somewhere
/// already: unmount it, then mount it.
pub open spec fn remount_lines(device: Seq<char>, dir: Seq<char>) -> Seq<CommandView> {
    seq![umount_line(device), mount_line(device, dir)]
}

/// Mounts `device` on `dir`.
pub fn mount(device: &str, dir: &str) -> (res: Command)
    ensures
        res@ == mount_line(device@, dir@),
{
    let mut args: Vec<String> = Vec::new();
    args.push(device.to_owned());
    args.push(dir.to_owned());
    assert(args.deep_view() =~= seq![device@, dir@]);
    command("mount", args)
}

/// Unmounts `device`.
pub fn umount(device: &str) -> (res: Command)
    ensures
        res@ == umount_line(device@),
{
    let mut args: Vec<String> = Vec::new();
    args.push(device.to_owned());
    assert(args.deep_view() =~= seq![device@]);
    command("umount", args)
}

/// Mounts `device` on `dir` again: unmounts it, then mounts it.
pub fn remount(device: &str, dir: &str) -> (res: Vec<Command>)
    ensures
        res.deep_view() == remount_lines(device@, dir@),
{
    let mut res: Vec<Command> = Vec::new();
    res.push(umount(device));
    res.push(mount(device, dir));
    assert(res.deep_view() =~= remount_lines(device@, dir@));
    res
}

/// Formats `device` with the file system `fs`.
pub fn format(device: &str, fs: FS) -> (res: Command)
    ensures
        res@ == format_line(device@, fs),
{
    let mut args: Vec<String> = Vec::new();
    args.push("-t".to_owned());
    args.push(fs.mkfs_type());
    args.push(device.to_owned());
    assert(args.deep_view() =~= seq!["-t"@, fs_type_name(fs), device@]);
    command("mkfs", args)
}

/// Enables the swap space on `device`.
pub fn activate_swap(device: &str) -> (res: Command)
    ensures
        res@ == swapon_line(device@),
{
    let mut args: Vec<String> = Vec::new();
    args.push(device.to_owned());
    assert(args.deep_view() =~= seq![device@]);
    command("swapon", args)
}

/// Whether a device is mounted, from the standard output of `findmnt <device>`
/// that exited successfully: it is mounted when `findmnt` printed anything.
pub fn is_mounted(findmnt_output: &[u8]) -> (res: bool)
    ensures
        res == (findmnt_output@.len() > 0),
{
    findmnt_output.len() > 0
}

/// Whether `needle` occurs in `text` starting at position `at`.
pub open spec fn occurs_at(text: Seq<char>, needle: Seq<char>, at: int) -> bool {
    &&& 0 <= at
    &&& at + needle.len() <= text.len()
    &&& text.subrange(at, at + needle.len()) == needle
}

/// Whether `needle` occurs anywhere in `text`.
pub open spec fn occurs_in(text: Seq<char>, needle: Seq<char>) -> bool {
    exists|at: int| occurs_at(text, needle, at)
}

/// Whether `needle` occurs in `text` starting at position `at`.
fn matches_at(text: &str, text_len: usize, needle: &str, needle_len: usize, at: usize) -> (res: bool)
    requires
        text_len == text@.len(),
        needle_len == needle@.len(),
        at + needle_len <= text_len,
    ensures
        res == occurs_at(text@, needle@, at as int),
{
    let mut k: usize = 0;
    while k < needle_len
        invariant
            text_len == text@.len(),
            needle_len == needle@.len(),
            at + needle_len <= text_len,
            k <= needle_len,
            forall|j: int| 0 <= j < k ==> text@[at + j] == needle@[j],
        decreases needle_len - k,
    {
        if text.get_char(at + k) != needle.get_char(k) {
            assert(text@.subrange(at as int, at + needle_len)[k as int] != needle@[k as int]);
            return false;
        }
        k = k + 1;
    }
    assert(text@.subrange(at as int, at + needle_len) =~= needle@);
    true
}

/// Whether `needle` occurs anywhere in `text`.
pub fn contains_text(text: &str, needle: &str) -> (res: bool)
    ensures
        res == occurs_in(text@, needle@),
{
    let text_len = text.unicode_len();
    let needle_len = needle.unicode_len();
    if needle_len > text_len {
        assert forall|at: int| !occurs_at(text@, needle@, at) by {}
        return false;
    }
    let last = text_len - needle_len;
    let mut at: usize = 0;
    loop
        invariant
            text_len == text@.len(),
            needle_len == needle@.len(),
            last == text_len - needle_len,
            at <= last,
            forall|j: int| 0 <= j < at ==> !occurs_at(text@, needle@, j),
        decreases last - at,
    {
        if matches_at(text, text_len, needle, needle_len, at) {
            return true;
        }
        if at == last {
            assert forall|j: int| !occurs_at(text@, needle@, j) by {
                if 0 <= j < at {
                }
            }
            return false;
        }
        at = at + 1;
    }
}

/// Whether the swap space on `device` is active, from the listing that a
/// successful `swapon -s` printed: it is when the listing is not empty and
/// names the device.
pub fn swap_is_active(swap_listing: &str, device: &str) -> (res: bool)
    ensures
        res == (swap_listing@.len() > 0 && occurs_in(swap_listing@, device@)),
{
    if swap_listing.unicode_len() == 0 {
        false
    } else {
        contains_text(swap_listing, device)
    }
}

/// Reads bytes as UTF-8 text with `std::str::from_utf8`, whose documentation
/// promises an error exactly when the bytes are not valid UTF-8, and otherwise
/// the text those very bytes encode. That is all this contract claims.
#[verifier::external_body]
fn str_from_utf8(bytes: &[u8]) -> (res: Option<&str>)
    ensures
        res is Some <==> valid_utf8(bytes@),
        res matches Some(text) ==> encode_utf8(text@) == bytes@,
{
    std::str::from_utf8(bytes).ok()
}

/// The text a command printed, when its output is valid UTF-8; none otherwise.
pub fn output_text(output: &[u8]) -> (res: Option<String>)
    ensures
        res is Some <==> valid_utf8(output@),
        res matches Some(text) ==> encode_utf8(text@) == output@,
{
    match str_from_utf8(output) {
        Some(text) => Some(text.to_owned()),
        None => None,
    }
}

/// Appends `line`, followed by a newline, to the file at `path`; `context`
/// names the step when the file cannot be written.
pub fn write_on_file(path: &str, line: &str, context: &str) -> (res: Step)
    ensures
        res@ == (StepView::Append { path: path@, line: line@, context: context@ }),
{
    Step::Append { path: path.to_owned(), line: line.to_owned(), context: context.to_owned() }
}

/// Creates the directory `path`, with its parents, unless it exists.
pub fn create_if_no_exists(path: &str) -> (res: Step)
    ensures
        res@ == (StepView::CreateDir { path: path@ }),
{
    Step::CreateDir { path: path.to_owned() }
}


/// A question about the machine that an installation step depends on.
pub enum Query {
    /// Is `device` mounted? Answered by [`is_mounted`] from the output of `findmnt <device>`.
    IsMounted { device: String },
    /// Is the swap space on `device` active? Answered by [`swap_is_active`]
    /// from the output of `swapon -s`.
    SwapIsActive { device: String },
}

/// What a [`Query`] stands for.
pub enum QueryView {
    IsMounted { device: Seq<char> },
    SwapIsActive { device: Seq<char> },
}

impl View for Query {
    type V = QueryView;

    open spec fn view(&self) -> QueryView {
        match self {
            Query::IsMounted { device } => QueryView::IsMounted { device: device@ },
            Query::SwapIsActive { device } => QueryView::SwapIsActive { device: device@ },
        }
    }
}

impl DeepView for Query {
    type V = QueryView;

    open spec fn deep_view(&self) -> QueryView {
        self@
    }
}

/// The command whose output answers a query.
pub open spec fn query_line(query: QueryView) -> CommandView {
    match query {
        QueryView::IsMounted { device } => command_line("findmnt"@, seq![device]),
        QueryView::SwapIsActive { device } => command_line("swapon"@, seq!["-s"@]),
    }
}

/// The question a step depends on, if any.
pub open spec fn step_query(step: StepView) -> Option<QueryView> {
    match step {
        StepView::MountDevice { device, dir } => Some(QueryView::IsMounted { device }),
        StepView::EnableSwap { device } => Some(QueryView::SwapIsActive { device }),
        _ => None,
    }
}

/// The commands a step that depends on a question comes to, given the answer.
pub open spec fn resolved_lines(step: StepView, answer: bool) -> Seq<CommandView> {
    match step {
        StepView::MountDevice { device, dir } => if answer {
            remount_lines(device, dir)
        } else {
            seq![mount_line(device, dir)]
        },
        StepView::EnableSwap { device } => if answer {
            Seq::empty()
        } else {
            seq![swapon_line(device)]
        },
        _ => Seq::empty(),
    }
}

impl Query {
    /// The command whose output answers the query.
    pub fn command(&self) -> (res: Command)
        ensures
            res@ == query_line(self@),
    {
        let mut args: Vec<String> = Vec::new();
        match self {
            Query::IsMounted { device } => {
                args.push(device.clone());
                assert(args.deep_view() =~= seq![device@]);
                command("findmnt", args)
            },
            Query::SwapIsActive { device } => {
                args.push("-s".to_owned());
                assert(args.deep_view() =~= seq!["-s"@]);
                command("swapon", args)
            },
        }
    }
}

impl Step {
    /// The question this step depends on: whether the device is mounted
    /// before mounting it, whether the swap space is active before enabling
    /// it; no other step depends on one.
    pub fn query(&self) -> (res: Option<Query>)
        ensures
            res.deep_view() == step_query(self@),
    {
        match self {
            Step::MountDevice { device, dir } => Some(Query::IsMounted { device: device.clone() }),
            Step::EnableSwap { device } => Some(Query::SwapIsActive { device: device.clone() }),
            _ => None,
        }
    }

    /// The commands a step comes to once its question is answered: a device
    /// that is mounted already is unmounted and mounted again, one that is not
    /// is mounted; an active swap space is left alone, another is enabled.
    /// A step that depends on no question comes to no command here.
    pub fn resolve(&self, answer: bool) -> (res: Vec<Command>)
        ensures
            res.deep_view() == resolved_lines(self@, answer),
    {
        match self {
            Step::MountDevice { device, dir } => {
                if answer {
                    remount(device.as_str(), dir.as_str())
                } else {
                    let mut res: Vec<Command> = Vec::new();
                    res.push(mount(device.as_str(), dir.as_str()));
                    assert(res.deep_view() =~= resolved_lines(self@, answer));
                    res
                }
            },
            Step::EnableSwap { device } => {
                let mut res: Vec<Command> = Vec::new();
                if !answer {
                    res.push(activate_swap(device.as_str()));
                }
                assert(res.deep_view() =~= resolved_lines(self@, answer));
                res
            },
            _ => Vec::new(),
        }
    }
}


/// The question a mount or swap step depends on is about that step's own
/// device, and is answered by running `findmnt` on that device, or by the
/// listing of `swapon -s`.
pub proof fn law_query_concerns_own_device(device: Seq<char>, dir: Seq<char>)
    ensures
        step_query(StepView::MountDevice { device, dir }) == Some(QueryView::IsMounted { device }),
        step_query(StepView::EnableSwap { device }) == Some(QueryView::SwapIsActive { device }),
        query_line(QueryView::IsMounted { device }) == command_line("findmnt"@, seq![device]),
        query_line(QueryView::SwapIsActive { device }) == command_line("swapon"@, seq!["-s"@]),
{
}

/// A swap partition is enabled exactly when the `swapon -s` listing that
/// answers its question does not name its device (or is empty); a device is
/// unmounted first exactly when `findmnt` on it printed something, and is
/// mounted on its directory in either case.
pub proof fn law_resolution_follows_the_machine(
    device: Seq<char>,
    dir: Seq<char>,
    listing: Seq<char>,
    findmnt_output_len: nat,
)
    ensures
        ({
            let step = StepView::EnableSwap { device };
            let active = match step_query(step) {
                Some(QueryView::SwapIsActive { device: asked }) => listing.len() > 0 && occurs_in(
                    listing,
                    asked,
                ),
                _ => false,
            };
            resolved_lines(step, active) == if listing.len() > 0 && occurs_in(listing, device) {
                Seq::<CommandView>::empty()
            } else {
                seq![command_line("swapon"@, seq![device])]
            }
        }),
        ({
            let step = StepView::MountDevice { device, dir };
            let mounted = match step_query(step) {
                Some(QueryView::IsMounted { device: asked }) => asked == device && findmnt_output_len
                    > 0,
                _ => false,
            };
            resolved_lines(step, mounted) == if findmnt_output_len > 0 {
                seq![
                    command_line("umount"@, seq![device]),
                    command_line("mount"@, seq![device, dir]),
                ]
            } else {
                seq![command_line("mount"@, seq![device, dir])]
            }
        }),
{
}

} // verus!
