//! Mounting the whole file system of the new system.
use super::{format_step, mount_point_of, mount_steps, partition_steps, Partition, PartitionView};
use crate::fs::fs_type_name;
use crate::terminal::CommandView;
use crate::terminal::{extend_steps, Step, StepView};
use vstd::prelude::*;

verus! {

/// No description in `ps` after position `j` has the role of `ps[j]`:
/// `ps[j]` is the description that holds for its role.
pub open spec fn is_last_of_role(ps: Seq<PartitionView>, j: int) -> bool {
    forall|k: int| j < k < ps.len() ==> #[trigger] ps[k].partition != ps[j].partition
}

/// No two entries of `es` have the same role.
pub open spec fn roles_distinct(es: Seq<PartitionView>) -> bool {
    forall|i: int, k: int|
        0 <= i < es.len() && 0 <= k < es.len() && i != k ==> #[trigger] es[i].partition
            != #[trigger] es[k].partition
}

/// Some entry of `es` has the role `name`.
pub open spec fn has_role(es: Seq<PartitionView>, name: Seq<char>) -> bool {
    exists|i: int| 0 <= i < es.len() && #[trigger] es[i].partition == name
}

/// `e` is the description in `ps`, at position `from` or later, that holds for its role.
pub open spec fn is_last_description(ps: Seq<PartitionView>, e: PartitionView, from: int) -> bool {
    exists|j: int| from <= j < ps.len() && e == #[trigger] ps[j] && is_last_of_role(ps, j)
}

/// `es` holds the descriptions in `ps` keyed by role, a later description of a
/// role replacing an earlier one: one entry per role that occurs in `ps`, and
/// that entry is the last description of the role.
pub open spec fn is_role_table(ps: Seq<PartitionView>, es: Seq<PartitionView>) -> bool {
    &&& roles_distinct(es)
    &&& forall|i: int| 0 <= i < es.len() ==> is_last_description(ps, #[trigger] es[i], 0)
    &&& forall|j: int| 0 <= j < ps.len() ==> has_role(es, #[trigger] ps[j].partition)
}

/// The steps for the entries of `es` in order, leaving out the entry at `skip`.
pub open spec fn steps_skipping(es: Seq<PartitionView>, skip: int) -> Seq<StepView>
    decreases es.len(),
{
    if es.len() == 0 {
        Seq::empty()
    } else if es.len() - 1 == skip {
        steps_skipping(es.drop_last(), skip)
    } else {
        steps_skipping(es.drop_last(), skip) + partition_steps(es.last())
    }
}

/// The steps that mount the file system from the table `es` whose entry at
/// `root` is the root partition: the root partition first, then every other
/// entry.
pub open spec fn mount_plan(es: Seq<PartitionView>, root: int) -> Seq<StepView> {
    partition_steps(es[root]) + steps_skipping(es, root)
}

/// Keys the partitions by their role; a later description of a role replaces
/// an earlier one. The entries come in no particular order.
pub fn partitions_to_hashmap(partitions: Vec<Partition>) -> (res: Vec<Partition>)
    ensures
        is_role_table(partitions.deep_view(), res.deep_view()),
{
    let ghost ps = partitions.deep_view();
    let n = partitions.len();
    let mut rest = partitions;
    let mut res: Vec<Partition> = Vec::new();
    while rest.len() > 0
        invariant
            n == ps.len(),
            rest.len() <= n,
            rest.deep_view() == ps.take(rest.len() as int),
            roles_distinct(res.deep_view()),
            forall|i: int|
                0 <= i < res.len() ==> is_last_description(ps, #[trigger] res.deep_view()[i], rest.len() as int),
            forall|j: int| rest.len() <= j < n ==> has_role(res.deep_view(), #[trigger] ps[j].partition),
        decreases rest.len(),
    {
        let ghost m = rest.len() - 1;
        let ghost before = res.deep_view();
        let ghost old_rest = rest@;
        assert(ps.take(m + 1)[m] == ps[m]);
        assert(rest.deep_view()[m] == old_rest[m]@);
        let p = rest.pop().unwrap();
        assert(p == old_rest[m]);
        assert(rest.deep_view() =~= ps.take(m));
        assert(p@ == ps[m]);
        let mut found = false;
        let mut i: usize = 0;
        while i < res.len()
            invariant
                i <= res.len(),
                found ==> has_role(res.deep_view(), p@.partition),
                !found ==> forall|k: int| 0 <= k < i ==> res.deep_view()[k].partition != p@.partition,
            decreases res.len() - i,
        {
            if res[i].partition == p.partition {
                assert(res.deep_view()[i as int].partition == p@.partition);
                found = true;
            }
            i = i + 1;
        }
        if !found {
            assert(is_last_of_role(ps, m)) by {
                assert forall|k: int| m < k < ps.len() implies #[trigger] ps[k].partition != ps[m].partition by {
                    if ps[k].partition == ps[m].partition {
                        assert(has_role(before, ps[k].partition));
                        let w = choose|w: int| 0 <= w < before.len() && #[trigger] before[w].partition == ps[k].partition;
                        assert(res.deep_view()[w].partition == p@.partition);
                    }
                }
            }
            res.push(p);
            assert(res.deep_view()[before.len() as int] == ps[m]);
            assert forall|a: int, b: int|
                0 <= a < res.len() && 0 <= b < res.len() && a != b implies #[trigger] res.deep_view()[a].partition
                    != #[trigger] res.deep_view()[b].partition by {
                if a < before.len() {
                    assert(res.deep_view()[a] == before[a]);
                }
                if b < before.len() {
                    assert(res.deep_view()[b] == before[b]);
                }
            }
            assert forall|i: int| 0 <= i < res.len() implies is_last_description(ps, #[trigger] res.deep_view()[i], rest.len() as int) by {
                if i < before.len() {
                    assert(res.deep_view()[i] == before[i]);
                    assert(is_last_description(ps, before[i], m + 1));
                    let j = choose|j: int| m + 1 <= j < ps.len() && before[i] == #[trigger] ps[j] && is_last_of_role(ps, j);
                    assert(m <= j);
                } else {
                    assert(res.deep_view()[i] == ps[m]);
                }
            }
            assert forall|j: int| rest.len() <= j < n implies has_role(res.deep_view(), #[trigger] ps[j].partition) by {
                if j == m {
                    assert(res.deep_view()[before.len() as int].partition == ps[j].partition);
                } else {
                    let w = choose|w: int| 0 <= w < before.len() && #[trigger] before[w].partition == ps[j].partition;
                    assert(res.deep_view()[w].partition == ps[j].partition);
                }
            }
        }
    }
    res
}


/// The steps that mount the file system of the new system from the
/// partitions described: the root partition first, formatted when it asks
/// for it and mounted on `/mnt`, then every other role once, from its last
/// description, formatted when that asks for it and mounted. A description
/// of the root partition is needed.
pub fn mount_file_system(partitions: Vec<Partition>) -> (res: Vec<Step>)
    requires
        has_role(partitions.deep_view(), "root"@),
    ensures
        exists|es: Seq<PartitionView>, root: int|
            {
                &&& is_role_table(partitions.deep_view(), es)
                &&& 0 <= root < es.len()
                &&& es[root].partition == "root"@
                &&& res.deep_view() == mount_plan(es, root)
            },
{
    let ghost ps = partitions.deep_view();
    let fs = partitions_to_hashmap(partitions);
    let ghost es = fs.deep_view();
    let root_name = "root".to_owned();
    proof {
        let j = choose|j: int| 0 <= j < ps.len() && #[trigger] ps[j].partition == "root"@;
        assert(has_role(es, ps[j].partition));
    }
    let mut r: usize = 0;
    while r < fs.len() && !(fs[r].partition == root_name)
        invariant
            es == fs.deep_view(),
            has_role(es, "root"@),
            root_name@ == "root"@,
            r <= fs.len(),
            forall|k: int| 0 <= k < r ==> (#[trigger] es[k]).partition != "root"@,
        decreases fs.len() - r,
    {
        r = r + 1;
    }
    if r == fs.len() {
        proof {
            let k = choose|k: int| 0 <= k < es.len() && #[trigger] es[k].partition == "root"@;
            assert(es[k].partition != "root"@);
        }
    }
    assert(es[r as int].partition == "root"@);
    let mut steps = fs[r].format_and_mount();
    let n = fs.len();
    for i in 0..n
        invariant
            n == fs.len(),
            es == fs.deep_view(),
            r < n,
            steps.deep_view() == partition_steps(es[r as int]) + steps_skipping(es.take(i as int), r as int),
    {
        assert(es.take(i + 1).drop_last() =~= es.take(i as int));
        if i != r {
            extend_steps(&mut steps, fs[i].format_and_mount());
            assert(steps.deep_view() =~= partition_steps(es[r as int]) + steps_skipping(es.take(i + 1), r as int));
        }
    }
    assert(es.take(n as int) =~= es);
    assert(steps.deep_view() == mount_plan(es, r as int));
    steps
}


/// The map that results from inserting the descriptions of `ps`, in order,
/// under their roles, a later insertion replacing an earlier one.
pub open spec fn inserted_by_role(ps: Seq<PartitionView>) -> Map<Seq<char>, PartitionView>
    decreases ps.len(),
{
    if ps.len() == 0 {
        Map::empty()
    } else {
        inserted_by_role(ps.drop_last()).insert(ps.last().partition, ps.last())
    }
}

proof fn lemma_inserted_holds_last(ps: Seq<PartitionView>, j: int)
    requires
        0 <= j < ps.len(),
        is_last_of_role(ps, j),
    ensures
        inserted_by_role(ps).dom().contains(ps[j].partition),
        inserted_by_role(ps)[ps[j].partition] == ps[j],
    decreases ps.len(),
{
    if j < ps.len() - 1 {
        let prefix = ps.drop_last();
        assert(ps.last().partition != ps[j].partition);
        assert forall|k: int| j < k < prefix.len() implies #[trigger] prefix[k].partition
            != prefix[j].partition by {
            assert(prefix[k] == ps[k]);
        }
        lemma_inserted_holds_last(prefix, j);
    }
}

proof fn lemma_inserted_keys(ps: Seq<PartitionView>, name: Seq<char>)
    requires
        inserted_by_role(ps).dom().contains(name),
    ensures
        has_role(ps, name),
    decreases ps.len(),
{
    if ps.len() > 0 && ps.last().partition != name {
        lemma_inserted_keys(ps.drop_last(), name);
        let i = choose|i: int| 0 <= i < ps.drop_last().len() && #[trigger] ps.drop_last()[i].partition == name;
        assert(ps[i].partition == name);
    } else if ps.len() > 0 {
        assert(ps[ps.len() - 1].partition == name);
    }
}

/// Keying the descriptions by role gives what inserting them one by one into
/// a map gives: the same roles, each with the same description.
pub proof fn law_table_is_map_insertion(ps: Seq<PartitionView>, es: Seq<PartitionView>)
    requires
        is_role_table(ps, es),
    ensures
        forall|i: int|
            0 <= i < es.len() ==> inserted_by_role(ps).dom().contains(#[trigger] es[i].partition)
                && inserted_by_role(ps)[es[i].partition] == es[i],
        forall|name: Seq<char>|
            inserted_by_role(ps).dom().contains(name) <==> has_role(es, name),
{
    assert forall|i: int| 0 <= i < es.len() implies inserted_by_role(ps).dom().contains(
        #[trigger] es[i].partition,
    ) && inserted_by_role(ps)[es[i].partition] == es[i] by {
        assert(is_last_description(ps, es[i], 0));
        let j = choose|j: int| 0 <= j < ps.len() && es[i] == #[trigger] ps[j] && is_last_of_role(ps, j);
        lemma_inserted_holds_last(ps, j);
    }
    assert forall|name: Seq<char>| inserted_by_role(ps).dom().contains(name) <==> has_role(es, name) by {
        if inserted_by_role(ps).dom().contains(name) {
            lemma_inserted_keys(ps, name);
            let j = choose|j: int| 0 <= j < ps.len() && #[trigger] ps[j].partition == name;
            assert(has_role(es, ps[j].partition));
        }
        if has_role(es, name) {
            let i = choose|i: int| 0 <= i < es.len() && #[trigger] es[i].partition == name;
            assert(inserted_by_role(ps).dom().contains(es[i].partition));
        }
    }
}

/// The root partition is dealt with before any other: the plan begins with
/// its formatting, when it asks for it, then creates `/mnt` and mounts the
/// root device there.
pub proof fn law_root_mounted_first(es: Seq<PartitionView>, root: int)
    requires
        0 <= root < es.len(),
        es[root].partition == "root"@,
    ensures
        ({
            let plan = mount_plan(es, root);
            let k: int = if es[root].format { 1 } else { 0 };
            &&& es[root].format ==> plan[0] == format_step(es[root])
            &&& plan[k] == (StepView::CreateDir { path: "/mnt"@ })
            &&& plan[k + 1] == (StepView::MountDevice { device: es[root].device, dir: "/mnt"@ })
        }),
{
    reveal_strlit("root");
    reveal_strlit("swap");
    assert("root"@ != "swap"@) by {
        assert("root"@[0] != "swap"@[0]);
    }
}

proof fn lemma_skipping_formats_only_when_asked(es: Seq<PartitionView>, skip: int)
    ensures
        forall|k: int|
            0 <= k < steps_skipping(es, skip).len() && (#[trigger] steps_skipping(es, skip)[k]) is Invoke
                ==> exists|i: int|
                0 <= i < es.len() && es[i].format && steps_skipping(es, skip)[k] == format_step(
                    #[trigger] es[i],
                ),
    decreases es.len(),
{
    if es.len() > 0 {
        let prefix = es.drop_last();
        lemma_skipping_formats_only_when_asked(prefix, skip);
        let before = steps_skipping(prefix, skip);
        let all = steps_skipping(es, skip);
        assert forall|k: int| 0 <= k < all.len() && (#[trigger] all[k]) is Invoke implies exists|i: int|
            0 <= i < es.len() && es[i].format && all[k] == format_step(#[trigger] es[i]) by {
            if k < before.len() {
                assert(all[k] == before[k]);
                let i = choose|i: int| 0 <= i < prefix.len() && prefix[i].format && before[k] == format_step(
                    #[trigger] prefix[i],
                );
                assert(es[i] == prefix[i]);
            } else {
                let last = es[es.len() - 1];
                assert(all[k] == partition_steps(last)[k - before.len()]);
                assert(last.format && all[k] == format_step(es[es.len() - 1]));
            }
        }
    }
}

/// Nothing is formatted but a partition whose description asks for it: every
/// formatting step of the plan formats a partition of the table that asks to
/// be formatted.
pub proof fn law_format_only_when_asked(es: Seq<PartitionView>, root: int)
    requires
        0 <= root < es.len(),
    ensures
        forall|k: int|
            0 <= k < mount_plan(es, root).len() && (#[trigger] mount_plan(es, root)[k]) is Invoke
                ==> exists|i: int|
                0 <= i < es.len() && es[i].format && mount_plan(es, root)[k] == format_step(
                    #[trigger] es[i],
                ),
{
    lemma_skipping_formats_only_when_asked(es, root);
    let head = partition_steps(es[root]);
    let rest = steps_skipping(es, root);
    let plan = mount_plan(es, root);
    assert forall|k: int| 0 <= k < plan.len() && (#[trigger] plan[k]) is Invoke implies exists|i: int|
        0 <= i < es.len() && es[i].format && plan[k] == format_step(#[trigger] es[i]) by {
        if k < head.len() {
            assert(plan[k] == head[k]);
            assert(es[root].format && plan[k] == format_step(es[root]));
        } else {
            assert(plan[k] == rest[k - head.len()]);
        }
    }
}

/// `part` stands as a block in `whole`.
pub open spec fn occurs_as_block(whole: Seq<StepView>, part: Seq<StepView>) -> bool {
    exists|k: int| 0 <= k && k + part.len() <= whole.len() && #[trigger] whole.subrange(k, k + part.len()) == part
}

proof fn lemma_block_in_concat(a: Seq<StepView>, b: Seq<StepView>, part: Seq<StepView>)
    ensures
        occurs_as_block(a, part) ==> occurs_as_block(a + b, part),
        occurs_as_block(b, part) ==> occurs_as_block(a + b, part),
{
    if occurs_as_block(a, part) {
        let k = choose|k: int| 0 <= k && k + part.len() <= a.len() && #[trigger] a.subrange(k, k + part.len()) == part;
        assert((a + b).subrange(k, k + part.len()) =~= part);
    }
    if occurs_as_block(b, part) {
        let k = choose|k: int| 0 <= k && k + part.len() <= b.len() && #[trigger] b.subrange(k, k + part.len()) == part;
        assert((a + b).subrange(a.len() + k, a.len() + k + part.len()) =~= part);
    }
}

proof fn lemma_skipping_mounts_all(es: Seq<PartitionView>, skip: int, i: int)
    requires
        0 <= i < es.len(),
        i != skip,
    ensures
        occurs_as_block(steps_skipping(es, skip), mount_steps(es[i])),
    decreases es.len(),
{
    let prefix = es.drop_last();
    if i < es.len() - 1 {
        lemma_skipping_mounts_all(prefix, skip, i);
        assert(prefix[i] == es[i]);
        if es.len() - 1 != skip {
            lemma_block_in_concat(steps_skipping(prefix, skip), partition_steps(es.last()), mount_steps(es[i]));
        }
    } else {
        let whole = partition_steps(es.last());
        let part = mount_steps(es.last());
        let k = whole.len() - part.len();
        assert(whole.subrange(k, k + part.len()) =~= part);
        assert(occurs_as_block(whole, part));
        lemma_block_in_concat(steps_skipping(prefix, skip), whole, part);
    }
}

/// Every role of the table is mounted: the steps that mount each entry stand
/// as a block in the plan.
pub proof fn law_every_role_mounted(es: Seq<PartitionView>, root: int, i: int)
    requires
        0 <= root < es.len(),
        0 <= i < es.len(),
    ensures
        occurs_as_block(mount_plan(es, root), mount_steps(es[i])),
{
    let head = partition_steps(es[root]);
    if i == root {
        let part = mount_steps(es[root]);
        let k = head.len() - part.len();
        assert(head.subrange(k, k + part.len()) =~= part);
        assert(occurs_as_block(head, part));
        lemma_block_in_concat(head, steps_skipping(es, root), part);
    } else {
        lemma_skipping_mounts_all(es, root, i);
        lemma_block_in_concat(head, steps_skipping(es, root), mount_steps(es[i]));
    }
}


proof fn lemma_block_itself(s: Seq<StepView>)
    ensures
        occurs_as_block(s, s),
{
    let k: int = 0;
    assert(s.subrange(k, k + s.len()) =~= s);
}

proof fn lemma_skipping_holds_each(es: Seq<PartitionView>, skip: int, i: int)
    requires
        0 <= i < es.len(),
        i != skip,
    ensures
        occurs_as_block(steps_skipping(es, skip), partition_steps(es[i])),
    decreases es.len(),
{
    let prefix = es.drop_last();
    if i < es.len() - 1 {
        lemma_skipping_holds_each(prefix, skip, i);
        assert(prefix[i] == es[i]);
        if es.len() - 1 != skip {
            lemma_block_in_concat(steps_skipping(prefix, skip), partition_steps(es.last()), partition_steps(es[i]));
        }
    } else {
        let whole = partition_steps(es.last());
        lemma_block_itself(whole);
        lemma_block_in_concat(steps_skipping(prefix, skip), whole, whole);
    }
}

/// Every partition of the table is formatted, when its description asks for
/// it, immediately before it is mounted: `mkfs -t <type> <device>` is
/// followed at once by the steps that enable it (swap) or create its mount
/// point and mount it there. No step of another partition comes between,
/// and no partition is mounted before it is formatted.
pub proof fn law_each_partition_formatted_then_mounted(es: Seq<PartitionView>, root: int, i: int)
    requires
        0 <= root < es.len(),
        0 <= i < es.len(),
    ensures
        occurs_as_block(
            mount_plan(es, root),
            (if es[i].format {
                seq![
                    StepView::Invoke {
                        command: CommandView {
                            program: "mkfs"@,
                            args: seq!["-t"@, fs_type_name(es[i].fs), es[i].device],
                        },
                    },
                ]
            } else {
                Seq::<StepView>::empty()
            }) + (if es[i].partition == "swap"@ {
                seq![StepView::EnableSwap { device: es[i].device }]
            } else {
                seq![
                    StepView::CreateDir { path: mount_point_of(es[i].partition) },
                    StepView::MountDevice {
                        device: es[i].device,
                        dir: mount_point_of(es[i].partition),
                    },
                ]
            }),
        ),
{
    let p = es[i];
    let expected = (if p.format {
        seq![
            StepView::Invoke {
                command: CommandView {
                    program: "mkfs"@,
                    args: seq!["-t"@, fs_type_name(p.fs), p.device],
                },
            },
        ]
    } else {
        Seq::<StepView>::empty()
    }) + (if p.partition == "swap"@ {
        seq![StepView::EnableSwap { device: p.device }]
    } else {
        seq![
            StepView::CreateDir { path: mount_point_of(p.partition) },
            StepView::MountDevice { device: p.device, dir: mount_point_of(p.partition) },
        ]
    });
    assert(partition_steps(p) =~= expected);
    let head = partition_steps(es[root]);
    if i == root {
        lemma_block_itself(head);
        lemma_block_in_concat(head, steps_skipping(es, root), head);
    } else {
        lemma_skipping_holds_each(es, root, i);
        lemma_block_in_concat(head, steps_skipping(es, root), partition_steps(p));
    }
}

} // verus!
