//! What every launch plan guarantees about the order and the arguments of its
//! operations.
use vstd::prelude::*;
use crate::launch::{
    is_component, kind_of, mount_ops, plan, requested_namespaces, run_step, scratch_prefix,
    scratch_step, setup_ops, strings_view, swap_ops, transition, under_root, ErrorKind, Event,
    LaunchConfig, Op, Outcome,
};
use crate::options::{container_target_spec, env_map, MountFlags};

verus! {

proof fn lemma_plan_index(cfg: LaunchConfig, scratch: Seq<char>, k: int)
    requires
        0 <= k <= run_step(cfg),
    ensures
        plan(cfg, scratch).len() == run_step(cfg) + 1,
        k < 7 ==> plan(cfg, scratch)[k] == setup_ops(cfg)[k],
        7 <= k < scratch_step(cfg) ==> plan(cfg, scratch)[k] == mount_ops(cfg.mounts@)[k - 7],
        scratch_step(cfg) <= k ==> plan(cfg, scratch)[k] == swap_ops(cfg, scratch)[k
            - scratch_step(cfg)],
{
    let a = setup_ops(cfg);
    let b = mount_ops(cfg.mounts@);
    let c = swap_ops(cfg, scratch);
    assert(plan(cfg, scratch) == a + b + c);
    assert(a.len() == 7 && b.len() == cfg.mounts@.len() && c.len() == 6);
    if k < 7 {
        assert((a + b)[k] == a[k]);
    } else if k < scratch_step(cfg) {
        assert((a + b)[k] == b[k - 7]);
    }
}

/// Namespaces come first, requested once: the first operation unshares the
/// configured namespaces together with a user and a mount namespace, and no
/// later operation unshares again.
pub proof fn namespaces_requested_once_first(cfg: LaunchConfig, scratch: Seq<char>)
    ensures
        plan(cfg, scratch)[0] == Op::Unshare(requested_namespaces(cfg.namespaces)),
        requested_namespaces(cfg.namespaces).user,
        requested_namespaces(cfg.namespaces).mount,
        forall|k: int| 0 < k < plan(cfg, scratch).len() ==> !(#[trigger] plan(cfg, scratch)[k] is Unshare),
{
    lemma_plan_index(cfg, scratch, 0);
    assert forall|k: int| 0 < k < plan(cfg, scratch).len() implies !(#[trigger] plan(cfg, scratch)[k] is Unshare) by {
        lemma_plan_index(cfg, scratch, k);
    }
}

/// Propagation is private before any bind mount, and the identity maps are
/// written before any bind mount too: `/` is made private as the second
/// operation, the three identity files follow, and every bind mount comes
/// after them.
pub proof fn private_and_mapped_before_bind_mounts(cfg: LaunchConfig, scratch: Seq<char>)
    ensures
        plan(cfg, scratch)[1] == Op::MakePrivate(seq!['/']),
        plan(cfg, scratch)[2] is WriteProcFile,
        plan(cfg, scratch)[3] is WriteProcFile,
        plan(cfg, scratch)[4] is WriteProcFile,
        forall|k: int|
            0 <= k < plan(cfg, scratch).len() && (#[trigger] plan(cfg, scratch)[k] is BindMount)
                ==> k > 4,
{
    lemma_plan_index(cfg, scratch, 1);
    lemma_plan_index(cfg, scratch, 2);
    lemma_plan_index(cfg, scratch, 3);
    lemma_plan_index(cfg, scratch, 4);
    assert forall|k: int|
        0 <= k < plan(cfg, scratch).len() && (#[trigger] plan(cfg, scratch)[k] is BindMount)
            implies k > 4 by {
        lemma_plan_index(cfg, scratch, k);
    }
}

/// The new root is the root filesystem: it is bind-mounted onto itself and
/// made the working directory; the working directory does not change again
/// before the pivot, whose new root is `.`.
pub proof fn pivot_onto_rootfs(cfg: LaunchConfig, scratch: Seq<char>)
    ensures
        plan(cfg, scratch)[5] == Op::BindMount(
            cfg.rootfs@,
            cfg.rootfs@,
            MountFlags { recursive: false, nosuid: false, nodev: false, noexec: false },
        ),
        plan(cfg, scratch)[6] == Op::ChangeDir(cfg.rootfs@),
        plan(cfg, scratch)[scratch_step(cfg) + 1] == Op::PivotRoot(seq!['.'], scratch),
        forall|k: int| 6 < k <= scratch_step(cfg) ==> !(#[trigger] plan(cfg, scratch)[k] is ChangeDir),
        forall|k: int| 0 <= k <= scratch_step(cfg) ==> !(#[trigger] plan(cfg, scratch)[k] is PivotRoot),
{
    lemma_plan_index(cfg, scratch, 5);
    lemma_plan_index(cfg, scratch, 6);
    lemma_plan_index(cfg, scratch, scratch_step(cfg) + 1);
    assert forall|k: int| 6 < k <= scratch_step(cfg) implies !(#[trigger] plan(cfg, scratch)[k] is ChangeDir) by {
        lemma_plan_index(cfg, scratch, k);
    }
    assert forall|k: int| 0 <= k <= scratch_step(cfg) implies !(#[trigger] plan(cfg, scratch)[k] is PivotRoot) by {
        lemma_plan_index(cfg, scratch, k);
    }
}

/// The caller's mounts are applied in their given order, each host directory
/// at its container directory made relative to the root filesystem, after the
/// change into the root filesystem and before the pivot.
pub proof fn mounts_applied_in_order(cfg: LaunchConfig, scratch: Seq<char>)
    ensures
        forall|i: int|
            0 <= i < cfg.mounts@.len() ==> #[trigger] plan(cfg, scratch)[7 + i] == Op::BindMount(
                cfg.mounts@[i].host@,
                container_target_spec(cfg.mounts@[i].container@),
                cfg.mounts@[i].flags,
            ),
        plan(cfg, scratch)[6] == Op::ChangeDir(cfg.rootfs@),
        plan(cfg, scratch)[scratch_step(cfg) + 1] is PivotRoot,
        scratch_step(cfg) == 7 + cfg.mounts@.len(),
{
    lemma_plan_index(cfg, scratch, 6);
    lemma_plan_index(cfg, scratch, scratch_step(cfg) + 1);
    assert forall|i: int| 0 <= i < cfg.mounts@.len() implies #[trigger] plan(cfg, scratch)[7 + i]
        == Op::BindMount(
        cfg.mounts@[i].host@,
        container_target_spec(cfg.mounts@[i].container@),
        cfg.mounts@[i].flags,
    ) by {
        lemma_plan_index(cfg, scratch, 7 + i);
    }
}

/// The scratch directory is made inside the root filesystem, receives the old
/// root, and is detached and removed under the new root before the command,
/// which is the last operation.
pub proof fn scratch_removed_before_run(cfg: LaunchConfig, scratch: Seq<char>)
    requires
        is_component(scratch),
    ensures
        plan(cfg, scratch)[scratch_step(cfg)] == Op::CreateScratch(seq!['.'], scratch_prefix()),
        plan(cfg, scratch)[scratch_step(cfg) + 1] == Op::PivotRoot(seq!['.'], scratch),
        plan(cfg, scratch)[scratch_step(cfg) + 2] == Op::ChangeDir(seq!['/']),
        plan(cfg, scratch)[scratch_step(cfg) + 3] == Op::DetachUnmount(under_root(scratch)),
        plan(cfg, scratch)[scratch_step(cfg) + 4] == Op::RemoveDir(under_root(scratch)),
        plan(cfg, scratch)[run_step(cfg)] is Run,
        run_step(cfg) == scratch_step(cfg) + 5,
        plan(cfg, scratch).len() == run_step(cfg) + 1,
{
    let s = scratch_step(cfg);
    lemma_plan_index(cfg, scratch, s);
    lemma_plan_index(cfg, scratch, s + 1);
    lemma_plan_index(cfg, scratch, s + 2);
    lemma_plan_index(cfg, scratch, s + 3);
    lemma_plan_index(cfg, scratch, s + 4);
    lemma_plan_index(cfg, scratch, s + 5);
}

/// The command runs once, last, with exactly the supplied environment (a
/// later assignment to a name replacing an earlier one) and nothing
/// inherited.
pub proof fn command_gets_supplied_env(cfg: LaunchConfig, scratch: Seq<char>)
    ensures
        plan(cfg, scratch)[run_step(cfg)] == Op::Run(
            cfg.command@,
            strings_view(cfg.args@),
            env_map(cfg.env@),
        ),
        forall|k: int| 0 <= k < run_step(cfg) ==> !(#[trigger] plan(cfg, scratch)[k] is Run),
{
    lemma_plan_index(cfg, scratch, run_step(cfg));
    assert forall|k: int| 0 <= k < run_step(cfg) implies !(#[trigger] plan(cfg, scratch)[k] is Run) by {
        lemma_plan_index(cfg, scratch, k);
    }
}

/// A failure reported for any operation before the command ends the launch
/// as failed, blamed on that operation's stage; a failed pivot is blamed on
/// the root swap.
pub proof fn failure_stops_before_run(
    cfg: LaunchConfig,
    step: int,
    scratch: Seq<char>,
    errno: i32,
)
    requires
        0 <= step < run_step(cfg),
    ensures
        transition(cfg, step, scratch, Event::Failed { errno }).2 == Outcome::Failed(
            kind_of(plan(cfg, scratch)[step]),
            Some(errno),
        ),
        kind_of(plan(cfg, scratch)[step]) != ErrorKind::Launch,
        step == scratch_step(cfg) + 1 ==> kind_of(plan(cfg, scratch)[step]) == ErrorKind::Pivot,
{
    lemma_plan_index(cfg, scratch, step);
}

} // verus!
