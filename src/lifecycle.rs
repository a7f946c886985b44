//! Order in which a mounted volume's engine resources are released.
use vstd::prelude::*;

verus! {

/// How far a device has been brought up, from registration outwards.
#[derive(Clone, Copy, Debug, PartialEq, Eq, Structural)]
pub enum Stage {
    /// Registered with the engine under a name.
    Registered,
    /// Mounted at a mount point.
    Mounted,
    /// Journal started.
    Journaled,
    /// Journal started and write-back caching on.
    Active,
}

/// One release step.
#[derive(Clone, Copy, Debug, PartialEq, Eq, Structural)]
pub enum Step {
    /// Write back and turn off the write-back cache.
    DisableWriteBack,
    /// Stop the journal.
    StopJournal,
    /// Unmount the volume.
    Unmount,
    /// Remove the device from the engine's table and close it.
    Unregister,
}

/// Number of release steps from `stage` down.
pub open spec fn depth(stage: Stage) -> nat {
    match stage {
        Stage::Registered => 1,
        Stage::Mounted => 2,
        Stage::Journaled => 3,
        Stage::Active => 4,
    }
}

/// Every release step, in the one order they may run in.
pub open spec fn full_teardown() -> Seq<Step> {
    seq![Step::DisableWriteBack, Step::StopJournal, Step::Unmount, Step::Unregister]
}

/// Steps that release everything held at `stage`, in order.
pub open spec fn teardown_of(stage: Stage) -> Seq<Step> {
    full_teardown().skip(4 - depth(stage))
}

/// Steps that bring a device from `reached` back down to `keep`, in order.
pub open spec fn rollback_of(reached: Stage, keep: Stage) -> Seq<Step> {
    if depth(keep) <= depth(reached) {
        teardown_of(reached).take(depth(reached) - depth(keep))
    } else {
        Seq::empty()
    }
}

fn step_at(i: usize) -> (r: Step)
    requires
        i < 4,
    ensures
        r == full_teardown()[i as int],
{
    if i == 0 {
        Step::DisableWriteBack
    } else if i == 1 {
        Step::StopJournal
    } else if i == 2 {
        Step::Unmount
    } else {
        Step::Unregister
    }
}

fn depth_of(stage: Stage) -> (r: usize)
    ensures
        r == depth(stage),
{
    match stage {
        Stage::Registered => 1,
        Stage::Mounted => 2,
        Stage::Journaled => 3,
        Stage::Active => 4,
    }
}

/// Steps that bring a device from `reached` back down to `keep`; nothing
/// when `keep` is not below `reached`.
pub fn rollback_plan(reached: Stage, keep: Stage) -> (r: Vec<Step>)
    ensures
        r@ == rollback_of(reached, keep),
{
    let top = depth_of(reached);
    let bottom = depth_of(keep);
    let mut out: Vec<Step> = Vec::new();
    if bottom > top {
        return out;
    }
    let mut i: usize = 4 - top;
    while i < 4 - bottom
        invariant
            4 - top <= i <= 4 - bottom,
            top == depth(reached),
            bottom == depth(keep),
            bottom <= top,
            out@ =~= full_teardown().subrange(4 - top, i as int),
        decreases 4 - bottom - i,
    {
        out.push(step_at(i));
        i = i + 1;
    }
    assert(out@ =~= rollback_of(reached, keep));
    out
}

/// Steps that release everything held at `stage`, in order.
pub fn teardown_plan(stage: Stage) -> (r: Vec<Step>)
    ensures
        r@ == teardown_of(stage),
{
    let top = depth_of(stage);
    let mut out: Vec<Step> = Vec::new();
    let mut i: usize = 4 - top;
    while i < 4
        invariant
            4 - top <= i <= 4,
            top == depth(stage),
            out@ =~= full_teardown().subrange(4 - top, i as int),
        decreases 4 - i,
    {
        out.push(step_at(i));
        i = i + 1;
    }
    assert(out@ =~= teardown_of(stage));
    out
}

/// Position of a step in the one order release steps may run in.
pub open spec fn rank(step: Step) -> int {
    match step {
        Step::DisableWriteBack => 0,
        Step::StopJournal => 1,
        Step::Unmount => 2,
        Step::Unregister => 3,
    }
}

/// Whatever a device has reached, it is released in one fixed order: the
/// write-back cache before the journal, the journal before the unmount, the
/// unmount before the device leaves the engine's table, which comes last.
pub proof fn lemma_teardown_order(stage: Stage, i: int, j: int)
    requires
        0 <= i < j < teardown_of(stage).len(),
    ensures
        rank(teardown_of(stage)[i]) < rank(teardown_of(stage)[j]),
        teardown_of(stage).last() == Step::Unregister,
{
}

} // verus!
