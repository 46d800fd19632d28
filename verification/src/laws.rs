//! The engine's guarantees, stated and proved over the reconciliation effect.
//!
//! Each law quantifies over stores, task snapshots and configurations; the
//! scenario tests exercise the same statements on concrete values.

use vstd::prelude::*;

use crate::classify::{spec_destination, spec_is_in_milestone_list, spec_is_managed,
    spec_milestone_value};
use crate::config::MilestoneConfig;
use crate::outcome::{Fault, Outcome, ReconcileFailure};
use crate::reconcile::{spec_reconcile, spec_reconcile_at};
use crate::store::{spec_reparented, StoreView, WriteRecordView};
use crate::task::{CustomField, TaskView};
use crate::walk::{spec_walk, WalkEnd};

verus! {

/// Idempotence: an attempt that reports the task already compliant commits
/// zero writes and leaves the store as it was, so a second attempt on the
/// same identifier reports already compliant again, again with zero writes.
pub proof fn lemma_reconcile_idempotent(
    ff: bool,
    fsp: bool,
    fal: bool,
    m: StoreView,
    id: Seq<char>,
    c: MilestoneConfig,
)
    requires
        spec_reconcile_at(ff, fsp, fal, m, id, c).outcome == Ok::<Outcome, ReconcileFailure>(
            Outcome::AlreadyCompliant,
        ),
    ensures
        spec_reconcile_at(ff, fsp, fal, m, id, c).store == m,
        spec_reconcile_at(ff, fsp, fal, m, id, c).writes == Seq::<WriteRecordView>::empty(),
        spec_reconcile_at(ff, fsp, fal, spec_reconcile_at(ff, fsp, fal, m, id, c).store, id, c)
            == spec_reconcile_at(ff, fsp, fal, m, id, c),
{
}

/// Unmanaged-space no-op: a task whose space is not in the managed set is
/// skipped, whatever its ancestry, its custom fields, or the store's failure
/// switches, and nothing is written.
pub proof fn lemma_reconcile_unmanaged(
    ff: bool,
    fsp: bool,
    fal: bool,
    m: StoreView,
    tv: TaskView,
    c: MilestoneConfig,
)
    requires
        !spec_is_managed(c, tv.space),
    ensures
        spec_reconcile(ff, fsp, fal, m, tv, c).outcome == Ok::<Outcome, ReconcileFailure>(
            Outcome::Skipped,
        ),
        spec_reconcile(ff, fsp, fal, m, tv, c).store == m,
        spec_reconcile(ff, fsp, fal, m, tv, c).writes == Seq::<WriteRecordView>::empty(),
{
}

/// Compliance detection: a managed task whose immediate parent is a
/// milestone-list member is already compliant, and nothing is written.
pub proof fn lemma_parent_in_milestone_list_is_compliant(
    fsp: bool,
    fal: bool,
    m: StoreView,
    tv: TaskView,
    c: MilestoneConfig,
)
    requires
        spec_is_managed(c, tv.space),
        c.max_hops >= 1,
        tv.parent.is_some(),
        m.contains_key(tv.parent.unwrap()),
        spec_is_in_milestone_list(c, m[tv.parent.unwrap()]),
    ensures
        spec_reconcile(false, fsp, fal, m, tv, c).outcome == Ok::<Outcome, ReconcileFailure>(
            Outcome::AlreadyCompliant,
        ),
        spec_reconcile(false, fsp, fal, m, tv, c).store == m,
        spec_reconcile(false, fsp, fal, m, tv, c).writes == Seq::<WriteRecordView>::empty(),
{
    assert(spec_walk(m, tv.parent, c.max_hops as nat, c) == WalkEnd::Milestone);
}

/// Transitive compliance: a managed task whose parent's parent (two hops) is
/// a milestone-list member is already compliant, and nothing is written.
pub proof fn lemma_grandparent_in_milestone_list_is_compliant(
    fsp: bool,
    fal: bool,
    m: StoreView,
    tv: TaskView,
    c: MilestoneConfig,
)
    requires
        spec_is_managed(c, tv.space),
        c.max_hops >= 2,
        tv.parent.is_some(),
        m.contains_key(tv.parent.unwrap()),
        !spec_is_in_milestone_list(c, m[tv.parent.unwrap()]),
        m[tv.parent.unwrap()].parent.is_some(),
        m.contains_key(m[tv.parent.unwrap()].parent.unwrap()),
        spec_is_in_milestone_list(c, m[m[tv.parent.unwrap()].parent.unwrap()]),
    ensures
        spec_reconcile(false, fsp, fal, m, tv, c).outcome == Ok::<Outcome, ReconcileFailure>(
            Outcome::AlreadyCompliant,
        ),
        spec_reconcile(false, fsp, fal, m, tv, c).store == m,
        spec_reconcile(false, fsp, fal, m, tv, c).writes == Seq::<WriteRecordView>::empty(),
{
    let p = tv.parent.unwrap();
    assert(spec_walk(m, m[p].parent, (c.max_hops - 1) as nat, c) == WalkEnd::Milestone);
    assert(spec_walk(m, tv.parent, c.max_hops as nat, c) == WalkEnd::Milestone);
}

/// Needed correction performed: a managed task whose ancestry reaches the
/// root without any milestone-list member is corrected when both writes go
/// through — re-parented under the destination its custom field selects,
/// exactly the two writes committed, in order, its list membership as the
/// snapshot had it, and no other task touched.
pub proof fn lemma_root_reached_is_corrected(m: StoreView, tv: TaskView, c: MilestoneConfig)
    requires
        spec_is_managed(c, tv.space),
        spec_walk(m, tv.parent, c.max_hops as nat, c) == WalkEnd::Root,
        m.contains_key(tv.id),
    ensures
        ({
            let e = spec_reconcile(false, false, false, m, tv, c);
            let dest = spec_destination(c, tv.custom_fields);
            e.outcome == Ok::<Outcome, ReconcileFailure>(Outcome::Corrected) && e.writes == seq![
                WriteRecordView::SetParent { id: tv.id, parent: dest@ },
                WriteRecordView::AddToList { id: tv.id, list: tv.list },
            ] && e.store.contains_key(tv.id) && e.store[tv.id].parent == Some(dest@)
                && e.store[tv.id].list == tv.list && (forall|k: Seq<char>|
                m.contains_key(k) && k != tv.id ==> e.store.contains_key(k) && e.store[k] == m[k])
        }),
{
}

/// Default-destination fallback: an absent, unset or out-of-range "Milestone"
/// custom field resolves to the sentinel destination, never to a failure.
pub proof fn lemma_destination_defaults(fields: Seq<CustomField>, c: MilestoneConfig)
    requires
        c.wf(),
        spec_milestone_value(fields).is_none() || spec_milestone_value(fields).unwrap()
            >= c.destinations@.len(),
    ensures
        spec_destination(c, fields) == c.destinations@[0],
{
}

/// Partial-failure convergence: when the re-parenting write commits but the
/// list-restoring write fails, the attempt reports the partial state; a
/// redelivered event then finds the task compliant — its new parent being a
/// milestone-list member — and re-parents nothing, whatever the write
/// switches then say.
pub proof fn lemma_partial_failure_converges(
    fsp2: bool,
    fal2: bool,
    m: StoreView,
    tv: TaskView,
    c: MilestoneConfig,
)
    requires
        spec_is_managed(c, tv.space),
        spec_walk(m, tv.parent, c.max_hops as nat, c) == WalkEnd::Root,
        m.contains_key(tv.id),
        m[tv.id] == tv,
        c.max_hops >= 1,
        spec_destination(c, tv.custom_fields)@ != tv.id,
        m.contains_key(spec_destination(c, tv.custom_fields)@),
        spec_is_in_milestone_list(c, m[spec_destination(c, tv.custom_fields)@]),
    ensures
        spec_reconcile(false, false, true, m, tv, c).outcome == Err::<Outcome, ReconcileFailure>(
            ReconcileFailure::PartialFailure(Fault::StoreUnavailable),
        ),
        ({
            let after = spec_reconcile(false, false, true, m, tv, c).store;
            let again = spec_reconcile_at(false, fsp2, fal2, after, tv.id, c);
            again.outcome == Ok::<Outcome, ReconcileFailure>(Outcome::AlreadyCompliant)
                && again.store == after && again.writes == Seq::<WriteRecordView>::empty()
        }),
{
    let dest = spec_destination(c, tv.custom_fields);
    let after = spec_reconcile(false, false, true, m, tv, c).store;
    assert(after[tv.id] == spec_reparented(m, tv, dest@));
    assert(after.contains_key(dest@) && after[dest@] == m[dest@]);
    assert(spec_walk(after, after[tv.id].parent, c.max_hops as nat, c) == WalkEnd::Milestone);
}

/// An ancestry that goes on for `n` more hops: the link is present, and each
/// of the next `n` ancestors exists, is no milestone-list member, and has a
/// parent link of its own.
pub open spec fn spec_dark_chain(
    m: StoreView,
    link: Option<Seq<char>>,
    n: nat,
    c: MilestoneConfig,
) -> bool
    decreases n,
{
    link.is_some() && (n > 0 ==> m.contains_key(link.unwrap()) && !spec_is_in_milestone_list(
        c,
        m[link.unwrap()],
    ) && spec_dark_chain(m, m[link.unwrap()].parent, (n - 1) as nat, c))
}

/// A walk along a chain longer than its fuel runs out of hops.
pub proof fn lemma_deep_chain_walks_too_deep(
    m: StoreView,
    link: Option<Seq<char>>,
    fuel: nat,
    c: MilestoneConfig,
)
    requires
        spec_dark_chain(m, link, fuel, c),
    ensures
        spec_walk(m, link, fuel, c) == WalkEnd::TooDeep,
    decreases fuel,
{
    if fuel > 0 {
        lemma_deep_chain_walks_too_deep(m, m[link.unwrap()].parent, (fuel - 1) as nat, c);
    }
}

/// Depth bound: a managed task whose ancestry chain outlasts the configured
/// hop bound is reported as a fault — never walked forever — and nothing is
/// written.
pub proof fn lemma_deep_ancestry_is_a_fault(
    fsp: bool,
    fal: bool,
    m: StoreView,
    tv: TaskView,
    c: MilestoneConfig,
)
    requires
        spec_is_managed(c, tv.space),
        spec_dark_chain(m, tv.parent, c.max_hops as nat, c),
    ensures
        spec_reconcile(false, fsp, fal, m, tv, c).outcome == Err::<Outcome, ReconcileFailure>(
            ReconcileFailure::Aborted(Fault::AncestryTooDeep),
        ),
        spec_reconcile(false, fsp, fal, m, tv, c).store == m,
        spec_reconcile(false, fsp, fal, m, tv, c).writes == Seq::<WriteRecordView>::empty(),
{
    lemma_deep_chain_walks_too_deep(m, tv.parent, c.max_hops as nat, c);
}

} // verus!
