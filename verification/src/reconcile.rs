//! The reconciler: decides whether a task needs correction and applies the
//! two-step correction safely and idempotently.
//!
//! A reconciliation attempt never caches state between events: compliance is
//! re-derived from the store every time, which is what makes duplicate and
//! out-of-order deliveries of the same task identifier safe. Within one
//! attempt the re-parenting write strictly precedes the list-restoring write,
//! because the latter compensates for the former's incidental effect on list
//! membership. The one window in which the operation is not atomic lies
//! between those two writes; a failure there is reported as
//! [`ReconcileFailure::PartialFailure`] and converges on redelivery.

use vstd::prelude::*;

use crate::classify::{spec_destination, spec_is_in_milestone_list, spec_is_managed};
use crate::config::MilestoneConfig;
use crate::ids::TaskId;
use crate::machine;
use crate::machine::{hops_of, rank_of, spec_step, Phase, Step, StoreAction, StoreEvent};
use crate::outcome::{Fault, Outcome, ReconcileFailure};
use crate::store::{log_views, spec_add_to_list, spec_set_parent, StoreError, StoreView, TaskStore,
    WriteRecordView};
use crate::task::{Task, TaskView};
use crate::walk::{spec_walk, walker_verdict, WalkEnd};

verus! {

/// Everything one reconciliation attempt does to a store: what it returns,
/// the store it leaves behind, and the writes it commits, in order.
pub struct ReconcileEffect {
    pub outcome: Result<Outcome, ReconcileFailure>,
    pub store: StoreView,
    pub writes: Seq<WriteRecordView>,
}

/// The effect of reconciling the task snapshot `tv` against store `m`, under
/// the store's three failure switches.
pub open spec fn spec_reconcile(
    ff: bool,
    fsp: bool,
    fal: bool,
    m: StoreView,
    tv: TaskView,
    c: MilestoneConfig,
) -> ReconcileEffect {
    if !spec_is_managed(c, tv.space) {
        ReconcileEffect {
            outcome: Ok(Outcome::Skipped),
            store: m,
            writes: Seq::empty(),
        }
    } else {
        match walker_verdict(ff, m, tv.parent, c.max_hops as nat, c) {
            Ok(compliant) => if compliant {
                ReconcileEffect {
                    outcome: Ok(Outcome::AlreadyCompliant),
                    store: m,
                    writes: Seq::empty(),
                }
            } else {
                let dest = spec_destination(c, tv.custom_fields);
                if fsp || !m.contains_key(tv.id) {
                    ReconcileEffect {
                        outcome: Err(ReconcileFailure::Aborted(Fault::StoreUnavailable)),
                        store: m,
                        writes: Seq::empty(),
                    }
                } else {
                    let m1 = spec_set_parent(m, tv.id, dest@);
                    let w1 = WriteRecordView::SetParent { id: tv.id, parent: dest@ };
                    if fal {
                        ReconcileEffect {
                            outcome: Err(ReconcileFailure::PartialFailure(Fault::StoreUnavailable)),
                            store: m1,
                            writes: seq![w1],
                        }
                    } else {
                        ReconcileEffect {
                            outcome: Ok(Outcome::Corrected),
                            store: spec_add_to_list(m1, tv.id, tv.list),
                            writes: seq![
                                w1,
                                WriteRecordView::AddToList { id: tv.id, list: tv.list },
                            ],
                        }
                    }
                }
            },
            Err(f) => ReconcileEffect {
                outcome: Err(ReconcileFailure::Aborted(f)),
                store: m,
                writes: Seq::empty(),
            },
        }
    }
}

/// The effect of reconciling by task identifier: the initial fetch may itself
/// fail or find nothing, and nothing is written then.
pub open spec fn spec_reconcile_at(
    ff: bool,
    fsp: bool,
    fal: bool,
    m: StoreView,
    id: Seq<char>,
    c: MilestoneConfig,
) -> ReconcileEffect {
    if ff {
        ReconcileEffect {
            outcome: Err(ReconcileFailure::Aborted(Fault::StoreUnavailable)),
            store: m,
            writes: Seq::empty(),
        }
    } else if !m.contains_key(id) {
        ReconcileEffect {
            outcome: Err(ReconcileFailure::Aborted(Fault::NotFound)),
            store: m,
            writes: Seq::empty(),
        }
    } else {
        spec_reconcile(ff, fsp, fal, m, m[id], c)
    }
}

/// What must hold of the machine's answer `st` while the driver loop runs
/// against a store currently at `cur` with committed writes `curlog`, having
/// started from store `m0` with writes `l0`: every terminal answer already
/// agrees with the attempt's effect, and every pending answer carries exactly
/// the walk or correction still owed.
spec fn driver_inv(
    st: Step,
    ff: bool,
    fsp: bool,
    fal: bool,
    m0: StoreView,
    l0: Seq<WriteRecordView>,
    cur: StoreView,
    curlog: Seq<WriteRecordView>,
    task: Task,
    c: MilestoneConfig,
) -> bool {
    let e = spec_reconcile(ff, fsp, fal, m0, task@, c);
    match st {
        Step::Finished(o) => e.outcome == Ok::<Outcome, ReconcileFailure>(o) && cur == e.store
            && curlog == l0 + e.writes,
        Step::Failed(f) => e.outcome == Err::<Outcome, ReconcileFailure>(f) && cur == e.store
            && curlog == l0 + e.writes,
        Step::Pending(rec, act) => spec_is_managed(c, task@.space) && rec.subject == task.id
            && rec.original_list == task.list.id && rec.destination == spec_destination(
            c,
            task.custom_fields@,
        ) && match rec.phase {
            Phase::Walking => cur == m0 && curlog == l0 && task@.parent.is_some() && c.max_hops > 0
                && rec.hops_left < c.max_hops && (act matches StoreAction::FetchTask(pid)
                && walker_verdict(ff, m0, task@.parent, c.max_hops as nat, c) == walker_verdict(
                ff,
                m0,
                Some(pid@),
                (rec.hops_left + 1) as nat,
                c,
            )),
            Phase::Reparenting => cur == m0 && curlog == l0 && walker_verdict(
                ff,
                m0,
                task@.parent,
                c.max_hops as nat,
                c,
            ) == Ok::<bool, Fault>(false) && act == StoreAction::SetParent(
                rec.subject,
                rec.destination,
            ),
            Phase::RestoringList => walker_verdict(ff, m0, task@.parent, c.max_hops as nat, c)
                == Ok::<bool, Fault>(false) && !fsp && m0.contains_key(task@.id) && cur
                == spec_set_parent(m0, task@.id, rec.destination@) && curlog == l0.push(
                (WriteRecordView::SetParent { id: task@.id, parent: rec.destination@ }),
            ) && act == StoreAction::AddToList(rec.subject, rec.original_list),
        },
    }
}

/// Checks whether the task needs correction and, when it does, re-parents it
/// under its milestone destination and restores its original list membership.
/// Runs the reconciliation machine against the given store, performing each
/// action the machine asks for and handing it back the result.
pub fn make_task_subtask_of_milestone_task_if_needed(
    store: &mut TaskStore,
    task: &Task,
    config: &MilestoneConfig,
) -> (r: Result<Outcome, ReconcileFailure>)
    requires
        config.wf(),
    ensures
        ({
            let e = spec_reconcile(
                old(store).fail_fetch,
                old(store).fail_set_parent,
                old(store).fail_add_to_list,
                old(store)@,
                task@,
                *config,
            );
            r == e.outcome && final(store)@ == e.store && log_views(final(store).log@)
                == log_views(old(store).log@) + e.writes
        }),
        final(store).fail_fetch == old(store).fail_fetch,
        final(store).fail_set_parent == old(store).fail_set_parent,
        final(store).fail_add_to_list == old(store).fail_add_to_list,
{
    let ghost ff = store.fail_fetch;
    let ghost fsp = store.fail_set_parent;
    let ghost fal = store.fail_add_to_list;
    let ghost m0 = store@;
    let ghost l0 = log_views(store.log@);
    let mut st = machine::start(task, config);
    proof {
        assert(l0 + Seq::<WriteRecordView>::empty() =~= l0);
        if spec_is_managed(*config, task@.space) && task@.parent.is_none() {
            assert(spec_walk(m0, task@.parent, config.max_hops as nat, *config)
                == WalkEnd::Root);
        }
        assert(driver_inv(st, ff, fsp, fal, m0, l0, store@, log_views(store.log@), *task, *config));
    }
    loop
        invariant
            config.wf(),
            ff == old(store).fail_fetch,
            fsp == old(store).fail_set_parent,
            fal == old(store).fail_add_to_list,
            m0 == old(store)@,
            l0 == log_views(old(store).log@),
            store.fail_fetch == ff,
            store.fail_set_parent == fsp,
            store.fail_add_to_list == fal,
            driver_inv(st, ff, fsp, fal, m0, l0, store@, log_views(store.log@), *task, *config),
        decreases rank_of(st), hops_of(st),
    {
        match st {
            Step::Finished(o) => {
                return Ok(o);
            },
            Step::Failed(f) => {
                return Err(f);
            },
            Step::Pending(rec, action) => {
                let ghost grec = rec;
                let event = match &action {
                    StoreAction::FetchTask(id) => {
                        let res = store.fetch(id);
                        let event = match res {
                            Ok(t) => StoreEvent::TaskFetched(t),
                            Err(e) => StoreEvent::StoreFailed(e),
                        };
                        proof {
                            lemma_walking_transition(grec, id@, event, ff, m0, *task, *config);
                            assert(l0 + Seq::<WriteRecordView>::empty() =~= l0);
                            assert(driver_inv(
                                spec_step(grec, *config, event),
                                ff,
                                fsp,
                                fal,
                                m0,
                                l0,
                                store@,
                                log_views(store.log@),
                                *task,
                                *config,
                            ));
                        }
                        event
                    },
                    StoreAction::SetParent(id, p) => {
                        let ghost logpre = store.log@;
                        let res = store.set_parent(id, p);
                        let event = match res {
                            Ok(_) => StoreEvent::WriteDone,
                            Err(e) => StoreEvent::StoreFailed(e),
                        };
                        proof {
                            assert(l0 + Seq::<WriteRecordView>::empty() =~= l0);
                            if !fsp && m0.contains_key(task@.id) {
                                crate::store::lemma_log_views_push(
                                    logpre,
                                    (crate::store::WriteRecord::SetParent { id: *id, parent: *p }),
                                );
                            }
                            assert(driver_inv(
                                spec_step(grec, *config, event),
                                ff,
                                fsp,
                                fal,
                                m0,
                                l0,
                                store@,
                                log_views(store.log@),
                                *task,
                                *config,
                            ));
                        }
                        event
                    },
                    StoreAction::AddToList(id, l) => {
                        let ghost logpre = store.log@;
                        let ghost mpre = store@;
                        let res = store.add_to_list(id, l);
                        let event = match res {
                            Ok(_) => StoreEvent::WriteDone,
                            Err(e) => StoreEvent::StoreFailed(e),
                        };
                        proof {
                            let e = spec_reconcile(ff, fsp, fal, m0, task@, *config);
                            let w1 = WriteRecordView::SetParent {
                                id: task@.id,
                                parent: grec.destination@,
                            };
                            assert(mpre.contains_key(task@.id));
                            if fal {
                                assert(l0.push(w1) =~= l0 + seq![w1]);
                            } else {
                                crate::store::lemma_log_views_push(
                                    logpre,
                                    (crate::store::WriteRecord::AddToList { id: *id, list: *l }),
                                );
                                let w2 = WriteRecordView::AddToList { id: task@.id, list: task@.list };
                                assert(l0.push(w1).push(w2) =~= l0 + seq![w1, w2]);
                            }
                            assert(driver_inv(
                                spec_step(grec, *config, event),
                                ff,
                                fsp,
                                fal,
                                m0,
                                l0,
                                store@,
                                log_views(store.log@),
                                *task,
                                *config,
                            ));
                        }
                        event
                    },
                };
                st = rec.step(config, event);
            },
        }
    }
}

/// The walking phase of a driver run stays characterized by the remaining
/// walk: whatever a fetch of `pid` brought back, the machine's answer to it
/// is the one the overall walker verdict calls for.
proof fn lemma_walking_transition(
    rec: machine::Reconciliation,
    pid: Seq<char>,
    ev: StoreEvent,
    ff: bool,
    m0: StoreView,
    task: Task,
    c: MilestoneConfig,
)
    requires
        rec.phase == Phase::Walking,
        walker_verdict(ff, m0, task@.parent, c.max_hops as nat, c) == walker_verdict(
            ff,
            m0,
            Some(pid),
            (rec.hops_left + 1) as nat,
            c,
        ),
        ev matches StoreEvent::TaskFetched(p) ==> !ff && m0.contains_key(pid) && p@ == m0[pid],
        ev matches StoreEvent::StoreFailed(err) ==> (ff && err == StoreError::StoreUnavailable) || (
        !ff && !m0.contains_key(pid) && err == StoreError::NotFound),
        !(ev matches StoreEvent::WriteDone),
    ensures
        ({
            let va = walker_verdict(ff, m0, task@.parent, c.max_hops as nat, c);
            match ev {
                StoreEvent::TaskFetched(p) => if spec_is_in_milestone_list(c, p@) {
                    va == Ok::<bool, Fault>(true)
                } else {
                    match p@.parent {
                        None => va == Ok::<bool, Fault>(false),
                        Some(gp) => if rec.hops_left == 0 {
                            va == Err::<bool, Fault>(Fault::AncestryTooDeep)
                        } else {
                            va == walker_verdict(ff, m0, Some(gp), rec.hops_left as nat, c)
                        },
                    }
                },
                StoreEvent::StoreFailed(err) => if err == StoreError::NotFound {
                    va == Err::<bool, Fault>(Fault::NotFound)
                } else {
                    va == Err::<bool, Fault>(Fault::StoreUnavailable)
                },
                StoreEvent::WriteDone => false,
            }
        }),
{
    let h = rec.hops_left as nat;
    let va = walker_verdict(ff, m0, task@.parent, c.max_hops as nat, c);
    match ev {
        StoreEvent::TaskFetched(p) => {
            assert(spec_walk(m0, Some(pid), (h + 1) as nat, c) == if spec_is_in_milestone_list(
                c,
                m0[pid],
            ) {
                WalkEnd::Milestone
            } else {
                spec_walk(m0, m0[pid].parent, h, c)
            });
            if !spec_is_in_milestone_list(c, p@) {
                match p@.parent {
                    None => {
                        assert(spec_walk(m0, m0[pid].parent, h, c) == WalkEnd::Root);
                    },
                    Some(gp) => {
                        if h == 0 {
                            assert(spec_walk(m0, m0[pid].parent, h, c) == WalkEnd::TooDeep);
                        }
                    },
                }
            }
        },
        StoreEvent::StoreFailed(err) => {
            if !ff {
                assert(spec_walk(m0, Some(pid), (h + 1) as nat, c) == WalkEnd::Missing);
            }
        },
        StoreEvent::WriteDone => {},
    }
}

/// Reconciles the task carrying `id`: fetches a fresh snapshot and applies
/// the correction it calls for. This is the entry point an inbound event's
/// task identifier goes through; at-least-once, duplicated and out-of-order
/// delivery are safe because compliance is re-derived from the store on every
/// attempt.
pub fn reconcile(store: &mut TaskStore, id: &TaskId, config: &MilestoneConfig) -> (r: Result<
    Outcome,
    ReconcileFailure,
>)
    requires
        config.wf(),
    ensures
        ({
            let e = spec_reconcile_at(
                old(store).fail_fetch,
                old(store).fail_set_parent,
                old(store).fail_add_to_list,
                old(store)@,
                id@,
                *config,
            );
            r == e.outcome && final(store)@ == e.store && log_views(final(store).log@)
                == log_views(old(store).log@) + e.writes
        }),
        final(store).fail_fetch == old(store).fail_fetch,
        final(store).fail_set_parent == old(store).fail_set_parent,
        final(store).fail_add_to_list == old(store).fail_add_to_list,
{
    let task = match store.fetch(id) {
        Ok(t) => t,
        Err(e) => {
            proof {
                assert(log_views(store.log@) + Seq::<WriteRecordView>::empty() =~= log_views(
                    store.log@,
                ));
            }
            return match e {
                StoreError::NotFound => Err(ReconcileFailure::Aborted(Fault::NotFound)),
                _ => Err(ReconcileFailure::Aborted(Fault::StoreUnavailable)),
            };
        },
    };
    make_task_subtask_of_milestone_task_if_needed(store, &task, config)
}

} // verus!
