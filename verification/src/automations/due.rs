//! Wakeups that are due, and the order in which they are dispatched.

use crate::automations::domain::{
    ControlPlaneState, ManagedAutomationModel, RevisionId, ScheduledWakeupModel,
};
use crate::model::FaithfulClone;
use crate::ordered_map::{text_before, KeyPosition, OrderedKey};
use vstd::prelude::*;

verus! {

/// A scheduled wakeup whose time has come.
#[derive(Debug, PartialEq)]
pub struct DueWakeup {
    pub automation_id: String,
    pub revision_id: RevisionId,
    pub wakeup_id: String,
    pub at: i64,
}

/// What a [`DueWakeup`] holds.
#[verifier::ext_equal]
pub struct DueWakeupModel {
    pub automation_id: Seq<char>,
    pub revision_id: RevisionId,
    pub wakeup_id: Seq<char>,
    pub at: i64,
}

impl DeepView for DueWakeup {
    type V = DueWakeupModel;

    open spec fn deep_view(&self) -> DueWakeupModel {
        DueWakeupModel {
            automation_id: self.automation_id.deep_view(),
            revision_id: self.revision_id,
            wakeup_id: self.wakeup_id.deep_view(),
            at: self.at,
        }
    }
}

impl Clone for DueWakeup {
    fn clone(&self) -> (copy: Self)
        ensures
            copy.deep_view() == self.deep_view(),
    {
        let copy = DueWakeup {
            automation_id: self.automation_id.clone(),
            revision_id: self.revision_id,
            wakeup_id: self.wakeup_id.clone(),
            at: self.at,
        };
        copy
    }
}

impl FaithfulClone for DueWakeup {
    proof fn clone_keeps_model(original: Self, copy: Self) {
    }
}

/// The wakeups of one automation that are due at `now`, in the order of their names.
pub open spec fn due_in(
    automation_id: Seq<char>,
    automation: ManagedAutomationModel,
    now: i64,
) -> Seq<DueWakeupModel> {
    automation.scheduled_wakeups.filter(
        |entry: (Seq<char>, ScheduledWakeupModel)| entry.1.at <= now,
    ).map_values(
        |entry: (Seq<char>, ScheduledWakeupModel)|
            DueWakeupModel {
                automation_id,
                revision_id: match automation.active_revision_id {
                    Some(revision_id) => revision_id,
                    None => 0,
                },
                wakeup_id: entry.1.wakeup_id,
                at: entry.1.at,
            },
    )
}

/// The wakeups of all `automations` that are due at `now`.
pub open spec fn due_of(
    automations: Seq<(Seq<char>, ManagedAutomationModel)>,
    now: i64,
) -> Seq<DueWakeupModel>
    decreases automations.len(),
{
    if automations.len() == 0 {
        Seq::empty()
    } else {
        due_of(automations.drop_last(), now) + due_in(
            automations.last().0,
            automations.last().1,
            now,
        )
    }
}

/// Whether `a` is dispatched before `b`: by time, then by automation, then by name.
pub open spec fn due_before(a: DueWakeupModel, b: DueWakeupModel) -> bool {
    ||| a.at < b.at
    ||| a.at == b.at && text_before(a.automation_id, b.automation_id)
    ||| a.at == b.at && a.automation_id == b.automation_id && text_before(a.wakeup_id, b.wakeup_id)
}

/// Whether `due` is in the order of dispatch.
pub open spec fn in_due_order(due: Seq<DueWakeupModel>) -> bool {
    forall|i: int, j: int|
        0 <= i < j < due.len() ==> !due_before(#[trigger] due[j], #[trigger] due[i])
}

/// `due_before` is transitive.
pub proof fn due_before_is_transitive(a: DueWakeupModel, b: DueWakeupModel, c: DueWakeupModel)
    requires
        due_before(a, b),
        due_before(b, c),
    ensures
        due_before(a, c),
{
    <String as OrderedKey>::before_is_transitive(
        a.automation_id,
        b.automation_id,
        c.automation_id,
    );
    <String as OrderedKey>::before_is_transitive(a.wakeup_id, b.wakeup_id, c.wakeup_id);
}

impl DueWakeup {
    /// Whether this wakeup is dispatched before `other`.
    pub fn comes_before(&self, other: &DueWakeup) -> (before: bool)
        ensures
            before == due_before(self.deep_view(), other.deep_view()),
            self.at < other.at ==> before,
            self.at > other.at ==> !before,
            self.at == other.at && text_before(self.automation_id@, other.automation_id@) ==> before,
            self.at == other.at && self.automation_id@ == other.automation_id@ ==> before
                == text_before(self.wakeup_id@, other.wakeup_id@),
    {
        if self.at < other.at {
            return true;
        }
        if self.at > other.at {
            return false;
        }
        proof {
            <String as OrderedKey>::before_is_strict(self.automation_id@, other.automation_id@);
            <String as OrderedKey>::before_is_strict(other.automation_id@, self.automation_id@);
            <String as OrderedKey>::before_is_strict(self.wakeup_id@, other.wakeup_id@);
            <String as OrderedKey>::before_is_strict(other.wakeup_id@, self.wakeup_id@);
        }
        match self.automation_id.position(&other.automation_id) {
            KeyPosition::Before => true,
            KeyPosition::Same => match self.wakeup_id.position(&other.wakeup_id) {
                KeyPosition::Before => true,
                _ => false,
            },
            _ => false,
        }
    }
}

/// Put `wakeup` at its place in the order of dispatch.
fn insert_due(due: &mut Vec<DueWakeup>, wakeup: DueWakeup)
    requires
        in_due_order(old(due).deep_view()),
    ensures
        in_due_order(final(due).deep_view()),
        final(due).deep_view().to_multiset() == old(due).deep_view().to_multiset().insert(
            wakeup.deep_view(),
        ),
        exists|p: int| 0 <= p <= old(due)@.len() && final(due)@ == #[trigger] old(due)@.insert(
            p,
            wakeup,
        ),
{
    let ghost before = due.deep_view();
    let ghost item = wakeup.deep_view();
    let mut p: usize = 0;
    while p < due.len() && !wakeup.comes_before(&due[p])
        invariant
            p <= due.len(),
            before == due.deep_view(),
            item == wakeup.deep_view(),
            forall|i: int| 0 <= i < p ==> !due_before(item, #[trigger] before[i]),
        decreases due.len() - p,
    {
        assert(before[p as int] == due@[p as int].deep_view());
        p += 1;
    }
    proof {
        if p < due.len() {
            assert(before[p as int] == due@[p as int].deep_view());
            assert forall|j: int| p <= j < before.len() implies !due_before(
                #[trigger] before[j],
                item,
            ) by {
                if due_before(before[j], item) {
                    due_before_is_transitive(before[j], item, before[p as int]);
                    if j == p {
                        due_before_is_irreflexive(before[j]);
                    }
                }
            }
        }
    }
    due.insert(p, wakeup);
    let ghost after = due.deep_view();
    proof {
        assert(after =~= before.insert(p as int, item));
        assert(after.remove(p as int) =~= before);
        broadcast use vstd::seq_lib::group_to_multiset_ensures;
        broadcast use vstd::multiset::group_multiset_axioms;

        assert(after[p as int] == item);
        assert(after.contains(item));
        assert(after.to_multiset().count(item) > 0);
        assert(after.remove(p as int).to_multiset() == after.to_multiset().remove(item));
        assert(after.to_multiset() =~= before.to_multiset().insert(item));
    }
}

/// No wakeup is dispatched before itself.
pub proof fn due_before_is_irreflexive(a: DueWakeupModel)
    ensures
        !due_before(a, a),
{
    <String as OrderedKey>::before_is_strict(a.automation_id, a.automation_id);
    <String as OrderedKey>::before_is_strict(a.wakeup_id, a.wakeup_id);
}

impl ControlPlaneState {
    /// The wakeups that are due at `now`, in the order of dispatch.
    pub fn due_wakeups(&self, now: i64) -> (due: Vec<DueWakeup>)
        ensures
            in_due_order(due.deep_view()),
            due.deep_view().to_multiset() == due_of(
                self.deep_view().automations,
                now,
            ).to_multiset(),
            forall|i: int, j: int|
                0 <= i < j < due@.len() ==> (#[trigger] due@[i]).at <= (#[trigger] due@[j]).at,
            forall|i: int, j: int|
                0 <= i < j < due@.len() && (#[trigger] due@[i]).at == (#[trigger] due@[j]).at
                    ==> due@[i].automation_id@ == due@[j].automation_id@ || text_before(
                    due@[i].automation_id@,
                    due@[j].automation_id@,
                ),
            forall|i: int, j: int|
                0 <= i < j < due@.len() && (#[trigger] due@[i]).at == (#[trigger] due@[j]).at
                    && due@[i].automation_id@ == due@[j].automation_id@ ==> due@[i].wakeup_id@
                    == due@[j].wakeup_id@ || text_before(due@[i].wakeup_id@, due@[j].wakeup_id@),
            forall|i: int| 0 <= i < due@.len() ==> (#[trigger] due@[i]).at <= now,
    {
        let ghost automations = self.deep_view().automations;
        let mut due: Vec<DueWakeup> = Vec::new();
        let mut i: usize = 0;
        assert(automations.take(0) =~= Seq::empty());
        assert(due.deep_view() =~= Seq::empty());
        while i < self.automations.len()
            invariant
                i <= automations.len(),
                automations == self.automations.deep_view(),
                in_due_order(due.deep_view()),
                forall|k: int| 0 <= k < due@.len() ==> (#[trigger] due@[k]).at <= now,
                due.deep_view().to_multiset() == due_of(
                    automations.take(i as int),
                    now,
                ).to_multiset(),
            decreases automations.len() - i,
        {
            let automation_id = self.automations.key_at(i);
            let automation = self.automations.value_at(i);
            let revision_id: RevisionId = match automation.active_revision_id {
                Some(revision_id) => revision_id,
                None => 0,
            };
            let ghost wakeups = automation.scheduled_wakeups.deep_view();
            let ghost is_due = |entry: (Seq<char>, ScheduledWakeupModel)| entry.1.at <= now;
            let ghost as_due = |entry: (Seq<char>, ScheduledWakeupModel)|
                DueWakeupModel {
                    automation_id: automation_id@,
                    revision_id,
                    wakeup_id: entry.1.wakeup_id,
                    at: entry.1.at,
                };
            let ghost earlier = due_of(automations.take(i as int), now);
            let mut j: usize = 0;
            proof {
                assert(wakeups.take(0).filter(is_due).map_values(as_due) =~= Seq::empty()) by {
                    reveal(Seq::filter);
                }
                assert(earlier + Seq::<DueWakeupModel>::empty() =~= earlier);
            }
            while j < automation.scheduled_wakeups.len()
                invariant
                    j <= wakeups.len(),
                    wakeups == automation.scheduled_wakeups.deep_view(),
                    is_due == (|entry: (Seq<char>, ScheduledWakeupModel)| entry.1.at <= now),
                    as_due == (|entry: (Seq<char>, ScheduledWakeupModel)|
                        DueWakeupModel {
                            automation_id: automation_id@,
                            revision_id,
                            wakeup_id: entry.1.wakeup_id,
                            at: entry.1.at,
                        }),
                    in_due_order(due.deep_view()),
                    forall|k: int| 0 <= k < due@.len() ==> (#[trigger] due@[k]).at <= now,
                    due.deep_view().to_multiset() == (earlier + wakeups.take(j as int).filter(
                        is_due,
                    ).map_values(as_due)).to_multiset(),
                decreases wakeups.len() - j,
            {
                let wakeup = automation.scheduled_wakeups.value_at(j);
                let ghost found = wakeups.take(j as int).filter(is_due).map_values(as_due);
                proof {
                    reveal(Seq::filter);
                    assert(wakeups.take(j + 1).drop_last() =~= wakeups.take(j as int));
                }
                if wakeup.at <= now {
                    insert_due(
                        &mut due,
                        DueWakeup {
                            automation_id: automation_id.clone(),
                            revision_id,
                            wakeup_id: wakeup.wakeup_id.clone(),
                            at: wakeup.at,
                        },
                    );
                    proof {
                        let item = as_due(wakeups[j as int]);
                        assert(wakeups.take(j + 1).filter(is_due).map_values(as_due) =~= found.push(
                            item,
                        ));
                        assert(earlier + found.push(item) =~= (earlier + found).push(item));
                        vstd::seq_lib::to_multiset_build(earlier + found, item);
                    }
                }
                j += 1;
            }
            proof {
                assert(wakeups.take(j as int) =~= wakeups);
                assert(automations.take(i + 1).drop_last() =~= automations.take(i as int));
                assert(automations.take(i + 1).last() == (
                    automation_id@,
                    automation.deep_view(),
                ));
                assert(due_in(automation_id@, automation.deep_view(), now) =~= wakeups.filter(
                    is_due,
                ).map_values(as_due));
            }
            i += 1;
        }
        assert(automations.take(i as int) =~= automations);
        proof {
            let listed = due.deep_view();
            assert forall|a: int, b: int| 0 <= a < b < due@.len() implies !due_before(
                (#[trigger] due@[b]).deep_view(),
                (#[trigger] due@[a]).deep_view(),
            ) by {
                assert(listed[a] == due@[a].deep_view());
                assert(listed[b] == due@[b].deep_view());
            }
            assert forall|a: int, b: int| 0 <= a < b < due@.len() implies {
                &&& (#[trigger] due@[a]).at <= (#[trigger] due@[b]).at
                &&& due@[a].at == due@[b].at ==> due@[a].automation_id@ == due@[b].automation_id@
                    || text_before(due@[a].automation_id@, due@[b].automation_id@)
                &&& due@[a].at == due@[b].at && due@[a].automation_id@ == due@[b].automation_id@
                    ==> due@[a].wakeup_id@ == due@[b].wakeup_id@ || text_before(
                    due@[a].wakeup_id@,
                    due@[b].wakeup_id@,
                )
            } by {
                <String as OrderedKey>::before_is_total(
                    due@[a].automation_id@,
                    due@[b].automation_id@,
                );
                <String as OrderedKey>::before_is_total(due@[a].wakeup_id@, due@[b].wakeup_id@);
            }
        }
        due
    }
}

}
