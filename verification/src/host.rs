//! What carrying out a plan does to the children that the host holds, and
//! what the notifiers guarantee of it.
//!
//! The host keeps the child processes, one slot for each notifier and kind.
//! Nothing here runs: these are the statements about plans that the host may
//! rely on.

use crate::notifier::{
    after, after_all, fan_out, lemma_members, plan_of, plans_of, Call, NotifierModel,
};
use crate::request::{all_under, under, ActionView, ChildKind, RequestView};
use vstd::prelude::*;

verus! {

/// A place in which the host keeps a child: the notifier that asked for it,
/// and the kind of the child.
pub struct Slot {
    pub owner: Seq<int>,
    pub kind: ChildKind,
}

/// The children that the host holds, and whether any child was ever launched
/// into a slot that held one: such a launch would leave the earlier child
/// running with nobody to end it.
pub struct Host {
    pub held: Set<Slot>,
    pub displaced: bool,
}

/// The host after it has carried out `request`. Of a launch, `succeeded` says
/// how it went; a slot is cleared whether or not its child could be killed.
pub open spec fn perform(host: Host, request: RequestView, succeeded: bool) -> Host {
    match request.action {
        ActionView::Notify(_) => host,
        ActionView::Terminate(kind) => Host {
            held: host.held.remove(Slot { owner: request.origin, kind }),
            displaced: host.displaced,
        },
        ActionView::Spawn(kind, _) => {
            let slot = Slot { owner: request.origin, kind };
            Host {
                held: if succeeded {
                    host.held.insert(slot)
                } else {
                    host.held
                },
                displaced: host.displaced || host.held.contains(slot),
            }
        },
    }
}

/// The host after it has carried out `plan`, where `outcomes[k]` says how
/// `plan[k]` went.
pub open spec fn perform_all(host: Host, plan: Seq<RequestView>, outcomes: Seq<bool>) -> Host
    decreases plan.len(),
{
    if plan.len() == 0 {
        host
    } else {
        perform(
            perform_all(host, plan.drop_last(), outcomes.drop_last()),
            plan.last(),
            outcomes.last(),
        )
    }
}

/// A host that holds `held` and has displaced nothing.
pub open spec fn holding(held: Set<Slot>) -> Host {
    Host { held, displaced: false }
}

/// The slots in which `model` takes a child to be running.
pub open spec fn in_use(model: NotifierModel) -> Set<Slot>
    decreases model,
{
    match model {
        NotifierModel::Banner { .. } => Set::empty(),
        NotifierModel::Dialog { dialog_child, sound_child, .. } => Set::new(
            |slot: Slot|
                slot.owner.len() == 0 && match slot.kind {
                    ChildKind::Dialog => dialog_child,
                    ChildKind::Sound => sound_child,
                },
        ),
        NotifierModel::Composite { members } => Set::new(
            |slot: Slot|
                if slot.owner.len() > 0 && 0 <= slot.owner.last() < members.len() {
                    in_use(members[slot.owner.last()]).contains(
                        Slot { owner: slot.owner.drop_last(), kind: slot.kind },
                    )
                } else {
                    false
                },
        ),
    }
}

/// Whether `model` takes no child to be running, so that no prompt of its is
/// active.
pub open spec fn idle(model: NotifierModel) -> bool {
    in_use(model) =~= Set::empty()
}

/// How many members `model` has; none unless it is a composite.
spec fn member_count(model: NotifierModel) -> nat {
    match model {
        NotifierModel::Composite { members } => members.len(),
        _ => 0,
    }
}

/// The composite of `members`.
spec fn composite(members: Seq<NotifierModel>) -> NotifierModel {
    NotifierModel::Composite { members }
}

/// `slot` as its owner sees it, when the owner is a member of a composite.
spec fn from_within(slot: Slot) -> Slot {
    Slot { owner: slot.owner.drop_last(), kind: slot.kind }
}

/// Whether the host is left in order by `call` on `model`, carried out from
/// `held` with `outcomes`: nothing was displaced, and children are held only
/// where the notifier takes one to be running after the call.
pub open spec fn left_in_order(
    call: Call,
    model: NotifierModel,
    held: Set<Slot>,
    outcomes: Seq<bool>,
) -> bool {
    let host = perform_all(holding(held), plan_of(call, model), outcomes);
    &&& !host.displaced
    &&& host.held.subset_of(in_use(after(call, model)))
}

/// Whether `slot` belongs to a member of `members` that takes a child to be
/// running in it: after `call` if the member stands before `k`, else as it is.
spec fn expected_by_member(
    call: Call,
    members: Seq<NotifierModel>,
    k: int,
    slot: Slot,
) -> bool {
    &&& slot.owner.len() > 0
    &&& 0 <= slot.owner.last() < members.len()
    &&& in_use(
        if slot.owner.last() < k {
            after(call, members[slot.owner.last()])
        } else {
            members[slot.owner.last()]
        },
    ).contains(from_within(slot))
}

/// The slots of `held` that belong to the member at `position` of a
/// composite, as that member sees them.
spec fn inside(held: Set<Slot>, position: int) -> Set<Slot> {
    Set::new(|slot: Slot| held.contains(Slot { owner: slot.owner.push(position), kind: slot.kind }))
}

/// Whether `slot` belongs to the member at `position` of a composite.
spec fn is_under(slot: Slot, position: int) -> bool {
    slot.owner.len() > 0 && slot.owner.last() == position
}

/// Carrying out one plan and then another is carrying out both on end.
proof fn lemma_perform_concat(
    host: Host,
    first: Seq<RequestView>,
    second: Seq<RequestView>,
    first_outcomes: Seq<bool>,
    second_outcomes: Seq<bool>,
)
    requires
        first_outcomes.len() == first.len(),
        second_outcomes.len() == second.len(),
    ensures
        perform_all(host, first + second, first_outcomes + second_outcomes) == perform_all(
            perform_all(host, first, first_outcomes),
            second,
            second_outcomes,
        ),
    decreases second.len(),
{
    if second.len() == 0 {
        assert(first + second =~= first);
        assert(first_outcomes + second_outcomes =~= first_outcomes);
    } else {
        lemma_perform_concat(
            host,
            first,
            second.drop_last(),
            first_outcomes,
            second_outcomes.drop_last(),
        );
        assert((first + second).drop_last() =~= first + second.drop_last());
        assert((first_outcomes + second_outcomes).drop_last() =~= first_outcomes
            + second_outcomes.drop_last());
        assert((first + second).last() == second.last());
        assert((first_outcomes + second_outcomes).last() == second_outcomes.last());
    }
}

/// The plan of a member touches the slots of that member alone, and does to
/// them what it does to the member's own slots when the member is called by
/// itself.
proof fn lemma_perform_under(host: Host, position: int, plan: Seq<RequestView>, outcomes: Seq<bool>)
    requires
        outcomes.len() == plan.len(),
    ensures
        ({
            let outer = perform_all(host, all_under(position, plan), outcomes);
            let inner = perform_all(
                Host { held: inside(host.held, position), displaced: host.displaced },
                plan,
                outcomes,
            );
            &&& inside(outer.held, position) =~= inner.held
            &&& outer.displaced == inner.displaced
            &&& forall|slot: Slot|
                !is_under(slot, position) ==> (outer.held.contains(slot) <==> host.held.contains(
                    slot,
                ))
        }),
    decreases plan.len(),
{
    if plan.len() == 0 {
        assert(all_under(position, plan) =~= Seq::empty());
    } else {
        lemma_perform_under(host, position, plan.drop_last(), outcomes.drop_last());
        let outer_plan = all_under(position, plan);
        assert(outer_plan.drop_last() =~= all_under(position, plan.drop_last()));
        assert(outer_plan.last() == under(position, plan.last()));
        let outer_before = perform_all(host, outer_plan.drop_last(), outcomes.drop_last());
        let inner_before = perform_all(
            Host { held: inside(host.held, position), displaced: host.displaced },
            plan.drop_last(),
            outcomes.drop_last(),
        );
        let outer = perform(outer_before, outer_plan.last(), outcomes.last());
        let inner = perform(inner_before, plan.last(), outcomes.last());
        let request = plan.last();
        assert forall|slot: Slot| #[trigger]
            inside(outer.held, position).contains(slot) == inner.held.contains(slot) by {
            let up = Slot { owner: slot.owner.push(position), kind: slot.kind };
            assert(inside(outer_before.held, position).contains(slot) == outer_before.held.contains(
                up,
            ));
            assert(up.owner.drop_last() =~= slot.owner);
            assert(request.origin.push(position).drop_last() =~= request.origin);
        }
        match request.action {
            ActionView::Notify(_) => {},
            ActionView::Terminate(kind) => {},
            ActionView::Spawn(kind, _) => {
                let mine = Slot { owner: request.origin, kind };
                let up = Slot { owner: request.origin.push(position), kind };
                assert(inside(outer_before.held, position).contains(mine)
                    == outer_before.held.contains(up));
            },
        }
    }
}

/// The slots of a member before the composite reaches it are those that the
/// member takes to be in use.
proof fn lemma_member_slots(
    call: Call,
    members: Seq<NotifierModel>,
    k: int,
    held: Set<Slot>,
)
    requires
        0 < k <= members.len(),
        forall|slot: Slot| held.contains(slot) ==> expected_by_member(call, members, k - 1, slot),
    ensures
        inside(held, k - 1).subset_of(in_use(members[k - 1])),
{
    let own = inside(held, k - 1);
    let claimed = in_use(members[k - 1]);
    assert forall|slot: Slot| #[trigger] own.contains(slot) implies claimed.contains(slot) by {
        let up = Slot { owner: slot.owner.push(k - 1), kind: slot.kind };
        assert(held.contains(up));
        assert(expected_by_member(call, members, k - 1, up));
        assert(from_within(up).owner =~= slot.owner);
    }
}

/// Once the member before `k` has been called and has left its own slots in
/// order, the slots of all members are as expected at `k`.
proof fn lemma_member_step(
    call: Call,
    members: Seq<NotifierModel>,
    k: int,
    reached: Host,
    outcomes: Seq<bool>,
)
    requires
        0 < k <= members.len(),
        outcomes.len() == plan_of(call, members[k - 1]).len(),
        !reached.displaced,
        forall|slot: Slot|
            reached.held.contains(slot) ==> expected_by_member(call, members, k - 1, slot),
        left_in_order(call, members[k - 1], inside(reached.held, k - 1), outcomes),
    ensures
        !perform_all(reached, all_under(k - 1, plan_of(call, members[k - 1])), outcomes).displaced,
        forall|slot: Slot|
            perform_all(
                reached,
                all_under(k - 1, plan_of(call, members[k - 1])),
                outcomes,
            ).held.contains(slot) ==> expected_by_member(call, members, k, slot),
{
    let part = plan_of(call, members[k - 1]);
    let host = perform_all(reached, all_under(k - 1, part), outcomes);
    lemma_perform_under(reached, k - 1, part, outcomes);
    let inner = perform_all(holding(inside(reached.held, k - 1)), part, outcomes);
    assert(inside(host.held, k - 1) == inner.held);
    assert forall|slot: Slot| host.held.contains(slot) implies expected_by_member(
        call,
        members,
        k,
        slot,
    ) by {
        if is_under(slot, k - 1) {
            let down = from_within(slot);
            assert(down.owner.push(k - 1) =~= slot.owner);
            assert(inside(host.held, k - 1).contains(down));
            assert(inner.held.contains(down));
            assert(in_use(after(call, members[k - 1])).contains(down));
        } else {
            assert(reached.held.contains(slot));
            assert(expected_by_member(call, members, k - 1, slot));
        }
    }
}

/// The plans of the first `k` members of a composite displace nothing, and
/// leave in each member's slots only what that member takes to be running:
/// after the call for the members that were reached, as before for the rest.
proof fn lemma_fan_out_keeps_slots(
    call: Call,
    members: Seq<NotifierModel>,
    k: int,
    held: Set<Slot>,
    outcomes: Seq<bool>,
)
    requires
        0 <= k <= members.len(),
        held.subset_of(in_use(composite(members))),
        outcomes.len() == fan_out(plans_of(call, members).take(k)).len(),
    ensures
        !perform_all(holding(held), fan_out(plans_of(call, members).take(k)), outcomes).displaced,
        forall|slot: Slot|
            perform_all(
                holding(held),
                fan_out(plans_of(call, members).take(k)),
                outcomes,
            ).held.contains(slot) ==> expected_by_member(call, members, k, slot),
    decreases composite(members), k,
{
    lemma_members(call, members);
    let plans = plans_of(call, members);
    if k == 0 {
        assert(plans.take(0) =~= Seq::empty());
        assert(fan_out(plans.take(0)) =~= Seq::empty());
        assert forall|slot: Slot| held.contains(slot) implies expected_by_member(
            call,
            members,
            0,
            slot,
        ) by {
            assert(in_use(composite(members)).contains(slot));
        }
    } else {
        let upto = plans.take(k);
        let earlier = fan_out(plans.take(k - 1));
        let part = plans[k - 1];
        assert(part == plan_of(call, members[k - 1]));
        assert(upto.drop_last() =~= plans.take(k - 1));
        assert(upto.last() == part);
        assert(fan_out(upto) == earlier + all_under(k - 1, part));
        assert(all_under(k - 1, part).len() == part.len());
        let earlier_outcomes = outcomes.take(earlier.len() as int);
        let part_outcomes = outcomes.skip(earlier.len() as int);
        assert(outcomes =~= earlier_outcomes + part_outcomes);
        lemma_fan_out_keeps_slots(call, members, k - 1, held, earlier_outcomes);
        let reached = perform_all(holding(held), earlier, earlier_outcomes);
        lemma_perform_concat(
            holding(held),
            earlier,
            all_under(k - 1, part),
            earlier_outcomes,
            part_outcomes,
        );
        lemma_member_slots(call, members, k, reached.held);
        lemma_no_child_is_displaced(
            call,
            members[k - 1],
            inside(reached.held, k - 1),
            part_outcomes,
        );
        lemma_member_step(call, members, k, reached, part_outcomes);
    }
}

/// `law_no_child_is_displaced`, by induction over the members of composites.
proof fn lemma_no_child_is_displaced(
    call: Call,
    model: NotifierModel,
    held: Set<Slot>,
    outcomes: Seq<bool>,
)
    requires
        held.subset_of(in_use(model)),
        outcomes.len() == plan_of(call, model).len(),
    ensures
        left_in_order(call, model, held, outcomes),
    decreases model, member_count(model) + 1,
{
    match model {
        NotifierModel::Banner { sound, icon } => {
            reveal_with_fuel(perform_all, 2);
            assert(held =~= Set::empty());
        },
        NotifierModel::Dialog { sound, icon, dialog_child, sound_child } => {
            lemma_dialog_keeps_slots(call, model, held, outcomes);
        },
        NotifierModel::Composite { members } => {
            lemma_members(call, members);
            let plans = plans_of(call, members);
            assert(plans.take(members.len() as int) =~= plans);
            lemma_fan_out_keeps_slots(call, members, members.len() as int, held, outcomes);
            let host = perform_all(holding(held), plan_of(call, model), outcomes);
            let later = after_all(call, members);
            assert(after(call, model) == composite(later));
            assert forall|slot: Slot| host.held.contains(slot) implies in_use(
                composite(later),
            ).contains(slot) by {
                assert(expected_by_member(call, members, members.len() as int, slot));
                let position = slot.owner.last();
                assert(later[position] == after(call, members[position]));
                assert(in_use(later[position]).contains(from_within(slot)));
            }
        },
    }
}

/// `law_no_child_is_displaced` for the notifier that holds children itself.
proof fn lemma_dialog_keeps_slots(
    call: Call,
    model: NotifierModel,
    held: Set<Slot>,
    outcomes: Seq<bool>,
)
    requires
        (model is Dialog),
        held.subset_of(in_use(model)),
        outcomes.len() == plan_of(call, model).len(),
    ensures
        left_in_order(call, model, held, outcomes),
{
    let plan = plan_of(call, model);
    reveal_with_fuel(perform_all, 5);
    let dialog = Slot { owner: Seq::empty(), kind: ChildKind::Dialog };
    let sound = Slot { owner: Seq::empty(), kind: ChildKind::Sound };
    assert forall|slot: Slot| held.contains(slot) implies slot == dialog || slot == sound by {
        assert(in_use(model).contains(slot));
        assert(slot.owner =~= Seq::empty());
    }
    let host = perform_all(holding(held), plan, outcomes);
    assert forall|slot: Slot| host.held.contains(slot) implies slot == dialog || slot == sound by {
    }
}

/// No call leaves a child behind: if the host holds children only where the
/// notifier takes one to be running, then however the launches of a plan go,
/// the plan launches no child into a slot that holds one, and afterwards the
/// host again holds children only where the notifier takes one to be
/// running. Each slot thus holds one child at most, however often
/// `notify_touch_needed` is called in succession.
pub proof fn law_no_child_is_displaced(
    call: Call,
    model: NotifierModel,
    held: Set<Slot>,
    outcomes: Seq<bool>,
)
    requires
        held.subset_of(in_use(model)),
        outcomes.len() == plan_of(call, model).len(),
    ensures
        left_in_order(call, model, held, outcomes),
{
    lemma_no_child_is_displaced(call, model, held, outcomes);
}

/// Calling `notify_touch_needed` twice in succession, with no `dismiss` in
/// between, displaces no child: whatever the first call launched is ended
/// before the second call launches anything in its place, so that each slot
/// holds one child at most.
pub proof fn law_repeated_notify_keeps_one_child_per_slot(
    model: NotifierModel,
    held: Set<Slot>,
    first: Seq<bool>,
    second: Seq<bool>,
)
    requires
        held.subset_of(in_use(model)),
        first.len() == plan_of(Call::Notify, model).len(),
        second.len() == plan_of(Call::Notify, after(Call::Notify, model)).len(),
    ensures
        left_in_order(
            Call::Notify,
            after(Call::Notify, model),
            perform_all(holding(held), plan_of(Call::Notify, model), first).held,
            second,
        ),
        perform_all(holding(held), plan_of(Call::Notify, model), first) == holding(
            perform_all(holding(held), plan_of(Call::Notify, model), first).held,
        ),
{
    law_no_child_is_displaced(Call::Notify, model, held, first);
    let once = perform_all(holding(held), plan_of(Call::Notify, model), first);
    law_no_child_is_displaced(Call::Notify, after(Call::Notify, model), once.held, second);
}

/// After `dismiss` a notifier takes no child to be running.
pub proof fn law_dismiss_leaves_idle(model: NotifierModel)
    ensures
        idle(after(Call::Dismiss, model)),
    decreases model,
{
    match model {
        NotifierModel::Composite { members } => {
            lemma_members(Call::Dismiss, members);
            let later = after_all(Call::Dismiss, members);
            assert forall|slot: Slot| !in_use(composite(later)).contains(slot) by {
                if slot.owner.len() > 0 && 0 <= slot.owner.last() < later.len() {
                    law_dismiss_leaves_idle(members[slot.owner.last()]);
                    assert(!in_use(later[slot.owner.last()]).contains(from_within(slot)));
                }
            }
        },
        _ => {},
    }
}

/// Every member of an idle composite is idle.
proof fn lemma_idle_members(members: Seq<NotifierModel>, i: int)
    requires
        idle(composite(members)),
        0 <= i < members.len(),
    ensures
        idle(members[i]),
{
    assert forall|slot: Slot| !in_use(members[i]).contains(slot) by {
        let up = Slot { owner: slot.owner.push(i), kind: slot.kind };
        assert(from_within(up).owner =~= slot.owner);
        assert(!in_use(composite(members)).contains(up));
    }
}

/// The plans of members that ask for nothing come to nothing.
proof fn lemma_fan_out_of_nothing(plans: Seq<Seq<RequestView>>)
    requires
        forall|i: int| 0 <= i < plans.len() ==> plans[i].len() == 0,
    ensures
        fan_out(plans) == Seq::<RequestView>::empty(),
    decreases plans.len(),
{
    if plans.len() > 0 {
        lemma_fan_out_of_nothing(plans.drop_last());
        assert(all_under(plans.len() - 1, plans.last()) =~= Seq::empty());
        assert(fan_out(plans) =~= Seq::empty());
    }
}

/// `dismiss` with no active prompt is a no-op: it asks nothing of the host
/// and leaves the notifier as it is. Together with `law_dismiss_leaves_idle`
/// this makes `dismiss` idempotent.
pub proof fn law_dismiss_when_idle_is_noop(model: NotifierModel)
    requires
        idle(model),
    ensures
        plan_of(Call::Dismiss, model) == Seq::<RequestView>::empty(),
        after(Call::Dismiss, model) == model,
    decreases model,
{
    match model {
        NotifierModel::Banner { .. } => {},
        NotifierModel::Dialog { sound, icon, dialog_child, sound_child } => {
            let dialog = Slot { owner: Seq::empty(), kind: ChildKind::Dialog };
            let sound = Slot { owner: Seq::empty(), kind: ChildKind::Sound };
            assert(!in_use(model).contains(dialog));
            assert(!in_use(model).contains(sound));
            assert(plan_of(Call::Dismiss, model) =~= Seq::empty());
        },
        NotifierModel::Composite { members } => {
            lemma_members(Call::Dismiss, members);
            let plans = plans_of(Call::Dismiss, members);
            let later = after_all(Call::Dismiss, members);
            assert forall|i: int| 0 <= i < members.len() implies plans[i].len() == 0 && later[i]
                == members[i] by {
                lemma_idle_members(members, i);
                law_dismiss_when_idle_is_noop(members[i]);
            }
            lemma_fan_out_of_nothing(plans);
            assert(later =~= members);
        },
    }
}

} // verus!
