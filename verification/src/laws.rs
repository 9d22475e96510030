//! What holds of chains of triggers, whatever their members are.
//!
//! A chain decides from the answers of its members, oldest first
//! ([`innermost`], [`label_or_own`]). The lemmas here say what that decision
//! is for every such run of answers. Which answers a member can give at all
//! is said by its [`TriggerModel`], and the second half of the lemmas says
//! what follows from that for whole chains.
use vstd::prelude::*;
use std::sync::atomic::AtomicU64;
use crate::triggers::CancelAtomic;
use crate::triggers::CancelChain;
use crate::triggers::CancelCtrlc;
use crate::triggers::CancelMemory;
use crate::triggers::CancelNever;
use crate::triggers::CancelPython;
use crate::triggers::CancelTimer;
use crate::triggers::chain_can_fire;
use crate::triggers::chain_may_blame;
use crate::triggers::chain_may_name;
use crate::triggers::flattened;
use crate::triggers::innermost;
use crate::triggers::is_innermost;
use crate::triggers::label_or_own;
use crate::triggers::lemma_innermost;
use crate::triggers::none_cancelled;
use crate::triggers::TriggerModel;

verus! {

/// The answers are answers that the members of a chain can give, member by
/// member, oldest first: "cancelled" only from a member that can be
/// cancelled.
pub open spec fn answers_fit(members: Seq<TriggerModel>, answers: Seq<bool>) -> bool {
    &&& answers.len() == members.len()
    &&& forall|i: int| 0 <= i < members.len() ==> (#[trigger] answers[i] ==> members[i].can_fire())
}

/// The label of a chain whose members gave the given answers and have the
/// given labels, oldest first: the label of the innermost cancelled member,
/// or the chain's own if no member is cancelled.
pub open spec fn chain_label(answers: Seq<bool>, labels: Seq<Seq<char>>) -> Seq<char> {
    label_or_own(
        match innermost(answers) {
            Some(i) => Some(labels[i]),
            None => None,
        },
    )
}

/// A chain is cancelled if and only if at least one of its members is,
/// whatever the members answer; an empty chain is never cancelled.
pub proof fn lemma_chain_cancelled_iff_member(answers: Seq<bool>)
    ensures
        innermost(answers) is Some <==> exists|i: int| 0 <= i < answers.len() && answers[i],
        innermost(answers) is None <==> none_cancelled(answers),
        answers.len() == 0 ==> innermost(answers) is None,
{
    lemma_innermost(answers);
    match innermost(answers) {
        Some(i) => {
            assert(answers[i]);
        },
        None => {},
    }
}

/// The innermost cancelled scope names the cause: where a member answers
/// "cancelled" and every member added after it does not, the chain is
/// cancelled and its label is that member's, whatever the members added
/// before it answer.
pub proof fn lemma_innermost_names_cause(answers: Seq<bool>, labels: Seq<Seq<char>>, i: int)
    requires
        labels.len() == answers.len(),
        0 <= i < answers.len(),
        answers[i],
        forall|j: int| i < j < answers.len() ==> !answers[j],
    ensures
        innermost(answers) == Some(i),
        chain_label(answers, labels) == labels[i],
{
    lemma_innermost(answers);
    assert(is_innermost(answers, i));
}

/// A chain none of whose members is cancelled is not cancelled, and its
/// label is its own, which is the label of no single trigger.
pub proof fn lemma_idle_chain_has_own_label(answers: Seq<bool>, labels: Seq<Seq<char>>)
    requires
        none_cancelled(answers),
    ensures
        innermost(answers) is None,
        chain_label(answers, labels) == CancelChain::own_label(),
        CancelChain::own_label() != CancelNever::own_label(),
        CancelChain::own_label() != CancelAtomic::own_label(),
        CancelChain::own_label() != CancelTimer::own_label(),
        CancelChain::own_label() != CancelCtrlc::own_label(),
        CancelChain::own_label() != CancelMemory::own_label(),
        CancelChain::own_label() != CancelPython::own_label(),
{
    lemma_chain_cancelled_iff_member(answers);
    lemma_labels_differ();
}

/// Two nested scopes, the trigger of the outer one registered first: if the
/// inner trigger is cancelled the chain is cancelled with the inner
/// trigger's label, whatever the outer one answers. If only the outer
/// trigger is cancelled the chain is cancelled with the outer trigger's
/// label. If neither is, the chain is not cancelled.
pub proof fn lemma_nested_scopes(
    outer: bool,
    inner: bool,
    outer_label: Seq<char>,
    inner_label: Seq<char>,
)
    ensures
        innermost(seq![outer, inner]) is Some <==> outer || inner,
        inner ==> chain_label(seq![outer, inner], seq![outer_label, inner_label]) == inner_label,
        outer && !inner ==> chain_label(seq![outer, inner], seq![outer_label, inner_label])
            == outer_label,
        !outer && !inner ==> chain_label(seq![outer, inner], seq![outer_label, inner_label])
            == CancelChain::own_label(),
{
    let answers = seq![outer, inner];
    let labels = seq![outer_label, inner_label];
    lemma_chain_cancelled_iff_member(answers);
    if inner {
        assert(answers[1]);
        lemma_innermost_names_cause(answers, labels, 1);
    } else if outer {
        assert(answers[0]);
        lemma_innermost_names_cause(answers, labels, 0);
    } else {
        assert(none_cancelled(answers));
    }
}

/// Inside an override no enclosing trigger is seen. The chain that
/// [`crate::never`] installs holds the trigger that never fires and nothing
/// else: it cannot be cancelled, whatever it is asked, and a checkpoint on
/// it cannot fail. A scope that is entered inside the override is cancelled
/// exactly if its own trigger is, and then with that trigger's label: a
/// checkpoint in it can fail only as a checkpoint on that trigger alone can.
pub proof fn lemma_override(trigger: TriggerModel, answers: Seq<bool>, label: Seq<char>)
    ensures
        answers_fit(seq![TriggerModel::Never], answers) ==> innermost(answers) is None,
        !TriggerModel::Chain(seq![TriggerModel::Never]).can_fire(),
        forall|cause: Seq<char>| !TriggerModel::Chain(seq![TriggerModel::Never]).may_blame(cause),
        answers_fit(seq![TriggerModel::Never, trigger], answers) ==> {
            &&& innermost(answers) is Some <==> answers[1]
            &&& answers[1] ==> chain_label(answers, seq![CancelNever::own_label(), label])
                == label
        },
        TriggerModel::Chain(seq![TriggerModel::Never, trigger]).can_fire() == trigger.can_fire(),
        forall|cause: Seq<char>|
            TriggerModel::Chain(seq![TriggerModel::Never, trigger]).may_blame(cause)
                == trigger.may_blame(cause),
{
    reveal_with_fuel(TriggerModel::can_fire, 2);
    reveal_with_fuel(TriggerModel::may_blame, 2);
    lemma_chain_cancelled_iff_member(answers);
    let alone = seq![TriggerModel::Never];
    assert(alone[0] == TriggerModel::Never);
    if answers_fit(alone, answers) {
        assert(answers[0] ==> alone[0].can_fire());
        assert(none_cancelled(answers));
    }
    if chain_can_fire(alone) {
        let i = choose|i: int| 0 <= i < alone.len() && (#[trigger] alone[i]).can_fire();
        assert(alone[i] == TriggerModel::Never);
    }
    assert forall|cause: Seq<char>| !TriggerModel::Chain(alone).may_blame(cause) by {
        if chain_may_blame(alone, cause) {
            let i = choose|i: int| 0 <= i < alone.len() && (#[trigger] alone[i]).may_blame(cause);
            assert(alone[i] == TriggerModel::Never);
        }
    }
    let nested = seq![TriggerModel::Never, trigger];
    assert(nested[0] == TriggerModel::Never);
    assert(nested[1] == trigger);
    if answers_fit(nested, answers) {
        assert(answers[0] ==> nested[0].can_fire());
        assert(!answers[0]);
        if answers[1] {
            lemma_innermost_names_cause(answers, seq![CancelNever::own_label(), label], 1);
        } else {
            assert(none_cancelled(answers));
        }
    }
    if trigger.can_fire() {
        assert(nested[1].can_fire());
    }
    if chain_can_fire(nested) {
        let i = choose|i: int| 0 <= i < nested.len() && (#[trigger] nested[i]).can_fire();
        assert(i == 1);
    }
    assert forall|cause: Seq<char>|
        TriggerModel::Chain(nested).may_blame(cause) == trigger.may_blame(cause) by {
        if trigger.may_blame(cause) {
            assert(nested[1].may_blame(cause));
        }
        if chain_may_blame(nested, cause) {
            let i = choose|i: int|
                0 <= i < nested.len() && (#[trigger] nested[i]).may_blame(cause);
            assert(i == 1);
        }
    }
}

/// A thread inside one scope: a checkpoint can fail only as a checkpoint on
/// the scope's trigger alone can. Under a timeout and nothing else, a
/// failure names the timer.
pub proof fn lemma_single_scope(trigger: TriggerModel, timer: CancelTimer)
    ensures
        TriggerModel::Chain(seq![trigger]).can_fire() == trigger.can_fire(),
        forall|cause: Seq<char>|
            TriggerModel::Chain(seq![trigger]).may_blame(cause) == trigger.may_blame(cause),
        forall|cause: Seq<char>|
            chain_may_blame(seq![TriggerModel::Timer(timer)], cause) <==> cause
                == CancelTimer::own_label(),
{
    reveal_with_fuel(TriggerModel::can_fire, 2);
    reveal_with_fuel(TriggerModel::may_blame, 2);
    let members = seq![trigger];
    assert(members[0] == trigger);
    if trigger.can_fire() {
        assert(members[0].can_fire());
    }
    if chain_can_fire(members) {
        let i = choose|i: int| 0 <= i < members.len() && (#[trigger] members[i]).can_fire();
        assert(i == 0);
    }
    assert forall|cause: Seq<char>|
        TriggerModel::Chain(members).may_blame(cause) == trigger.may_blame(cause) by {
        if trigger.may_blame(cause) {
            assert(members[0].may_blame(cause));
        }
        if chain_may_blame(members, cause) {
            let i = choose|i: int|
                0 <= i < members.len() && (#[trigger] members[i]).may_blame(cause);
            assert(i == 0);
        }
    }
    let timed = seq![TriggerModel::Timer(timer)];
    assert(timed[0] == TriggerModel::Timer(timer));
    assert forall|cause: Seq<char>|
        chain_may_blame(timed, cause) <==> cause == CancelTimer::own_label() by {
        if cause == CancelTimer::own_label() {
            assert(timed[0].may_blame(cause));
        }
        if chain_may_blame(timed, cause) {
            let i = choose|i: int| 0 <= i < timed.len() && (#[trigger] timed[i]).may_blame(cause);
            assert(i == 0);
        }
    }
}

/// Two nested scopes, seen from a checkpoint inside both: a failure names
/// what the inner trigger can name or what the outer trigger can name, and
/// nothing else.
pub proof fn lemma_nested_failure(outer: TriggerModel, inner: TriggerModel, cause: Seq<char>)
    ensures
        chain_may_blame(seq![outer, inner], cause) <==> inner.may_blame(cause)
            || outer.may_blame(cause),
{
    let members = seq![outer, inner];
    assert(members[0] == outer);
    assert(members[1] == inner);
    if inner.may_blame(cause) {
        assert(members[1].may_blame(cause));
    }
    if outer.may_blame(cause) {
        assert(members[0].may_blame(cause));
    }
    if chain_may_blame(members, cause) {
        let i = choose|i: int| 0 <= i < members.len() && (#[trigger] members[i]).may_blame(cause);
        assert(i == 0 || i == 1);
    }
}

/// A failed checkpoint names a single trigger that can be cancelled, never
/// a chain: whatever a trigger can name as the cause of its cancellation is
/// not the label that a chain has of its own, and a trigger that can name a
/// cause can be cancelled.
pub proof fn lemma_failure_never_names_the_chain(trigger: TriggerModel, cause: Seq<char>)
    requires
        trigger.may_blame(cause),
    ensures
        cause != CancelChain::own_label(),
        trigger.can_fire(),
    decreases trigger,
{
    lemma_labels_differ();
    reveal_with_fuel(TriggerModel::may_blame, 2);
    reveal_with_fuel(TriggerModel::can_fire, 2);
    match trigger {
        TriggerModel::Chain(members) => {
            assert(chain_may_blame(members, cause));
            let i = choose|i: int|
                0 <= i < members.len() && (#[trigger] members[i]).may_blame(cause);
            lemma_failure_never_names_the_chain(members[i], cause);
            assert(members[i].can_fire());
        },
        TriggerModel::Transferred(inner, _) => {
            lemma_failure_never_names_the_chain(*inner, cause);
        },
        _ => {},
    }
}

/// A chain answers "cancelled" only if it can be cancelled: if the members'
/// answers are answers they can give and one of them is "cancelled", a
/// member can be cancelled.
pub proof fn lemma_verdict_is_an_answer(members: Seq<TriggerModel>, answers: Seq<bool>)
    requires
        answers_fit(members, answers),
        innermost(answers) is Some,
    ensures
        chain_can_fire(members),
{
    lemma_innermost(answers);
    let i = innermost(answers).unwrap();
    assert(answers[i] ==> members[i].can_fire());
}

/// The labels of the triggers are all different, and none of them is the
/// label of a chain.
pub proof fn lemma_labels_differ()
    ensures
        CancelChain::own_label() != CancelNever::own_label(),
        CancelChain::own_label() != CancelAtomic::own_label(),
        CancelChain::own_label() != CancelTimer::own_label(),
        CancelChain::own_label() != CancelCtrlc::own_label(),
        CancelChain::own_label() != CancelMemory::own_label(),
        CancelChain::own_label() != CancelPython::own_label(),
        CancelNever::own_label() != CancelAtomic::own_label(),
        CancelNever::own_label() != CancelTimer::own_label(),
        CancelNever::own_label() != CancelCtrlc::own_label(),
        CancelNever::own_label() != CancelMemory::own_label(),
        CancelAtomic::own_label() != CancelTimer::own_label(),
        CancelAtomic::own_label() != CancelCtrlc::own_label(),
        CancelAtomic::own_label() != CancelMemory::own_label(),
        CancelTimer::own_label() != CancelCtrlc::own_label(),
        CancelTimer::own_label() != CancelMemory::own_label(),
        CancelCtrlc::own_label() != CancelMemory::own_label(),
        CancelPython::own_label() != CancelNever::own_label(),
        CancelPython::own_label() != CancelAtomic::own_label(),
        CancelPython::own_label() != CancelTimer::own_label(),
        CancelPython::own_label() != CancelCtrlc::own_label(),
        CancelPython::own_label() != CancelMemory::own_label(),
{
    reveal_strlit("CancelChain");
    reveal_strlit("CancelNever");
    reveal_strlit("CancelAtomic");
    reveal_strlit("CancelTimer");
    reveal_strlit("CancelCtrlc");
    reveal_strlit("CancelMemory");
    reveal_strlit("CancelPython");
    assert(CancelPython::own_label()[6] == 'P');
    assert(CancelChain::own_label()[6] == 'C');
    assert(CancelNever::own_label()[6] == 'N');
    assert(CancelAtomic::own_label()[6] == 'A');
    assert(CancelTimer::own_label()[6] == 'T');
    assert(CancelCtrlc::own_label()[7] == 't');
    assert(CancelChain::own_label()[7] == 'h');
    assert(CancelMemory::own_label()[6] == 'M');
}

/// A composite can give what its parts can give: a chain as a trigger what
/// [`chain_can_fire`], [`chain_may_blame`] and [`chain_may_name`] say of
/// its members, and a trigger that bumps a stamp what the trigger inside it
/// can give.
pub proof fn lemma_composite_answers(members: Seq<TriggerModel>, inner: TriggerModel, stamp: AtomicU64)
    ensures
        TriggerModel::Chain(members).can_fire() == chain_can_fire(members),
        forall|name: Seq<char>| #[trigger]
            TriggerModel::Chain(members).may_blame(name) == chain_may_blame(members, name),
        forall|name: Seq<char>| #[trigger]
            TriggerModel::Chain(members).may_name(name) == chain_may_name(members, name),
        TriggerModel::Transferred(Box::new(inner), stamp).can_fire() == inner.can_fire(),
        forall|name: Seq<char>| #[trigger]
            TriggerModel::Transferred(Box::new(inner), stamp).may_blame(name) == inner.may_blame(
                name,
            ),
        forall|name: Seq<char>| #[trigger]
            TriggerModel::Transferred(Box::new(inner), stamp).may_name(name) == inner.may_name(
                name,
            ),
{
}

/// Flattening changes the shape of a chain and nothing a checkpoint can
/// tell.
///
/// An empty chain flattens to the trigger that never fires. A chain of one
/// flattens to that one member. A longer chain stays a chain of the same
/// members. In every case the flattened trigger can be cancelled exactly if
/// the chain can, and can name exactly the causes that the chain can name.
pub proof fn lemma_flattened(members: Seq<TriggerModel>)
    ensures
        members.len() == 0 ==> flattened(members) == TriggerModel::Never,
        members.len() == 1 ==> flattened(members) == members[0],
        members.len() >= 2 ==> flattened(members) == TriggerModel::Chain(members),
        flattened(members).can_fire() == chain_can_fire(members),
        forall|cause: Seq<char>|
            flattened(members).may_blame(cause) == chain_may_blame(members, cause),
{
    reveal_with_fuel(TriggerModel::can_fire, 2);
    reveal_with_fuel(TriggerModel::may_blame, 2);
    if members.len() == 1 {
        if members[0].can_fire() {
            assert(chain_can_fire(members));
        }
        if chain_can_fire(members) {
            let i = choose|i: int| 0 <= i < members.len() && (#[trigger] members[i]).can_fire();
            assert(i == 0);
        }
        assert forall|cause: Seq<char>|
            flattened(members).may_blame(cause) == chain_may_blame(members, cause) by {
            if members[0].may_blame(cause) {
                assert(chain_may_blame(members, cause));
            }
            if chain_may_blame(members, cause) {
                let i = choose|i: int|
                    0 <= i < members.len() && (#[trigger] members[i]).may_blame(cause);
                assert(i == 0);
            }
        }
    }
}

/// The snapshot that a thread hands out can be cancelled exactly if the
/// thread's own chain can, and can name exactly the causes that the chain
/// can name, for every chain.
pub proof fn lemma_snapshot_answers(members: Seq<TriggerModel>, stamp: AtomicU64)
    ensures
        TriggerModel::Transferred(Box::new(flattened(members)), stamp).can_fire()
            == chain_can_fire(members),
        forall|cause: Seq<char>| #[trigger]
            TriggerModel::Transferred(Box::new(flattened(members)), stamp).may_blame(cause)
                == chain_may_blame(members, cause),
{
    lemma_composite_answers(members, flattened(members), stamp);
    lemma_flattened(members);
}

} // verus!
