use vstd::prelude::*;
use crate::error::Cancelled;
use crate::on_trigger;
use crate::ThreadTrigger;
use crate::triggers::CancelChain;
use crate::triggers::CancellationTrigger;
use crate::triggers::DynamicCancellationTrigger;
use crate::triggers::TriggerModel;

verus! {

/// The state in which [`never`] runs its action: a chain that holds the
/// trigger that never fires and nothing else, and the same stamp.
pub open spec fn overridden(before: ThreadTrigger, inside: ThreadTrigger) -> bool {
    &&& inside.chain() == seq![TriggerModel::Never]
    &&& inside.stamp() == before.stamp()
}

/// Runs `action` with the triggers of all enclosing scopes set aside, so
/// that none of them can cancel it.
///
/// The thread's whole chain is replaced by an empty one, the action runs in
/// a scope of the trigger that never fires, and then the chain that was set
/// aside is put back, whatever the action left behind. A scope that the
/// action itself enters applies to what runs inside of it as usual. Calls
/// may nest: each call puts back what it set aside itself.
pub fn never<TResult, TError, TAction>(scope: &mut ThreadTrigger, action: TAction) -> (r: Result<
    TResult,
    TError,
>) where
    TAction: FnOnce(&mut ThreadTrigger) -> Result<TResult, TError>,
    TError: From<Cancelled>,

    requires
        forall|inside: &mut ThreadTrigger|
            overridden(*old(scope), *inside) ==> call_requires(action, (inside,)),
    ensures
        final(scope).chain() == old(scope).chain(),
        exists|inside: &mut ThreadTrigger|
            {
                &&& overridden(*old(scope), *inside)
                &&& #[trigger] call_ensures(action, (inside,), r)
                &&& final(scope).stamp() == final(inside).stamp()
            },
{
    let set_aside = scope.replace_inner(CancelChain::new());
    assert(Seq::<TriggerModel>::empty().push(TriggerModel::Never) =~= seq![TriggerModel::Never]);
    assert(CancelNever.model() == TriggerModel::Never);
    assert forall|inside: &mut ThreadTrigger|
        crate::scope_entered(*scope, TriggerModel::Never, *inside) implies call_requires(
        action,
        (inside,),
    ) by {
        assert(overridden(*old(scope), *inside));
    }
    let result = on_trigger(scope, CancelNever, action);
    scope.replace_inner(set_aside);
    result
}

/// The trigger that is never cancelled.
///
/// It is what an empty chain flattens to and what [`never`] installs in
/// place of the enclosing scopes.
#[derive(Debug, Clone, Copy, Default)]
pub struct CancelNever;

impl CancelNever {
    /// The label of every `CancelNever`.
    pub open spec fn own_label() -> Seq<char> {
        "CancelNever"@
    }
}

impl CancellationTrigger for CancelNever {
    open spec fn model(&self) -> TriggerModel {
        TriggerModel::Never
    }

    fn is_cancelled(&self) -> (r: bool)
        ensures
            !r,
    {
        assert(self.model() == TriggerModel::Never);
        false
    }

    fn label(&self) -> (r: &'static str)
        ensures
            r@ == Self::own_label(),
    {
        "CancelNever"
    }

    fn cause(&self) -> (r: Option<&'static str>)
        ensures
            r is None,
    {
        assert(self.model() == TriggerModel::Never);
        None
    }

    fn into_dynamic(self) -> (r: DynamicCancellationTrigger) {
        DynamicCancellationTrigger::Never(self)
    }
}

} // verus!
