use vstd::prelude::*;
use std::sync::Arc;
use std::sync::atomic::AtomicBool;
use crate::error::Cancelled;
use crate::on_trigger;
use crate::scope_admits;
use crate::scope_entered;
use crate::scope_left;
use crate::ThreadTrigger;
use crate::triggers::CancellationTrigger;
use crate::triggers::DynamicCancellationTrigger;
use crate::triggers::TriggerModel;

verus! {

/// Runs `action` in a scope that is cancelled when `trigger` is cancelled by
/// whoever holds another handle to it.
pub fn on_atomic<TResult, TError, TAction>(
    scope: &mut ThreadTrigger,
    trigger: CancelAtomic,
    action: TAction,
) -> (r: Result<TResult, TError>) where
    TAction: FnOnce(&mut ThreadTrigger) -> Result<TResult, TError>,
    TError: From<Cancelled>,

    requires
        scope_admits(*old(scope), trigger.model(), action),
    ensures
        exists|inside: &mut ThreadTrigger|
            {
                &&& scope_entered(*old(scope), trigger.model(), *inside)
                &&& #[trigger] call_ensures(action, (inside,), r)
                &&& scope_left(*final(inside), *final(scope))
            },
        (forall|inside: &mut ThreadTrigger, result: Result<TResult, TError>| #[trigger]
            call_ensures(action, (inside,), result) ==> {
                &&& final(inside).chain() == inside.chain()
                &&& final(inside).stamp() == inside.stamp()
            }) ==> {
            &&& final(scope).chain() == old(scope).chain()
            &&& final(scope).stamp() == old(scope).stamp()
        },
{
    on_trigger(scope, trigger, action)
}

/// A trigger that is cancelled by hand, with [`CancelAtomic::cancel`].
///
/// It starts out not cancelled. It is safe to cancel it more than once, from
/// any thread, and once cancelled it cannot be reset. All clones share one
/// flag.
#[derive(Debug)]
pub struct CancelAtomic(Arc<AtomicBool>);

impl CancelAtomic {
    /// The label of every `CancelAtomic`.
    pub open spec fn own_label() -> Seq<char> {
        "CancelAtomic"@
    }

    /// The flag that this handle shares with its clones.
    pub closed spec fn flag(&self) -> AtomicBool {
        *self.0
    }

    /// A new trigger with a flag of its own, not cancelled.
    pub fn new() -> (r: Self) {
        CancelAtomic(Arc::new(AtomicBool::new(false)))
    }

    /// Cancel this trigger, for every handle to it.
    ///
    /// The flag only ever goes from "not cancelled" to "cancelled": a call
    /// that finds it set leaves it as it is.
    pub fn cancel(&self) {
        let _ = self.0.compare_exchange(
            false,
            true,
            std::sync::atomic::Ordering::SeqCst,
            std::sync::atomic::Ordering::SeqCst,
        );
    }

    /// The shared flag itself. Its address tells one trigger from another,
    /// for a diagnostic message.
    pub fn id_ref(&self) -> (r: &AtomicBool)
        ensures
            *r == self.flag(),
    {
        &*self.0
    }
}

impl Clone for CancelAtomic {
    /// Another handle to the same flag.
    fn clone(&self) -> (r: Self)
        ensures
            r == *self,
    {
        CancelAtomic(self.0.clone())
    }
}

impl Default for CancelAtomic {
    fn default() -> (r: Self) {
        CancelAtomic::new()
    }
}

impl CancellationTrigger for CancelAtomic {
    open spec fn model(&self) -> TriggerModel {
        TriggerModel::Atomic(*self)
    }

    fn is_cancelled(&self) -> (r: bool) {
        self.0.load(std::sync::atomic::Ordering::SeqCst)
    }

    fn label(&self) -> (r: &'static str)
        ensures
            r@ == Self::own_label(),
    {
        "CancelAtomic"
    }

    fn cause(&self) -> (r: Option<&'static str>) {
        assert(self.model() == TriggerModel::Atomic(*self));
        if self.is_cancelled() {
            Some("CancelAtomic")
        } else {
            None
        }
    }

    fn into_dynamic(self) -> (r: DynamicCancellationTrigger) {
        DynamicCancellationTrigger::Atomic(self)
    }
}

} // verus!
