use vstd::prelude::*;
use crate::error::Cancelled;
use crate::on_trigger;
use crate::scope_admits;
use crate::scope_entered;
use crate::scope_left;
use crate::ThreadTrigger;
use crate::triggers::CancelAtomic;
use crate::triggers::CancellationTrigger;
use crate::triggers::DynamicCancellationTrigger;
use crate::triggers::TriggerModel;
use crate::worker::Wake;

verus! {

/// Runs `action` in a scope that is cancelled when `timer` elapses. The
/// caller has started the timer, and stops it when the scope has ended.
pub fn on_timeout<TResult, TError, TAction>(
    scope: &mut ThreadTrigger,
    timer: CancelTimer,
    action: TAction,
) -> (r: Result<TResult, TError>) where
    TAction: FnOnce(&mut ThreadTrigger) -> Result<TResult, TError>,
    TError: From<Cancelled>,

    requires
        scope_admits(*old(scope), timer.model(), action),
    ensures
        exists|inside: &mut ThreadTrigger|
            {
                &&& scope_entered(*old(scope), timer.model(), *inside)
                &&& #[trigger] call_ensures(action, (inside,), r)
                &&& scope_left(*final(inside), *final(scope))
            },
        (forall|inside: &mut ThreadTrigger, result: Result<TResult, TError>| #[trigger]
            call_ensures(action, (inside,), result) ==> {
                &&& final(inside).chain() == inside.chain()
                &&& final(inside).stamp() == inside.stamp()
            }) ==> {
            &&& final(scope).chain() == old(scope).chain()
            &&& final(scope).stamp() == old(scope).stamp()
        },
{
    on_trigger(scope, timer, action)
}

/// A trigger that is cancelled once a fixed time has passed.
///
/// This is the side of a timer that is queried. The waiting is done by a
/// worker that owns a clone of the trigger, waits for the timer's duration
/// or for a request to stop, whichever comes first, and then reports to
/// [`CancelTimer::on_wake`] how its wait ended.
#[derive(Debug)]
pub struct CancelTimer(CancelAtomic);

impl CancelTimer {
    /// The label of every `CancelTimer`.
    pub open spec fn own_label() -> Seq<char> {
        "CancelTimer"@
    }

    /// The flag that the timer's expiry sets.
    pub closed spec fn flag(&self) -> CancelAtomic {
        self.0
    }

    /// A timer that has not elapsed.
    pub fn new() -> (r: Self) {
        CancelTimer(CancelAtomic::new())
    }

    /// The end of the worker's wait: the timer fires if the wait ran its
    /// full time, and stays as it is if the worker was asked to stop.
    /// Returns whether it fired.
    pub fn on_wake(&self, wake: Wake) -> (fired: bool)
        ensures
            fired == wake.is_expiry(),
    {
        match wake {
            Wake::Elapsed => {
                self.0.cancel();
                true
            },
            Wake::Stopped => false,
        }
    }
}

impl Clone for CancelTimer {
    /// Another handle to the same timer.
    fn clone(&self) -> (r: Self)
        ensures
            r == *self,
    {
        CancelTimer(self.0.clone())
    }
}

impl CancellationTrigger for CancelTimer {
    open spec fn model(&self) -> TriggerModel {
        TriggerModel::Timer(*self)
    }

    fn is_cancelled(&self) -> (r: bool) {
        assert(self.model() == TriggerModel::Timer(*self));
        self.0.is_cancelled()
    }

    fn label(&self) -> (r: &'static str)
        ensures
            r@ == Self::own_label(),
    {
        "CancelTimer"
    }

    fn cause(&self) -> (r: Option<&'static str>) {
        assert(self.model() == TriggerModel::Timer(*self));
        if self.is_cancelled() {
            Some("CancelTimer")
        } else {
            None
        }
    }

    fn into_dynamic(self) -> (r: DynamicCancellationTrigger) {
        DynamicCancellationTrigger::Timer(self)
    }
}

} // verus!
