//! Cooperative, scoped cancellation.
//!
//! Long-running work asks "should I stop?" at checkpoints of its own choosing.
//! What it asks is a stack of *triggers* that its callers have registered for
//! the dynamic extent of an action. The stack travels as an explicit
//! [`ThreadTrigger`] value, one per thread, and every scope that registers a
//! trigger removes it again before it returns.
//!
//! ```text
//! fn count(scope: &mut ThreadTrigger, steps: usize) -> Cancellable<usize> {
//!     for _ in 0..steps {
//!         check_local_cancellation(scope)?;
//!     }
//!     Ok(steps)
//! }
//!
//! let mut scope = LivenessInterceptor::fresh();
//! let stop = CancelAtomic::new();
//! let result = on_atomic(&mut scope, stop.clone(), |scope| {
//!     count(scope, 5)?;
//!     stop.cancel();
//!     // The enclosing scope is set aside here ...
//!     never(scope, |scope| count(scope, 5))?;
//!     // ... and applies again here.
//!     count(scope, 5)
//! });
//! assert!(result.is_err());
//! ```
//!
//! Triggers are shared handles: a clone observes the same signal as the
//! handle it was made from. Their state lives in atomics that other threads
//! may set at any time, so a contract cannot say what a trigger *will*
//! answer, only what it *may* answer (see [`TriggerModel`]). Everything that
//! is decided from such answers is decided by a function of them with an
//! exact contract: the outcome of a checkpoint ([`checkpoint_outcome`]), the
//! verdict, the cause and the label of a chain
//! ([`triggers::innermost_cancelled_of`], [`triggers::innermost_cause_of`],
//! [`triggers::chain_label_of`]). What follows for whole chains is proved
//! in [`laws`].
//!
//! Nothing in this crate starts a thread. A timer and a liveness guard need
//! one each; the decisions that such a worker and its owner follow are in
//! [`worker`] and [`liveness`], for the caller to run.
use vstd::prelude::*;

pub mod error;
pub mod laws;
pub mod liveness;
pub mod triggers;
pub mod worker;

pub use error::Cancelled;
pub use error::Cancellable;
pub use error::UNKNOWN_CAUSE;

pub use liveness::LivenessInterceptor;
pub use triggers::CancelAtomic;
pub use triggers::CancelChain;
pub use triggers::CancelCtrlc;
pub use triggers::CancelMemory;
pub use triggers::CancelNever;
pub use triggers::CancelPython;
pub use triggers::CancelTimer;
pub use triggers::CancellationTrigger;
pub use triggers::CtrlcError;
pub use triggers::CtrlcRegistry;
pub use triggers::DynamicCancellationTrigger;
pub use triggers::TriggerModel;
pub use triggers::never;
pub use triggers::on_atomic;
pub use triggers::on_memory;
pub use triggers::on_python;
pub use triggers::on_sigint;
pub use triggers::on_timeout;

verus! {

/// The cancellation state of one thread: the chain of the triggers of all
/// scopes that the thread is inside of, oldest first, and the thread's
/// checkpoint stamp.
///
/// A thread makes one with [`LivenessInterceptor::fresh`] and hands it to
/// every cancellable action it runs. It is changed only by entering and
/// leaving scopes.
pub type ThreadTrigger = LivenessInterceptor<CancelChain>;

/// The outcome of a checkpoint, given what the trigger answered: a failure
/// that names `label` as its cause if it answered "cancelled", and success
/// otherwise.
pub fn checkpoint_outcome(cancelled: bool, label: &'static str) -> (r: Result<(), Cancelled>)
    ensures
        cancelled ==> (r matches Err(cause) && cause@ == label@),
        !cancelled ==> r is Ok,
{
    if cancelled {
        Err(Cancelled::new(label))
    } else {
        Ok(())
    }
}

/// The checkpoint: asks the trigger for the [cause](CancellationTrigger::cause)
/// of its cancellation and returns the [`checkpoint_outcome`] of what it
/// said.
///
/// A trigger that cannot answer "cancelled", such as [`CancelNever`] or an
/// empty chain, always passes. A failure names a single trigger, never a
/// chain: on a chain it names the member that was found cancelled.
pub fn check_cancellation<TCancel: CancellationTrigger>(trigger: &TCancel) -> (r: Result<
    (),
    Cancelled,
>)
    ensures
        r matches Err(cancelled) ==> trigger.model().may_blame(cancelled@),
{
    match trigger.cause() {
        Some(label) => checkpoint_outcome(true, label),
        None => checkpoint_outcome(false, UNKNOWN_CAUSE),
    }
}

/// The checkpoint on a thread's own state: bumps the thread's checkpoint
/// stamp and then checks the chain of all scopes the thread is inside of.
pub fn check_local_cancellation(scope: &ThreadTrigger) -> (r: Result<(), Cancelled>)
    ensures
        r matches Err(cancelled) ==> triggers::chain_may_blame(scope.chain(), cancelled@),
{
    proof {
        reveal_with_fuel(TriggerModel::may_blame, 3);
    }
    check_cancellation(scope)
}

/// A snapshot of a thread's chain, in its simplest form.
///
/// It can be handed to another thread, to be registered there with
/// [`on_trigger`], or kept and checked with [`check_cancellation`] in a hot
/// loop. Wherever it is checked, it bumps the stamp of the thread it was
/// taken from.
pub fn clone_trigger(scope: &ThreadTrigger) -> (r: DynamicCancellationTrigger)
    ensures
        r@ == TriggerModel::Transferred(
            Box::new(triggers::flattened(scope.chain())),
            scope.stamp(),
        ),
{
    scope.clone_and_flatten()
}

/// The state in which [`on_trigger`] runs its action: the given trigger on
/// top of the chain that was there, and the same stamp.
pub open spec fn scope_entered(before: ThreadTrigger, trigger: TriggerModel, inside: ThreadTrigger) -> bool {
    &&& inside.chain() == before.chain().push(trigger)
    &&& inside.stamp() == before.stamp()
}

/// The state that [`on_trigger`] leaves behind, given the state in which
/// its action ended: the most recently added trigger is gone.
pub open spec fn scope_left(inside: ThreadTrigger, after: ThreadTrigger) -> bool {
    &&& after.stamp() == inside.stamp()
    &&& after.chain() == if inside.chain().len() > 0 {
        inside.chain().drop_last()
    } else {
        inside.chain()
    }
}

/// The action can be run in a scope of `trigger` that is entered from the
/// state `before`.
pub open spec fn scope_admits<TResult, TError, TAction>(
    before: ThreadTrigger,
    trigger: TriggerModel,
    action: TAction,
) -> bool where TAction: FnOnce(&mut ThreadTrigger) -> Result<TResult, TError> {
    forall|inside: &mut ThreadTrigger|
        scope_entered(before, trigger, *inside) ==> call_requires(action, (inside,))
}

/// Runs `action` in a scope in which `trigger` can signal cancellation.
///
/// The trigger is put on top of the thread's chain, the action runs, and
/// then exactly one entry is taken off the chain again. The triggers of the
/// enclosing scopes stay in force underneath. The action's result is
/// returned as it is.
///
/// Scopes compose: around an action that leaves the chain and the stamp as
/// it finds them, as every action does that changes them only through the
/// scopes of this crate, the scope does so itself.
pub fn on_trigger<TResult, TError, TCancel, TAction>(
    scope: &mut ThreadTrigger,
    trigger: TCancel,
    action: TAction,
) -> (r: Result<TResult, TError>) where
    TCancel: CancellationTrigger + 'static,
    TAction: FnOnce(&mut ThreadTrigger) -> Result<TResult, TError>,
    TError: From<Cancelled>,

    requires
        scope_admits(*old(scope), trigger.model(), action),
    ensures
        exists|inside: &mut ThreadTrigger|
            {
                &&& scope_entered(*old(scope), trigger.model(), *inside)
                &&& #[trigger] call_ensures(action, (inside,), r)
                &&& scope_left(*final(inside), *final(scope))
            },
        (forall|inside: &mut ThreadTrigger, result: Result<TResult, TError>| #[trigger]
            call_ensures(action, (inside,), result) ==> {
                &&& final(inside).chain() == inside.chain()
                &&& final(inside).stamp() == inside.stamp()
            }) ==> {
            &&& final(scope).chain() == old(scope).chain()
            &&& final(scope).stamp() == old(scope).stamp()
        },
{
    scope.as_inner_mut().push(trigger);
    let result = action(scope);
    scope.as_inner_mut().pop();
    result
}

} // verus!
