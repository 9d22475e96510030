use vstd::prelude::*;
use std::sync::Arc;
use std::sync::Mutex;
use crate::error::Cancelled;
use crate::on_trigger;
use crate::scope_admits;
use crate::scope_entered;
use crate::scope_left;
use crate::ThreadTrigger;
use crate::triggers::CancelAtomic;
use crate::triggers::CancellationTrigger;
use crate::triggers::DynamicCancellationTrigger;
use crate::triggers::TriggerModel;

verus! {

/// `std::sync::Mutex`, as a type that can be named. Nothing is known of what
/// it holds.
#[verifier::external_type_specification]
#[verifier::external_body]
#[verifier::reject_recursive_types(T)]
pub struct ExMutex<T: ?Sized>(Mutex<T>);

/// `Mutex::new`: a mutex around the given value.
pub assume_specification<T>[ Mutex::<T>::new ](t: T) -> Mutex<T>;

/// Why the handler for the interrupt signal could not be installed.
#[derive(Clone, Copy, Debug, PartialEq, Eq, Structural)]
pub enum CtrlcError {
    /// The signal is not known to the system.
    NoSuchSignal,
    /// Another handler is already registered for the signal.
    MultipleHandlers,
    /// The system refused to install the handler.
    System,
}

/// The triggers that wait for the interrupt signal.
pub type Waiting = Mutex<Vec<CancelAtomic>>;

/// Runs `visit` once on the list that the mutex guards, with the lock held,
/// and returns what it returns: a call of `Mutex::lock`. A lock that an
/// earlier panic has poisoned is taken all the same. Nothing is claimed of
/// the list itself, which other threads change between two calls.
#[verifier::external_body]
fn with_waiting<R, F: FnOnce(&mut Vec<CancelAtomic>) -> R>(waiting: &Waiting, visit: F) -> (r: R)
    requires
        forall|list: &mut Vec<CancelAtomic>| call_requires(visit, (list,)),
    ensures
        exists|list: &mut Vec<CancelAtomic>| call_ensures(visit, (list,), r),
{
    let mut guard = match waiting.lock() {
        Ok(guard) => guard,
        Err(poisoned) => poisoned.into_inner(),
    };
    visit(&mut guard)
}

/// Registers a handler for the interrupt signal that cancels the triggers in
/// `waiting`: a call of `ctrlc::try_set_handler`, with its error told apart
/// by variant. Whether it succeeds depends on what else the process has
/// done, so nothing is claimed of the result.
#[verifier::external_body]
fn install_handler(waiting: Arc<Waiting>) -> (r: Result<(), CtrlcError>) {
    match ctrlc::try_set_handler(move || { on_interrupt(&waiting); }) {
        Ok(()) => Ok(()),
        Err(ctrlc::Error::NoSuchSignal(_)) => Err(CtrlcError::NoSuchSignal),
        Err(ctrlc::Error::MultipleHandlers) => Err(CtrlcError::MultipleHandlers),
        Err(ctrlc::Error::System(_)) => Err(CtrlcError::System),
    }
}

/// Puts a trigger on the list of those that wait for the signal, behind
/// the ones that wait already, and returns how many wait now.
pub fn enlist(list: &mut Vec<CancelAtomic>, trigger: CancelAtomic) -> (waiting: usize)
    ensures
        final(list)@ == old(list)@.push(trigger),
        waiting == final(list)@.len(),
{
    list.push(trigger);
    list.len()
}

/// Cancels every trigger in the list, the most recently added first, and
/// leaves the list empty. Returns how many triggers it cancelled: as many
/// as were in the list.
pub fn cancel_all(list: &mut Vec<CancelAtomic>) -> (cancelled: usize)
    ensures
        final(list)@.len() == 0,
        cancelled == old(list)@.len(),
{
    let total: usize = list.len();
    let mut cancelled: usize = 0;
    while list.len() > 0
        invariant
            total == old(list)@.len(),
            cancelled + list@.len() == total,
        decreases list@.len(),
    {
        let next = list.pop();
        match next {
            Some(trigger) => {
                trigger.cancel();
                cancelled = cancelled + 1;
            },
            None => {},
        }
    }
    cancelled
}

/// What the handler does when the signal arrives: it cancels all triggers
/// that are waiting for it, and forgets them. Returns how many there were.
fn on_interrupt(waiting: &Waiting) -> usize {
    let visit = |list: &mut Vec<CancelAtomic>| -> (cancelled: usize)
        ensures
            final(list)@.len() == 0,
            cancelled == old(list)@.len(),
        { cancel_all(list) };
    with_waiting(waiting, visit)
}

/// The process-wide link to the interrupt signal: the list of triggers that
/// wait for it, and whether the handler that serves them is in place.
///
/// A process installs it once. A second attempt finds the signal taken, as
/// does a first one in a process that has set a handler by other means.
pub struct CtrlcRegistry {
    waiting: Arc<Waiting>,
    installed: Result<(), CtrlcError>,
}

impl CtrlcRegistry {
    /// Whether the handler is in place, and why not if it is not.
    pub closed spec fn installed(&self) -> Result<(), CtrlcError> {
        self.installed
    }

    /// Tries to install the handler for the interrupt signal.
    pub fn install() -> (r: Self) {
        let waiting: Arc<Waiting> = Arc::new(Mutex::new(Vec::new()));
        let installed = install_handler(waiting.clone());
        CtrlcRegistry { waiting, installed }
    }

    /// Whether the handler is in place, and why not if it is not.
    pub fn status(&self) -> (r: Result<(), CtrlcError>)
        ensures
            r == self.installed(),
    {
        self.installed
    }
}

/// Runs `action` in a scope that is cancelled when the process receives the
/// interrupt signal (Ctrl+C).
///
/// The handler must be in place: a caller that is not sure of it asks
/// [`CtrlcRegistry::status`] first.
pub fn on_sigint<TResult, TError, TAction>(
    scope: &mut ThreadTrigger,
    registry: &CtrlcRegistry,
    action: TAction,
) -> (r: Result<TResult, TError>) where
    TAction: FnOnce(&mut ThreadTrigger) -> Result<TResult, TError>,
    TError: From<Cancelled>,

    requires
        registry.installed() is Ok,
        forall|trigger: CancelCtrlc| #[trigger] scope_admits(*old(scope), trigger.model(), action),
    ensures
        exists|inside: &mut ThreadTrigger, trigger: CancelCtrlc|
            {
                &&& #[trigger] scope_entered(*old(scope), trigger.model(), *inside)
                &&& #[trigger] call_ensures(action, (inside,), r)
                &&& scope_left(*final(inside), *final(scope))
            },
        (forall|inside: &mut ThreadTrigger, result: Result<TResult, TError>| #[trigger]
            call_ensures(action, (inside,), result) ==> {
                &&& final(inside).chain() == inside.chain()
                &&& final(inside).stamp() == inside.stamp()
            }) ==> {
            &&& final(scope).chain() == old(scope).chain()
            &&& final(scope).stamp() == old(scope).stamp()
        },
{
    match CancelCtrlc::try_new(registry) {
        Ok(trigger) => on_trigger(scope, trigger, action),
        Err(_) => vstd::pervasive::unreached(),
    }
}

/// A trigger that is cancelled when the process receives the interrupt
/// signal (Ctrl+C).
///
/// A signal cancels the triggers that exist when it arrives. A trigger that
/// is made later waits for the next one.
#[derive(Debug)]
pub struct CancelCtrlc(CancelAtomic);

impl CancelCtrlc {
    /// The label of every `CancelCtrlc`.
    pub open spec fn own_label() -> Seq<char> {
        "CancelCtrlc"@
    }

    /// The flag that the signal sets.
    pub closed spec fn flag(&self) -> CancelAtomic {
        self.0
    }

    /// A new trigger that waits for the next interrupt signal, or the reason
    /// why the handler for the signal is not in place. The flag of a new
    /// trigger has been [enlisted](enlist) on the registry's list, under its
    /// lock, behind the triggers that were waiting already.
    pub fn try_new(registry: &CtrlcRegistry) -> (r: Result<Self, CtrlcError>)
        ensures
            match r {
                Ok(trigger) => {
                    &&& registry.installed() is Ok
                    &&& exists|list: &mut Vec<CancelAtomic>| #[trigger]
                        final(list)@ == list@.push(trigger.flag())
                },
                Err(reason) => registry.installed() == Err::<(), CtrlcError>(reason),
            },
    {
        match registry.installed {
            Err(reason) => Err(reason),
            Ok(_) => {
                let trigger = CancelAtomic::new();
                let waiting_copy = trigger.clone();
                let visit = move |list: &mut Vec<CancelAtomic>| -> (waiting: usize)
                    ensures
                        final(list)@ == old(list)@.push(waiting_copy),
                        waiting == final(list)@.len(),
                    { enlist(list, waiting_copy) };
                with_waiting(&registry.waiting, visit);
                Ok(CancelCtrlc(trigger))
            },
        }
    }
}

impl Clone for CancelCtrlc {
    /// Another handle to the same trigger.
    fn clone(&self) -> (r: Self)
        ensures
            r == *self,
    {
        CancelCtrlc(self.0.clone())
    }
}

impl CancellationTrigger for CancelCtrlc {
    open spec fn model(&self) -> TriggerModel {
        TriggerModel::Ctrlc(*self)
    }

    fn is_cancelled(&self) -> (r: bool) {
        assert(self.model() == TriggerModel::Ctrlc(*self));
        self.0.is_cancelled()
    }

    fn label(&self) -> (r: &'static str)
        ensures
            r@ == Self::own_label(),
    {
        "CancelCtrlc"
    }

    fn cause(&self) -> (r: Option<&'static str>) {
        assert(self.model() == TriggerModel::Ctrlc(*self));
        if self.is_cancelled() {
            Some("CancelCtrlc")
        } else {
            None
        }
    }

    fn into_dynamic(self) -> (r: DynamicCancellationTrigger) {
        DynamicCancellationTrigger::Ctrlc(self)
    }
}

} // verus!
