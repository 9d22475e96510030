use vstd::prelude::*;
use vstd::string::StringExecFns;
use std::sync::Arc;
use std::sync::atomic::AtomicU64;
use pyo3::prelude::PyAnyMethods;
use crate::error::Cancelled;
use crate::on_trigger;
use crate::scope_admits;
use crate::scope_entered;
use crate::scope_left;
use crate::ThreadTrigger;
use crate::triggers::CancelAtomic;
use crate::triggers::CancellationTrigger;
use crate::triggers::DynamicCancellationTrigger;
use crate::triggers::TriggerModel;

verus! {

/// Runs `action` in a scope that is cancelled when the Python interpreter
/// has an interrupt pending.
///
/// `clock` is the debounce counter that the trigger goes by (see
/// [`CancelPython`]). The interpreter delivers signals on its main thread
/// only, so the scope can be cancelled only if cancellation is checked
/// there, by this action or by another holder of the trigger.
pub fn on_python<R, E, Action>(scope: &mut ThreadTrigger, clock: Arc<AtomicU64>, action: Action) -> (r:
    Result<R, E>) where Action: FnOnce(&mut ThreadTrigger) -> Result<R, E>, E: From<Cancelled>
    requires
        forall|trigger: CancelPython| #[trigger] scope_admits(*old(scope), trigger.model(), action),
    ensures
        exists|inside: &mut ThreadTrigger, trigger: CancelPython|
            {
                &&& #[trigger] scope_entered(*old(scope), trigger.model(), *inside)
                &&& #[trigger] call_ensures(action, (inside,), r)
                &&& scope_left(*final(inside), *final(scope))
            },
        (forall|inside: &mut ThreadTrigger, result: Result<R, E>| #[trigger]
            call_ensures(action, (inside,), result) ==> {
                &&& final(inside).chain() == inside.chain()
                &&& final(inside).stamp() == inside.stamp()
            }) ==> {
            &&& final(scope).chain() == old(scope).chain()
            &&& final(scope).stamp() == old(scope).stamp()
        },
{
    let trigger = CancelPython::new(clock);
    on_trigger(scope, trigger, action)
}

/// Whether the calling thread is the main thread of the Python interpreter:
/// asks Python's `threading` module, through `pyo3::Python::try_attach`,
/// whether `main_thread()` and `current_thread()` are the same object. The
/// answer is `false` where the interpreter cannot be attached to or any of
/// the calls fails. Nothing is claimed of it: it depends on the thread.
#[verifier::external_body]
fn check_main_thread() -> (on_main_thread: bool) {
    let check = |py: pyo3::Python| -> pyo3::PyResult<bool> {
        let threading = py.import("threading")?;
        let main_thread = threading.getattr("main_thread")?.call0()?;
        let current_thread = threading.getattr("current_thread")?.call0()?;
        Ok(main_thread.is(&current_thread))
    };
    pyo3::Python::try_attach(|py| check(py).unwrap_or_default()).unwrap_or_default()
}

/// Whether the interpreter has an interrupt pending: whether
/// `pyo3::Python::check_signals` fails, which it does when a signal handler
/// raised. The answer is `false` where the interpreter cannot be attached
/// to. Nothing is claimed of it: it depends on the signals that arrived.
#[verifier::external_body]
fn interrupt_pending() -> (pending: bool) {
    pyo3::Python::try_attach(|py| py.check_signals().is_err()).unwrap_or_default()
}

/// Which Python exception a cancellation becomes.
#[derive(Clone, Copy, Debug, PartialEq, Eq, Structural)]
pub enum PythonException {
    /// `KeyboardInterrupt`: the interpreter itself signalled the interrupt.
    KeyboardInterrupt,
    /// `InterruptedError`: the action was cancelled by another trigger.
    InterruptedError,
}

/// The exception for a cancellation: `KeyboardInterrupt` if a
/// [`CancelPython`] caused it, `InterruptedError` otherwise.
pub fn python_exception(cancelled: &Cancelled) -> (r: PythonException)
    ensures
        r == (if cancelled@ == CancelPython::own_label() {
            PythonException::KeyboardInterrupt
        } else {
            PythonException::InterruptedError
        }),
{
    let cause = String::from_str(cancelled.cause());
    let interpreter = String::from_str("CancelPython");
    if cause == interpreter {
        PythonException::KeyboardInterrupt
    } else {
        PythonException::InterruptedError
    }
}

/// A trigger that is cancelled when the Python interpreter has an interrupt
/// pending.
///
/// Asking the interpreter is costly, so queries are debounced by a counter
/// that some clock bumps at a fixed interval: the interpreter is asked at
/// most once per value of the counter, and only on its main thread, where
/// it delivers its signals. Once an interrupt was seen the trigger is
/// cancelled for every handle to it, on every thread.
#[derive(Debug)]
pub struct CancelPython {
    recent: Arc<AtomicU64>,
    flag: CancelAtomic,
    clock: Arc<AtomicU64>,
}

impl CancelPython {
    /// The label of every `CancelPython`.
    pub open spec fn own_label() -> Seq<char> {
        "CancelPython"@
    }

    /// Whether the interpreter is to be asked: the clock has moved since it
    /// was last asked, and this is the interpreter's main thread.
    pub open spec fn poll_due(clock: u64, recent: u64, on_main_thread: bool) -> bool {
        clock != recent && on_main_thread
    }

    /// The debounce counter that this trigger goes by.
    pub closed spec fn clock(&self) -> AtomicU64 {
        *self.clock
    }

    /// A trigger that goes by the given debounce counter. It is not
    /// cancelled, and it counts the interpreter as asked at the counter's
    /// present value.
    pub fn new(clock: Arc<AtomicU64>) -> (r: Self)
        ensures
            r.clock() == *clock,
    {
        let now = clock.load(std::sync::atomic::Ordering::SeqCst);
        CancelPython { recent: Arc::new(AtomicU64::new(now)), flag: CancelAtomic::new(), clock }
    }

    /// Decides whether the interpreter is to be asked, given the value of
    /// the clock, the value at which it was last asked and whether this is
    /// its main thread.
    pub fn is_poll_due(clock: u64, recent: u64, on_main_thread: bool) -> (r: bool)
        ensures
            r == Self::poll_due(clock, recent, on_main_thread),
    {
        clock != recent && on_main_thread
    }

    /// What a query answers, given all that it found: whether the trigger
    /// was cancelled already, the value of the clock, the value at which the
    /// interpreter was last asked, whether this is its main thread, and
    /// whether it had an interrupt pending.
    pub open spec fn answer_for(
        flagged: bool,
        clock: u64,
        recent: u64,
        on_main_thread: bool,
        interrupted: bool,
    ) -> bool {
        flagged || (Self::poll_due(clock, recent, on_main_thread) && interrupted)
    }

    /// Decides the answer of a query from all that it found. A trigger that
    /// was found cancelled stays cancelled. Otherwise the interpreter's word
    /// counts only if it was due to be asked, and is then
    /// [recorded](CancelPython::record).
    pub fn answer(
        &self,
        flagged: bool,
        clock: u64,
        recent: u64,
        on_main_thread: bool,
        interrupted: bool,
    ) -> (r: bool)
        ensures
            r == Self::answer_for(flagged, clock, recent, on_main_thread, interrupted),
    {
        if flagged {
            true
        } else if Self::is_poll_due(clock, recent, on_main_thread) {
            self.record(clock, interrupted)
        } else {
            false
        }
    }

    /// Takes note of what the interpreter said at clock value `clock`: the
    /// interpreter counts as asked at that value, and a pending interrupt
    /// cancels the trigger for good. Returns whether it did.
    pub fn record(&self, clock: u64, interrupted: bool) -> (r: bool)
        ensures
            r == interrupted,
    {
        self.recent.store(clock, std::sync::atomic::Ordering::SeqCst);
        if interrupted {
            self.flag.cancel();
        }
        interrupted
    }
}

impl Clone for CancelPython {
    /// Another handle to the same trigger.
    fn clone(&self) -> (r: Self)
        ensures
            r == *self,
    {
        CancelPython {
            recent: self.recent.clone(),
            flag: self.flag.clone(),
            clock: self.clock.clone(),
        }
    }
}

impl CancellationTrigger for CancelPython {
    open spec fn model(&self) -> TriggerModel {
        TriggerModel::Python(*self)
    }

    fn is_cancelled(&self) -> (r: bool) {
        assert(self.model() == TriggerModel::Python(*self));
        let flagged = self.flag.is_cancelled();
        if flagged {
            return self.answer(true, 0, 0, false, false);
        }
        let clock = self.clock.load(std::sync::atomic::Ordering::SeqCst);
        let recent = self.recent.load(std::sync::atomic::Ordering::SeqCst);
        let on_main_thread = if clock != recent {
            check_main_thread()
        } else {
            false
        };
        let interrupted = if Self::is_poll_due(clock, recent, on_main_thread) {
            interrupt_pending()
        } else {
            false
        };
        self.answer(false, clock, recent, on_main_thread, interrupted)
    }

    fn label(&self) -> (r: &'static str)
        ensures
            r@ == Self::own_label(),
    {
        "CancelPython"
    }

    fn cause(&self) -> (r: Option<&'static str>) {
        assert(self.model() == TriggerModel::Python(*self));
        if self.is_cancelled() {
            Some("CancelPython")
        } else {
            None
        }
    }

    fn into_dynamic(self) -> (r: DynamicCancellationTrigger) {
        DynamicCancellationTrigger::Python(self)
    }
}

} // verus!
