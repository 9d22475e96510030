use vstd::prelude::*;
use std::sync::Arc;
use std::sync::atomic::AtomicBool;
use crate::error::Cancelled;
use crate::on_trigger;
use crate::scope_admits;
use crate::scope_entered;
use crate::scope_left;
use crate::ThreadTrigger;
use crate::triggers::CancellationTrigger;
use crate::triggers::DynamicCancellationTrigger;
use crate::triggers::TriggerModel;

verus! {

/// Runs `action` in a scope that is cancelled once the memory in use by the
/// whole process exceeds `limit` bytes.
///
/// The memory in use is sampled at every checkpoint, which makes this the
/// most expensive trigger of the crate, and it is a limit only in so far as
/// the action checks for cancellation.
pub fn on_memory<TResult, TError, TAction>(
    scope: &mut ThreadTrigger,
    limit: usize,
    action: TAction,
) -> (r: Result<TResult, TError>) where
    TAction: FnOnce(&mut ThreadTrigger) -> Result<TResult, TError>,
    TError: From<Cancelled>,

    requires
        forall|trigger: CancelMemory|
            trigger.threshold() == limit ==> #[trigger] scope_admits(
                *old(scope),
                trigger.model(),
                action,
            ),
    ensures
        exists|inside: &mut ThreadTrigger, trigger: CancelMemory|
            {
                &&& trigger.threshold() == limit
                &&& #[trigger] scope_entered(*old(scope), trigger.model(), *inside)
                &&& #[trigger] call_ensures(action, (inside,), r)
                &&& scope_left(*final(inside), *final(scope))
            },
        (forall|inside: &mut ThreadTrigger, result: Result<TResult, TError>| #[trigger]
            call_ensures(action, (inside,), result) ==> {
                &&& final(inside).chain() == inside.chain()
                &&& final(inside).stamp() == inside.stamp()
            }) ==> {
            &&& final(scope).chain() == old(scope).chain()
            &&& final(scope).stamp() == old(scope).stamp()
        },
{
    let trigger = CancelMemory::limit(limit);
    on_trigger(scope, trigger, action)
}

/// Whether a sample of the memory in use is over a limit. A sample that
/// could not be taken is not.
pub open spec fn exceeds(limit: usize, sample: Option<usize>) -> bool {
    sample matches Some(used) && used > limit
}

/// The physical memory that `memory_stats::memory_stats` reports for this
/// process, in bytes, or `None` where it cannot tell. Nothing is claimed of
/// the number: it is whatever the operating system says at that moment.
#[verifier::external_body]
fn physical_memory() -> (sample: Option<usize>) {
    match memory_stats::memory_stats() {
        Some(stats) => Some(stats.physical_mem),
        None => None,
    }
}

/// A trigger that is cancelled when the memory in use by the process is
/// found to exceed a limit.
///
/// The memory is sampled on every query until one sample is over the limit.
/// From then on the trigger is cancelled for every handle to it, whatever
/// the memory in use does later.
#[derive(Debug)]
pub struct CancelMemory {
    limit: usize,
    latch: Arc<AtomicBool>,
}

impl CancelMemory {
    /// The label of every `CancelMemory`.
    pub open spec fn own_label() -> Seq<char> {
        "CancelMemory"@
    }

    /// The limit, in bytes.
    pub closed spec fn threshold(&self) -> usize {
        self.limit
    }

    /// A trigger with the given limit, in bytes. It is not cancelled.
    pub fn limit(limit: usize) -> (r: CancelMemory)
        ensures
            r.threshold() == limit,
    {
        CancelMemory { limit, latch: Arc::new(AtomicBool::new(false)) }
    }

    /// The limit, in bytes.
    pub fn limit_bytes(&self) -> (r: usize)
        ensures
            r == self.threshold(),
    {
        self.limit
    }

    /// What a query answers, given whether it found the trigger cancelled
    /// already and what the sample of the memory in use was: a trigger that
    /// was found cancelled stays cancelled whatever the sample is, and one
    /// that was not is cancelled by a sample over the limit.
    pub fn answer(&self, latched: bool, sample: Option<usize>) -> (r: bool)
        ensures
            r == (latched || exceeds(self.threshold(), sample)),
    {
        if latched {
            true
        } else {
            self.judge(sample)
        }
    }

    /// Judges one sample of the memory in use: a sample over the limit
    /// cancels the trigger for good. Returns whether it did.
    pub fn judge(&self, sample: Option<usize>) -> (r: bool)
        ensures
            r == exceeds(self.threshold(), sample),
    {
        match sample {
            Some(used) => {
                if used > self.limit {
                    self.latch.store(true, std::sync::atomic::Ordering::SeqCst);
                    true
                } else {
                    false
                }
            },
            None => false,
        }
    }
}

impl Clone for CancelMemory {
    /// Another handle to the same trigger.
    fn clone(&self) -> (r: Self)
        ensures
            r == *self,
    {
        CancelMemory { limit: self.limit, latch: self.latch.clone() }
    }
}

impl CancellationTrigger for CancelMemory {
    open spec fn model(&self) -> TriggerModel {
        TriggerModel::Memory(*self)
    }

    fn is_cancelled(&self) -> (r: bool) {
        assert(self.model() == TriggerModel::Memory(*self));
        let latched = self.latch.load(std::sync::atomic::Ordering::SeqCst);
        let sample = if latched {
            None
        } else {
            physical_memory()
        };
        self.answer(latched, sample)
    }

    fn label(&self) -> (r: &'static str)
        ensures
            r@ == Self::own_label(),
    {
        "CancelMemory"
    }

    fn cause(&self) -> (r: Option<&'static str>) {
        assert(self.model() == TriggerModel::Memory(*self));
        if self.is_cancelled() {
            Some("CancelMemory")
        } else {
            None
        }
    }

    fn into_dynamic(self) -> (r: DynamicCancellationTrigger) {
        DynamicCancellationTrigger::Memory(self)
    }
}

} // verus!
