use vstd::prelude::*;
use std::sync::Arc;
use std::sync::atomic::AtomicU64;
use crate::triggers::CancelChain;
use crate::triggers::CancellationTrigger;
use crate::triggers::DynamicCancellationTrigger;
use crate::triggers::flattened;
use crate::triggers::TriggerModel;
use crate::worker::Wake;

verus! {

/// A trigger together with a checkpoint stamp: a counter that is bumped by
/// every query, before the trigger itself is asked.
///
/// A liveness monitor that samples the stamp can tell from it whether
/// cancellation is still being checked, whatever the checks answer.
pub struct LivenessInterceptor<R: CancellationTrigger + Clone> {
    inner: R,
    stamp: Arc<AtomicU64>,
}

impl<R: CancellationTrigger + Clone> LivenessInterceptor<R> {
    /// The trigger that the queries are handed on to.
    pub closed spec fn inner(&self) -> R {
        self.inner
    }

    /// The counter that the queries bump.
    pub closed spec fn stamp(&self) -> AtomicU64 {
        *self.stamp
    }

    /// Pairs a trigger with a stamp.
    pub fn new(inner: R, stamp: Arc<AtomicU64>) -> (r: Self)
        ensures
            r.inner() == inner,
            r.stamp() == *stamp,
    {
        LivenessInterceptor { inner, stamp }
    }

    /// The trigger itself, for changing it. The stamp is out of reach.
    pub fn as_inner_mut(&mut self) -> (r: &mut R)
        ensures
            *r == old(self).inner(),
            final(self).inner() == *final(r),
            final(self).stamp() == old(self).stamp(),
    {
        &mut self.inner
    }

    /// The trigger itself.
    pub fn as_inner(&self) -> (r: &R)
        ensures
            *r == self.inner(),
    {
        &self.inner
    }

    /// A handle to the stamp, for a monitor to sample.
    pub fn stamp_handle(&self) -> (r: Arc<AtomicU64>)
        ensures
            *r == self.stamp(),
    {
        self.stamp.clone()
    }

    /// Puts `inner` in the place of the trigger and returns the trigger
    /// that was there.
    pub fn replace_inner(&mut self, inner: R) -> (r: R)
        ensures
            r == old(self).inner(),
            final(self).inner() == inner,
            final(self).stamp() == old(self).stamp(),
    {
        let mut set_aside = inner;
        std::mem::swap(&mut self.inner, &mut set_aside);
        set_aside
    }
}

impl LivenessInterceptor<CancelChain> {
    /// The members of the chain, oldest first.
    pub open spec fn chain(&self) -> Seq<TriggerModel> {
        self.inner()@
    }

    /// A chain with no trigger in it and a stamp of its own: the state of a
    /// thread that has not entered any scope yet.
    pub fn fresh() -> (r: Self)
        ensures
            r.chain() == Seq::<TriggerModel>::empty(),
    {
        LivenessInterceptor { inner: CancelChain::new(), stamp: Arc::new(AtomicU64::new(0)) }
    }

    /// A snapshot of the chain in its simplest form, which still bumps this
    /// stamp whenever it is queried, on whatever thread that happens.
    pub fn clone_and_flatten(&self) -> (r: DynamicCancellationTrigger)
        ensures
            r@ == TriggerModel::Transferred(Box::new(flattened(self.chain())), self.stamp()),
    {
        let chain = self.inner.clone_and_flatten();
        DynamicCancellationTrigger::Transferred {
            inner: Box::new(chain),
            stamp: self.stamp.clone(),
        }
    }
}

impl<R: CancellationTrigger + Clone> CancellationTrigger for LivenessInterceptor<R> {
    open spec fn model(&self) -> TriggerModel {
        TriggerModel::Transferred(Box::new(self.inner().model()), self.stamp())
    }

    fn is_cancelled(&self) -> (r: bool)
        ensures
            r ==> self.inner().model().can_fire(),
    {
        self.stamp.fetch_add(1, std::sync::atomic::Ordering::SeqCst);
        self.inner.is_cancelled()
    }

    fn label(&self) -> (r: &'static str)
        ensures
            self.inner().model().may_name(r@),
    {
        self.inner.label()
    }

    fn cause(&self) -> (r: Option<&'static str>)
        ensures
            r matches Some(label) ==> self.inner().model().may_blame(label@),
    {
        self.stamp.fetch_add(1, std::sync::atomic::Ordering::SeqCst);
        self.inner.cause()
    }

    fn into_dynamic(self) -> (r: DynamicCancellationTrigger) {
        let LivenessInterceptor { inner, stamp } = self;
        DynamicCancellationTrigger::Transferred { inner: Box::new(inner.into_dynamic()), stamp }
    }
}

/// What a liveness monitor does when its wait has ended.
#[derive(Clone, Copy, Debug, PartialEq, Eq, Structural)]
pub enum MonitorAction {
    /// The guard is being destroyed: end the monitor.
    Stop,
    /// The thread is as responsive as it was at the last sample: wait again.
    Idle,
    /// The thread has become responsive (`true`) or unresponsive (`false`):
    /// tell the guard's callback, then wait again.
    Report(bool),
}

/// The state of a liveness monitor: whether the monitored thread counted as
/// responsive at the last sample, and the checkpoint stamp that was sampled.
///
/// A monitor wakes up once per threshold and samples the stamp of the thread
/// it watches. The thread is responsive if the stamp has moved since the
/// sample before, that is, if the thread has passed a checkpoint in between.
/// Only a change of state is reported.
#[derive(Clone, Copy, Debug, PartialEq, Eq, Structural)]
pub struct LivenessMonitor {
    /// Whether the thread counted as responsive at the last sample.
    pub responsive: bool,
    /// The stamp that the last sample found.
    pub last_stamp: u64,
}

impl LivenessMonitor {
    /// The state after a sample that finds `stamp`.
    pub open spec fn sampled(self, stamp: u64) -> LivenessMonitor {
        LivenessMonitor { responsive: stamp != self.last_stamp, last_stamp: stamp }
    }

    /// What a sample that finds `stamp` reports: the new state if it differs
    /// from the old one, and nothing otherwise.
    pub open spec fn report(self, stamp: u64) -> Option<bool> {
        if self.sampled(stamp).responsive != self.responsive {
            Some(self.sampled(stamp).responsive)
        } else {
            None
        }
    }

    /// The state after a run of samples that find `stamps`, in that order.
    pub open spec fn after(self, stamps: Seq<u64>) -> LivenessMonitor
        decreases stamps.len(),
    {
        if stamps.len() == 0 {
            self
        } else {
            self.after(stamps.drop_last()).sampled(stamps.last())
        }
    }

    /// What a run of samples that find `stamps` reports, in that order.
    pub open spec fn reports(self, stamps: Seq<u64>) -> Seq<bool>
        decreases stamps.len(),
    {
        if stamps.len() == 0 {
            Seq::empty()
        } else {
            let earlier = self.reports(stamps.drop_last());
            match self.after(stamps.drop_last()).report(stamps.last()) {
                Some(state) => earlier.push(state),
                None => earlier,
            }
        }
    }

    /// The state of a monitor that has not sampled yet: the thread counts as
    /// responsive, and the stamp as never bumped.
    pub fn new() -> (r: Self)
        ensures
            r == (LivenessMonitor { responsive: true, last_stamp: 0 }),
    {
        LivenessMonitor { responsive: true, last_stamp: 0 }
    }

    /// Whether the thread counted as responsive at the last sample.
    pub fn is_responsive(&self) -> (r: bool)
        ensures
            r == self.responsive,
    {
        self.responsive
    }

    /// Takes a sample that finds `stamp`, and returns the new state if it
    /// differs from the old one.
    pub fn sample(&mut self, stamp: u64) -> (r: Option<bool>)
        ensures
            *final(self) == old(self).sampled(stamp),
            r == old(self).report(stamp),
    {
        let responsive = stamp != self.last_stamp;
        let changed = responsive != self.responsive;
        self.responsive = responsive;
        self.last_stamp = stamp;
        if changed {
            Some(responsive)
        } else {
            None
        }
    }

    /// One turn of the monitor: its wait has ended in `wake`, and the stamp
    /// of the monitored thread is now `stamp`. A request to stop ends the
    /// monitor and leaves the state as it is; otherwise a sample is taken.
    pub fn on_wake(&mut self, wake: Wake, stamp: u64) -> (r: MonitorAction)
        ensures
            wake == Wake::Stopped ==> r == MonitorAction::Stop && *final(self) == *old(self),
            wake == Wake::Elapsed ==> *final(self) == old(self).sampled(stamp) && r == (match old(
                self,
            ).report(stamp) {
                Some(state) => MonitorAction::Report(state),
                None => MonitorAction::Idle,
            }),
    {
        match wake {
            Wake::Stopped => MonitorAction::Stop,
            Wake::Elapsed => match self.sample(stamp) {
                Some(state) => MonitorAction::Report(state),
                None => MonitorAction::Idle,
            },
        }
    }
}

/// Reports are debounced: in any run of samples, from any state, each report
/// is the opposite of the one before it, and the first is the opposite of
/// the state the run started in. No state is ever reported twice in a row.
pub proof fn lemma_reports_alternate(start: LivenessMonitor, stamps: Seq<u64>)
    ensures
        forall|i: int|
            0 <= i < start.reports(stamps).len() ==> #[trigger] start.reports(stamps)[i] == (
            if i % 2 == 0 {
                !start.responsive
            } else {
                start.responsive
            }),
        start.after(stamps).responsive == (if start.reports(stamps).len() % 2 == 0 {
            start.responsive
        } else {
            !start.responsive
        }),
    decreases stamps.len(),
{
    if stamps.len() > 0 {
        lemma_reports_alternate(start, stamps.drop_last());
    }
}

} // verus!
