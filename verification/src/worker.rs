//! The life cycle of a background worker.
//!
//! A timer and a liveness monitor each own one worker thread. The worker
//! blocks in a bounded wait that a stop signal can end early, and the owner
//! stops and joins it on destruction. The threads themselves are run by the
//! caller; the decisions they follow are stated here.
use vstd::prelude::*;

verus! {

/// How a worker's bounded wait ended.
#[derive(Clone, Copy, Debug, PartialEq, Eq, Structural)]
pub enum Wake {
    /// The owner asked the worker to stop.
    Stopped,
    /// The full time passed and nobody asked the worker to stop.
    Elapsed,
}

impl Wake {
    /// The wait ran its full time.
    pub open spec fn is_expiry(self) -> bool {
        self == Wake::Elapsed
    }

    /// Tells the two ends of a wait apart, given whether a stop signal was
    /// received: anything but a received signal counts as the time having
    /// passed.
    pub fn from_signal(stop_received: bool) -> (r: Wake)
        ensures
            r == (if stop_received {
                Wake::Stopped
            } else {
                Wake::Elapsed
            }),
    {
        if stop_received {
            Wake::Stopped
        } else {
            Wake::Elapsed
        }
    }
}

/// A violated contract between an owner and its worker. It is fatal to the
/// destruction that finds it.
#[derive(Clone, Copy, Debug, PartialEq, Eq, Structural)]
pub enum Fault {
    /// The worker's handle was gone before the owner was destroyed.
    WorkerMissing,
    /// The worker panicked.
    WorkerPanicked,
}

/// What an owner does with its worker once it has tried to signal it.
#[derive(Clone, Copy, Debug, PartialEq, Eq, Structural)]
pub enum Shutdown {
    /// Wait for the worker to end.
    Join,
    /// The worker can be neither signalled nor confirmed to have ended:
    /// report a possible leak and do not wait for it.
    Abandon,
}

/// What [`plan_shutdown`] answers.
pub open spec fn shutdown_plan(
    worker_present: bool,
    stop_delivered: bool,
    worker_finished: bool,
) -> Result<Shutdown, Fault> {
    if !worker_present {
        Err(Fault::WorkerMissing)
    } else if stop_delivered || worker_finished {
        Ok(Shutdown::Join)
    } else {
        Ok(Shutdown::Abandon)
    }
}

/// Decides how an owner that is being destroyed deals with its worker.
///
/// A worker that received the stop signal ends promptly and is joined. One
/// that could not be signalled is joined only if it has already ended, so
/// that a panic of it is still seen; if it is still running, waiting might
/// never end, and it is abandoned. A missing worker is a fault.
pub fn plan_shutdown(worker_present: bool, stop_delivered: bool, worker_finished: bool) -> (r:
    Result<Shutdown, Fault>)
    ensures
        r == shutdown_plan(worker_present, stop_delivered, worker_finished),
{
    if !worker_present {
        Err(Fault::WorkerMissing)
    } else if stop_delivered {
        Ok(Shutdown::Join)
    } else if worker_finished {
        Ok(Shutdown::Join)
    } else {
        Ok(Shutdown::Abandon)
    }
}

/// Judges a join: a worker that ended by panicking is a fault.
pub fn conclude_join(worker_panicked: bool) -> (r: Result<(), Fault>)
    ensures
        r == (if worker_panicked {
            Err::<(), Fault>(Fault::WorkerPanicked)
        } else {
            Ok::<(), Fault>(())
        }),
{
    if worker_panicked {
        Err(Fault::WorkerPanicked)
    } else {
        Ok(())
    }
}

} // verus!
