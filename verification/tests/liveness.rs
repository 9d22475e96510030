use cancel_this::check_local_cancellation;
use cancel_this::clone_trigger;
use cancel_this::liveness::LivenessMonitor;
use cancel_this::liveness::MonitorAction;
use cancel_this::worker::Wake;
use cancel_this::CancelAtomic;
use cancel_this::CancelChain;
use cancel_this::CancellationTrigger;
use cancel_this::LivenessInterceptor;
use cancel_this::ThreadTrigger;
use std::sync::atomic::AtomicU64;
use std::sync::atomic::Ordering;
use std::sync::Arc;

#[test]
fn new_monitor_counts_the_thread_as_responsive() {
    let monitor = LivenessMonitor::new();
    assert!(monitor.is_responsive());
    assert_eq!(monitor, LivenessMonitor { responsive: true, last_stamp: 0 });
}

#[test]
fn sample_compares_with_the_sample_before() {
    let mut monitor = LivenessMonitor::new();
    assert_eq!(monitor.sample(3), None);
    assert_eq!(monitor, LivenessMonitor { responsive: true, last_stamp: 3 });
    assert_eq!(monitor.sample(3), Some(false));
    assert_eq!(monitor, LivenessMonitor { responsive: false, last_stamp: 3 });
    assert_eq!(monitor.sample(3), None);
    assert_eq!(monitor.sample(4), Some(true));
    assert_eq!(monitor, LivenessMonitor { responsive: true, last_stamp: 4 });
}

#[test]
fn thread_that_never_checked_is_unresponsive_at_the_first_sample() {
    let mut monitor = LivenessMonitor::new();
    assert_eq!(monitor.sample(0), Some(false));
    assert!(!monitor.is_responsive());
}

// A threshold of 100ms over an action that checks and then sleeps for
// 10, 20, 40, 80 and 160ms, and then checks every 40ms: checkpoints fall at
// 0, 10, 30, 70, 150, 310, 350, 390, 430, 470 and 510ms, samples at every
// 100ms. The stamp counts the checkpoints passed.
#[test]
fn growing_pauses_are_reported_once_and_recovery_once() {
    let checkpoints = [0u64, 10, 30, 70, 150, 310, 350, 390, 430, 470, 510];
    let mut monitor = LivenessMonitor::new();
    let mut reports = Vec::new();
    for sample in 1..=5u64 {
        let now = sample * 100;
        let stamp = checkpoints.iter().filter(|at| **at <= now).count() as u64;
        match monitor.on_wake(Wake::Elapsed, stamp) {
            MonitorAction::Report(state) => reports.push((now, state)),
            MonitorAction::Idle => {}
            MonitorAction::Stop => panic!("nobody asked the monitor to stop"),
        }
    }
    assert_eq!(reports, vec![(300, false), (400, true)]);
    assert_eq!(monitor.on_wake(Wake::Stopped, 99), MonitorAction::Stop);
    assert_eq!(monitor, LivenessMonitor { responsive: true, last_stamp: 10 });
}

#[test]
fn reports_alternate() {
    let stamps = [1u64, 1, 1, 2, 3, 3, 3, 3, 4, 4, 5, 5, 5, 7];
    let mut monitor = LivenessMonitor::new();
    let mut reports = Vec::new();
    for stamp in stamps {
        if let Some(state) = monitor.sample(stamp) {
            reports.push(state);
        }
    }
    assert_eq!(reports, vec![false, true, false, true, false, true, false, true]);
}

#[test]
fn every_check_bumps_the_stamp_first() {
    let scope: ThreadTrigger = LivenessInterceptor::fresh();
    let stamp = scope.stamp_handle();
    assert_eq!(stamp.load(Ordering::SeqCst), 0);
    assert!(check_local_cancellation(&scope).is_ok());
    assert!(!scope.is_cancelled());
    assert_eq!(stamp.load(Ordering::SeqCst), 2);
    assert_eq!(scope.label(), "CancelChain");
    assert_eq!(stamp.load(Ordering::SeqCst), 2);
}

#[test]
fn cancelled_check_bumps_the_stamp_too() {
    let flag = CancelAtomic::new();
    flag.cancel();
    let counter = Arc::new(AtomicU64::new(7));
    let watched = LivenessInterceptor::new(flag, counter.clone());
    assert!(watched.is_cancelled());
    assert_eq!(counter.load(Ordering::SeqCst), 8);
    assert_eq!(watched.label(), "CancelAtomic");
    assert!(watched.as_inner().is_cancelled());
    assert_eq!(counter.load(Ordering::SeqCst), 8);
}

#[test]
fn snapshot_bumps_the_stamp_of_the_thread_it_was_taken_from() {
    let mut scope: ThreadTrigger = LivenessInterceptor::fresh();
    let flag = CancelAtomic::new();
    scope.as_inner_mut().push(flag.clone());
    let snapshot = clone_trigger(&scope);
    let stamp = scope.stamp_handle();
    assert!(!snapshot.is_cancelled());
    assert!(!snapshot.clone().is_cancelled());
    assert_eq!(stamp.load(Ordering::SeqCst), 2);
    assert_eq!(snapshot.label(), "CancelAtomic");
    flag.cancel();
    assert!(snapshot.is_cancelled());
    assert_eq!(stamp.load(Ordering::SeqCst), 3);
}

#[test]
fn interceptor_hands_out_its_trigger() {
    let mut scope: ThreadTrigger = LivenessInterceptor::fresh();
    assert_eq!(scope.as_inner().len(), 0);
    scope.as_inner_mut().push(CancelAtomic::new());
    assert_eq!(scope.as_inner().len(), 1);
    let mut replacement = CancelChain::new();
    replacement.push(CancelAtomic::new());
    replacement.push(CancelAtomic::new());
    let set_aside = scope.replace_inner(replacement);
    assert_eq!(set_aside.len(), 1);
    assert_eq!(scope.as_inner().len(), 2);
}

#[test]
fn interceptor_as_entry_still_bumps_its_stamp() {
    let counter = Arc::new(AtomicU64::new(0));
    let entry = LivenessInterceptor::new(CancelAtomic::new(), counter.clone()).into_dynamic();
    assert!(!entry.is_cancelled());
    assert_eq!(counter.load(Ordering::SeqCst), 1);
    assert_eq!(entry.label(), "CancelAtomic");
}
