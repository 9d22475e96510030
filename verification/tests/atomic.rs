use cancel_this::worker::Wake;
use cancel_this::CancelAtomic;
use cancel_this::CancelTimer;
use cancel_this::CancellationTrigger;
use cancel_this::DynamicCancellationTrigger;

#[test]
fn new_flag_is_not_cancelled() {
    let trigger = CancelAtomic::new();
    assert!(!trigger.is_cancelled());
    assert_eq!(trigger.label(), "CancelAtomic");
    assert!(!CancelAtomic::default().is_cancelled());
}

#[test]
fn cancelled_flag_stays_cancelled_for_every_clone() {
    let trigger = CancelAtomic::new();
    let before = trigger.clone();
    trigger.cancel();
    let after = trigger.clone();
    for _ in 0..1000 {
        assert!(trigger.is_cancelled());
        assert!(before.is_cancelled());
        assert!(after.is_cancelled());
    }
    let entry = before.clone().into_dynamic();
    assert!(entry.is_cancelled());
    assert!(entry.clone().is_cancelled());
}

#[test]
fn cancelling_twice_is_safe() {
    let trigger = CancelAtomic::new();
    trigger.cancel();
    trigger.cancel();
    trigger.clone().cancel();
    assert!(trigger.is_cancelled());
}

#[test]
fn flags_are_independent() {
    let one = CancelAtomic::new();
    let other = CancelAtomic::new();
    one.cancel();
    assert!(one.is_cancelled());
    assert!(!other.is_cancelled());
    assert!(!std::ptr::eq(one.id_ref(), other.id_ref()));
    assert!(std::ptr::eq(one.id_ref(), one.clone().id_ref()));
}

#[test]
fn timer_fires_only_when_its_wait_ran_out() {
    let timer = CancelTimer::new();
    assert!(!timer.is_cancelled());
    assert_eq!(timer.label(), "CancelTimer");
    assert!(!timer.on_wake(Wake::Stopped));
    assert!(!timer.is_cancelled());
    assert!(timer.clone().on_wake(Wake::Elapsed));
    assert!(timer.is_cancelled());
    assert!(!timer.on_wake(Wake::Stopped));
    assert!(timer.is_cancelled());
}

#[test]
fn timer_as_entry_keeps_its_label() {
    let timer = CancelTimer::new();
    let entry = timer.clone().into_dynamic();
    assert!(matches!(entry, DynamicCancellationTrigger::Timer(_)));
    assert_eq!(entry.label(), "CancelTimer");
    timer.on_wake(Wake::Elapsed);
    assert!(entry.is_cancelled());
}
