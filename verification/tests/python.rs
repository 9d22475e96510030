use cancel_this::check_local_cancellation;
use cancel_this::on_python;
use cancel_this::triggers::python_exception;
use cancel_this::triggers::PythonException;
use cancel_this::Cancellable;
use cancel_this::CancelPython;
use cancel_this::Cancelled;
use cancel_this::CancellationTrigger;
use cancel_this::LivenessInterceptor;
use cancel_this::ThreadTrigger;
use std::sync::atomic::AtomicU64;
use std::sync::atomic::Ordering;
use std::sync::Arc;

#[test]
fn interpreter_interrupt_becomes_keyboard_interrupt() {
    assert_eq!(
        python_exception(&Cancelled::new("CancelPython")),
        PythonException::KeyboardInterrupt
    );
}

#[test]
fn other_cancellations_become_interrupted_error() {
    assert_eq!(
        python_exception(&Cancelled::new("CancelTimer")),
        PythonException::InterruptedError
    );
    assert_eq!(python_exception(&Cancelled::default()), PythonException::InterruptedError);
    assert_eq!(
        python_exception(&Cancelled::new("CancelPython ")),
        PythonException::InterruptedError
    );
}

#[test]
fn interpreter_is_asked_once_per_tick_and_on_the_main_thread_only() {
    assert!(CancelPython::is_poll_due(5, 4, true));
    assert!(!CancelPython::is_poll_due(5, 5, true));
    assert!(!CancelPython::is_poll_due(5, 4, false));
    assert!(!CancelPython::is_poll_due(5, 5, false));
    assert!(CancelPython::is_poll_due(0, u64::MAX, true));
}

#[test]
fn pending_interrupt_cancels_for_good() {
    let clock = Arc::new(AtomicU64::new(0));
    let trigger = CancelPython::new(clock.clone());
    let copy = trigger.clone();
    assert!(!trigger.is_cancelled());
    assert!(!trigger.record(1, false));
    assert!(!copy.is_cancelled());
    assert!(trigger.record(2, true));
    assert!(trigger.is_cancelled());
    assert!(copy.is_cancelled());
    assert!(!trigger.record(3, false));
    assert!(copy.is_cancelled());
    assert_eq!(copy.label(), "CancelPython");
    assert_eq!(copy.into_dynamic().label(), "CancelPython");
}

#[test]
fn without_an_interpreter_nothing_is_pending() {
    let clock = Arc::new(AtomicU64::new(0));
    let trigger = CancelPython::new(clock.clone());
    clock.fetch_add(1, Ordering::SeqCst);
    assert!(!trigger.is_cancelled());

    let mut scope: ThreadTrigger = LivenessInterceptor::fresh();
    let result: Cancellable<usize> = on_python(&mut scope, clock, |scope: &mut ThreadTrigger| {
        check_local_cancellation(scope)?;
        Ok(scope.as_inner().len())
    });
    assert_eq!(result.unwrap(), 1);
}
