use cancel_this::Cancellable;
use cancel_this::Cancelled;
use cancel_this::UNKNOWN_CAUSE;

#[test]
fn cancelled_carries_its_cause() {
    let cancelled = Cancelled::new("CancelTimer");
    assert_eq!(cancelled.cause(), "CancelTimer");
    assert_eq!(cancelled.clone().cause(), "CancelTimer");
}

#[test]
fn default_cause_is_unknown() {
    assert_eq!(UNKNOWN_CAUSE, "UnknownCancellationTrigger");
    assert_eq!(Cancelled::default().cause(), "UnknownCancellationTrigger");
}

#[test]
fn message_names_the_cause() {
    assert_eq!(
        Cancelled::new("CancelAtomic").message(),
        "Operation cancelled (caused by `CancelAtomic`)"
    );
    assert_eq!(
        Cancelled::default().message(),
        "Operation cancelled (caused by `UnknownCancellationTrigger`)"
    );
    assert_eq!(Cancelled::new("").message(), "Operation cancelled (caused by ``)");
}

#[test]
fn cancellable_is_a_result() {
    let fine: Cancellable<u8> = Ok(3);
    let failed: Cancellable<u8> = Err(Cancelled::new("CancelMemory"));
    assert_eq!(fine.unwrap(), 3);
    assert_eq!(failed.unwrap_err().cause(), "CancelMemory");
}
