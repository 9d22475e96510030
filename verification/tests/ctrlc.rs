use cancel_this::check_local_cancellation;
use cancel_this::on_sigint;
use cancel_this::triggers::ctrlc::cancel_all;
use cancel_this::Cancellable;
use cancel_this::CancelAtomic;
use cancel_this::CancelCtrlc;
use cancel_this::CancellationTrigger;
use cancel_this::CtrlcError;
use cancel_this::CtrlcRegistry;
use cancel_this::LivenessInterceptor;
use cancel_this::ThreadTrigger;

#[test]
fn all_waiting_triggers_are_cancelled_and_forgotten() {
    let first = CancelAtomic::new();
    let second = CancelAtomic::new();
    let bystander = CancelAtomic::new();
    let mut waiting = vec![first.clone(), second.clone()];
    assert_eq!(cancel_all(&mut waiting), 2);
    assert!(waiting.is_empty());
    assert!(first.is_cancelled());
    assert!(second.is_cancelled());
    assert!(!bystander.is_cancelled());
    assert_eq!(cancel_all(&mut waiting), 0);
    assert!(waiting.is_empty());
}

#[test]
fn handler_is_installed_once_per_process() {
    let registry = CtrlcRegistry::install();
    assert_eq!(registry.status(), Ok(()));
    let trigger = CancelCtrlc::try_new(&registry).unwrap();
    assert!(!trigger.is_cancelled());
    assert!(!trigger.clone().is_cancelled());
    assert_eq!(trigger.label(), "CancelCtrlc");
    assert_eq!(trigger.into_dynamic().label(), "CancelCtrlc");

    let mut scope: ThreadTrigger = LivenessInterceptor::fresh();
    let result: Cancellable<usize> = on_sigint(&mut scope, &registry, |scope: &mut ThreadTrigger| {
        check_local_cancellation(scope)?;
        Ok(scope.as_inner().len())
    });
    assert_eq!(result.unwrap(), 1);
    assert_eq!(scope.as_inner().len(), 0);

    let second = CtrlcRegistry::install();
    assert_eq!(second.status(), Err(CtrlcError::MultipleHandlers));
    assert_eq!(CancelCtrlc::try_new(&second).unwrap_err(), CtrlcError::MultipleHandlers);
    assert!(CancelCtrlc::try_new(&registry).is_ok());
}
