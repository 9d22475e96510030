use cancel_this::check_cancellation;
use cancel_this::check_local_cancellation;
use cancel_this::clone_trigger;
use cancel_this::never;
use cancel_this::on_atomic;
use cancel_this::on_trigger;
use cancel_this::Cancellable;
use cancel_this::CancelAtomic;
use cancel_this::CancelNever;
use cancel_this::CancelTimer;
use cancel_this::Cancelled;
use cancel_this::CancellationTrigger;
use cancel_this::LivenessInterceptor;
use cancel_this::ThreadTrigger;

#[derive(Debug, PartialEq)]
enum ComputeError {
    Zero,
    Cancelled(&'static str),
}

impl From<Cancelled> for ComputeError {
    fn from(value: Cancelled) -> Self {
        ComputeError::Cancelled(value.cause())
    }
}

fn compute(scope: &mut ThreadTrigger, input: u32) -> Result<String, ComputeError> {
    if input == 0 {
        Err(ComputeError::Zero)
    } else {
        let mut total: u32 = 0;
        for _ in 0..input {
            total += input;
            check_local_cancellation(scope)?;
        }
        Ok(total.to_string())
    }
}

#[test]
fn checkpoint_passes_on_a_trigger_that_is_not_cancelled() {
    assert!(check_cancellation(&CancelNever).is_ok());
    assert!(check_cancellation(&CancelAtomic::new()).is_ok());
}

#[test]
fn checkpoint_fails_with_the_label_of_the_trigger() {
    let flag = CancelAtomic::new();
    flag.cancel();
    assert_eq!(check_cancellation(&flag).unwrap_err().cause(), "CancelAtomic");
    let timer = CancelTimer::new();
    timer.on_wake(cancel_this::worker::Wake::Elapsed);
    assert_eq!(check_cancellation(&timer).unwrap_err().cause(), "CancelTimer");
    assert_eq!(check_cancellation(&timer.into_dynamic()).unwrap_err().cause(), "CancelTimer");
}

#[test]
fn fresh_thread_state_passes_every_checkpoint() {
    let scope: ThreadTrigger = LivenessInterceptor::fresh();
    assert!(check_local_cancellation(&scope).is_ok());
    assert!(check_cancellation(&clone_trigger(&scope)).is_ok());
    assert_eq!(clone_trigger(&scope).label(), "CancelNever");
}

#[test]
fn scope_registers_its_trigger_and_removes_it() {
    let mut scope: ThreadTrigger = LivenessInterceptor::fresh();
    let flag = CancelAtomic::new();
    let seen: Cancellable<usize> = on_trigger(&mut scope, flag, |scope: &mut ThreadTrigger| {
        Ok(scope.as_inner().len())
    });
    assert_eq!(seen.unwrap(), 1);
    assert_eq!(scope.as_inner().len(), 0);
}

#[test]
fn scope_returns_the_result_of_its_action_unchanged() {
    let mut scope: ThreadTrigger = LivenessInterceptor::fresh();
    let fine: Result<String, ComputeError> =
        on_atomic(&mut scope, CancelAtomic::new(), |scope: &mut ThreadTrigger| compute(scope, 5));
    assert_eq!(fine, Ok("25".to_string()));
    let failed: Result<String, ComputeError> =
        on_atomic(&mut scope, CancelAtomic::new(), |scope: &mut ThreadTrigger| compute(scope, 0));
    assert_eq!(failed, Err(ComputeError::Zero));
    assert_eq!(scope.as_inner().len(), 0);
}

#[test]
fn cancelled_scope_fails_the_next_checkpoint() {
    let mut scope: ThreadTrigger = LivenessInterceptor::fresh();
    let flag = CancelAtomic::new();
    let handle = flag.clone();
    let mut steps = 0;
    let result: Cancellable<()> = on_atomic(&mut scope, flag, |scope: &mut ThreadTrigger| {
        for step in 0..10 {
            check_local_cancellation(scope)?;
            steps += 1;
            if step == 3 {
                handle.cancel();
            }
        }
        Ok(())
    });
    assert_eq!(result.unwrap_err().cause(), "CancelAtomic");
    assert_eq!(steps, 4);
    assert_eq!(scope.as_inner().len(), 0);
}

#[test]
fn scopes_nest_and_unwind_in_order() {
    let mut scope: ThreadTrigger = LivenessInterceptor::fresh();
    let outer = CancelAtomic::new();
    let inner = CancelTimer::new();
    let depths: Cancellable<(usize, usize, usize)> =
        on_trigger(&mut scope, outer, |scope: &mut ThreadTrigger| {
            let before = scope.as_inner().len();
            let inside: Cancellable<usize> =
                on_trigger(scope, inner, |scope: &mut ThreadTrigger| Ok(scope.as_inner().len()));
            Ok((before, inside?, scope.as_inner().len()))
        });
    assert_eq!(depths.unwrap(), (1, 2, 1));
    assert_eq!(scope.as_inner().len(), 0);
}

#[test]
fn inner_scope_sees_the_cancellation_of_the_outer_one() {
    let mut scope: ThreadTrigger = LivenessInterceptor::fresh();
    let outer = CancelAtomic::new();
    outer.cancel();
    let result: Cancellable<()> = on_atomic(&mut scope, outer, |scope: &mut ThreadTrigger| {
        on_trigger(scope, CancelTimer::new(), |scope: &mut ThreadTrigger| {
            check_local_cancellation(scope)
        })
    });
    assert_eq!(result.unwrap_err().cause(), "CancelAtomic");
}

#[test]
fn scope_is_removed_when_its_action_fails() {
    let mut scope: ThreadTrigger = LivenessInterceptor::fresh();
    let flag = CancelAtomic::new();
    flag.cancel();
    let result: Result<String, ComputeError> =
        on_atomic(&mut scope, flag, |scope: &mut ThreadTrigger| compute(scope, 3));
    assert_eq!(result, Err(ComputeError::Cancelled("CancelAtomic")));
    assert_eq!(scope.as_inner().len(), 0);
    assert!(check_local_cancellation(&scope).is_ok());
}

#[test]
fn override_hides_the_enclosing_scopes() {
    let mut scope: ThreadTrigger = LivenessInterceptor::fresh();
    let trigger = CancelAtomic::new();
    let handle = trigger.clone();
    let result: Result<String, ComputeError> =
        on_atomic(&mut scope, trigger, |scope: &mut ThreadTrigger| {
            // Not cancelled yet.
            assert_eq!(compute(scope, 5), Ok("25".to_string()));
            handle.cancel();
            // Cancelled, but not inside the override.
            let quiet = never(scope, |scope: &mut ThreadTrigger| {
                assert_eq!(scope.as_inner().len(), 1);
                assert_eq!(scope.label(), "CancelChain");
                compute(scope, 10)
            });
            assert_eq!(quiet, Ok("100".to_string()));
            // Outside of it the cancellation applies again.
            assert_eq!(scope.as_inner().len(), 1);
            compute(scope, 5)
        });
    assert_eq!(result, Err(ComputeError::Cancelled("CancelAtomic")));
    assert_eq!(scope.as_inner().len(), 0);
}

#[test]
fn scope_inside_an_override_can_still_be_cancelled() {
    let mut scope: ThreadTrigger = LivenessInterceptor::fresh();
    let outer = CancelAtomic::new();
    outer.cancel();
    let inner = CancelTimer::new();
    inner.on_wake(cancel_this::worker::Wake::Elapsed);
    let result: Cancellable<()> = on_atomic(&mut scope, outer, |scope: &mut ThreadTrigger| {
        never(scope, |scope: &mut ThreadTrigger| {
            check_local_cancellation(scope)?;
            let nested: Cancellable<()> =
                on_trigger(scope, inner, |scope: &mut ThreadTrigger| {
                    check_local_cancellation(scope)
                });
            assert_eq!(nested.unwrap_err().cause(), "CancelTimer");
            check_local_cancellation(scope)
        })
    });
    assert!(result.is_ok());
}

#[test]
fn overrides_nest() {
    let mut scope: ThreadTrigger = LivenessInterceptor::fresh();
    let outer = CancelAtomic::new();
    outer.cancel();
    let middle = CancelAtomic::new();
    middle.cancel();
    let depths: Cancellable<(usize, usize, usize)> =
        on_atomic(&mut scope, outer, |scope: &mut ThreadTrigger| {
            never(scope, |scope: &mut ThreadTrigger| {
                on_atomic(scope, middle, |scope: &mut ThreadTrigger| {
                    let before = scope.as_inner().len();
                    let innermost: Cancellable<usize> =
                        never(scope, |scope: &mut ThreadTrigger| {
                            check_local_cancellation(scope)?;
                            Ok(scope.as_inner().len())
                        });
                    assert!(check_local_cancellation(scope).is_err());
                    Ok((before, innermost?, scope.as_inner().len()))
                })
            })
        });
    assert_eq!(depths.unwrap(), (2, 1, 2));
    assert_eq!(scope.as_inner().len(), 1 - 1);
}

#[test]
fn override_puts_back_what_it_set_aside_even_if_the_action_fails() {
    let mut scope: ThreadTrigger = LivenessInterceptor::fresh();
    scope.as_inner_mut().push(CancelAtomic::new());
    scope.as_inner_mut().push(CancelTimer::new());
    let result: Result<String, ComputeError> =
        never(&mut scope, |scope: &mut ThreadTrigger| compute(scope, 0));
    assert_eq!(result, Err(ComputeError::Zero));
    assert_eq!(scope.as_inner().len(), 2);
    assert_eq!(scope.as_inner_mut().pop().unwrap().label(), "CancelTimer");
}

#[test]
fn snapshot_carries_a_scope_to_another_thread_state() {
    let mut scope: ThreadTrigger = LivenessInterceptor::fresh();
    let flag = CancelAtomic::new();
    let handle = flag.clone();
    let snapshot = on_atomic(&mut scope, flag, |scope: &mut ThreadTrigger| {
        Ok::<_, Cancelled>(clone_trigger(scope))
    })
    .unwrap();

    let mut elsewhere: ThreadTrigger = LivenessInterceptor::fresh();
    let result: Cancellable<()> =
        on_trigger(&mut elsewhere, snapshot, |scope: &mut ThreadTrigger| {
            check_local_cancellation(scope)?;
            handle.cancel();
            check_local_cancellation(scope)
        });
    assert_eq!(result.unwrap_err().cause(), "CancelAtomic");
    assert!(check_local_cancellation(&scope).is_ok());
}

#[test]
fn snapshot_of_two_scopes_is_a_chain() {
    let mut scope: ThreadTrigger = LivenessInterceptor::fresh();
    let label: Cancellable<&'static str> =
        on_atomic(&mut scope, CancelAtomic::new(), |scope: &mut ThreadTrigger| {
            on_trigger(scope, CancelTimer::new(), |scope: &mut ThreadTrigger| {
                Ok(clone_trigger(scope).label())
            })
        });
    assert_eq!(label.unwrap(), "CancelChain");
}

fn count(scope: &mut ThreadTrigger, steps: usize) -> Cancellable<usize> {
    for _ in 0..steps {
        check_local_cancellation(scope)?;
    }
    Ok(steps)
}

#[test]
fn cancellation_applies_around_an_override_but_not_inside() {
    let mut scope = LivenessInterceptor::fresh();
    let stop = CancelAtomic::new();
    let result = on_atomic(&mut scope, stop.clone(), |scope| {
        count(scope, 5)?;
        stop.cancel();
        never(scope, |scope| count(scope, 5))?;
        count(scope, 5)
    });
    assert!(result.is_err());
}
