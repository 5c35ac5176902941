use oneshot_invoker::oneshot::{CallStep, Completion, Oneshot, Phase, Readiness, ReadyStep};

#[test]
fn new_invoker_is_pending() {
    let inv: Oneshot<u32> = Oneshot::new(41);
    assert_eq!(inv.phase(), Phase::Pending);
}

#[test]
fn immediate_ready_success() {
    // Capability ready immediately, processing succeeds with value V for
    // request R: one fused pass yields Ok(V).
    let mut inv: Oneshot<String> = Oneshot::new(String::from("request R"));
    let step = inv.drive_ready::<String>(Readiness::Ready);
    match step {
        ReadyStep::Invoke(req) => assert_eq!(req, "request R"),
        _ => panic!("the request was not handed to the processing step"),
    }
    assert_eq!(inv.phase(), Phase::Invoking);
    let step = inv.drive_called::<u32, String>(Completion::Resolved(Ok(17)));
    match step {
        CallStep::Finish(Ok(v)) => assert_eq!(v, 17),
        _ => panic!("the processing outcome was not passed through"),
    }
    assert_eq!(inv.phase(), Phase::Completed);
}

#[test]
fn not_ready_then_processing_error() {
    // Capability reports NotReady once, then ready; processing fails with E:
    // the first drive suspends, the second yields Err(E).
    let mut inv: Oneshot<u32> = Oneshot::new(5);
    let step = inv.drive_ready::<String>(Readiness::NotReady);
    assert!(matches!(step, ReadyStep::Suspend));
    assert_eq!(inv.phase(), Phase::Pending);
    let step = inv.drive_ready::<String>(Readiness::Ready);
    match step {
        ReadyStep::Invoke(req) => assert_eq!(req, 5),
        _ => panic!("the request was not handed to the processing step"),
    }
    let step = inv.drive_called::<u32, String>(Completion::Resolved(Err(String::from("E"))));
    match step {
        CallStep::Finish(Err(e)) => assert_eq!(e, "E"),
        _ => panic!("the processing error was not passed through"),
    }
    assert_eq!(inv.phase(), Phase::Completed);
}

#[test]
fn readiness_failure_short_circuits() {
    // The readiness check itself fails with F: the outcome is Err(F), the
    // processing step is never invoked and the request is never consumed.
    let mut inv: Oneshot<u32> = Oneshot::new(9);
    let step = inv.drive_ready::<String>(Readiness::Failed(String::from("F")));
    match step {
        ReadyStep::Finish(e) => assert_eq!(e, "F"),
        ReadyStep::Invoke(_) => panic!("the processing step must never be invoked"),
        ReadyStep::Suspend => panic!("a readiness failure must complete the invoker"),
    }
    assert_eq!(inv.phase(), Phase::Completed);
}

#[test]
fn repeated_not_ready_suspends() {
    // NotReady several times: each drive suspends and changes nothing; the
    // request is handed over exactly once, when readiness first succeeds.
    let mut inv: Oneshot<u32> = Oneshot::new(23);
    let mut waits: usize = 0;
    while waits < 3 {
        let step = inv.drive_ready::<String>(Readiness::NotReady);
        assert!(matches!(step, ReadyStep::Suspend));
        assert_eq!(inv.phase(), Phase::Pending);
        waits += 1;
    }
    let step = inv.drive_ready::<String>(Readiness::Ready);
    match step {
        ReadyStep::Invoke(req) => assert_eq!(req, 23),
        _ => panic!("the request was not handed to the processing step"),
    }
    assert_eq!(inv.phase(), Phase::Invoking);
}

#[test]
fn in_flight_suspension_keeps_invoking() {
    // An unresolved in-flight computation suspends the invoker without
    // completing it; the resolved outcome is then produced exactly once.
    let mut inv: Oneshot<u32> = Oneshot::new(1);
    let step = inv.drive_ready::<String>(Readiness::Ready);
    assert!(matches!(step, ReadyStep::Invoke(1)));
    let step = inv.drive_called::<u32, String>(Completion::Suspended);
    assert!(matches!(step, CallStep::Suspend));
    assert_eq!(inv.phase(), Phase::Invoking);
    let step = inv.drive_called::<u32, String>(Completion::Resolved(Ok(2)));
    assert!(matches!(step, CallStep::Finish(Ok(2))));
    assert_eq!(inv.phase(), Phase::Completed);
}
