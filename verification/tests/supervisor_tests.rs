use beep_sfu::supervisor::WorkerLedger;
use beep_sfu::supervisor::startup_may_serve;

#[test]
fn serving_requires_every_bind_to_succeed() {
    assert!(startup_may_serve(&vec![true, true, true]));
    assert!(!startup_may_serve(&vec![true, false, true]));
    assert!(!startup_may_serve(&vec![false]));
    assert!(startup_may_serve(&Vec::new()));
}

#[test]
fn supervisor_returns_only_after_every_worker_exited() {
    let mut ledger = WorkerLedger::new();
    assert!(ledger.may_return());
    ledger.record_spawn();
    ledger.record_spawn();
    assert!(!ledger.may_return());
    ledger.record_exit();
    assert!(!ledger.may_return());
    ledger.record_exit();
    assert!(ledger.may_return());
}
