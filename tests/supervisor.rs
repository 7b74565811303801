use sidecar_supervisor::supervisor::{
    Phase, ShutdownOutcome, ShutdownPlan, SidecarManager, StartPlan,
};

#[test]
fn shutdown_when_nothing_runs_is_not_an_error() {
    let mut m = SidecarManager::new();
    assert_eq!(m.shutdown(true), ShutdownPlan::NotRunning);
    assert_eq!(m.shutdown(false), ShutdownPlan::NotRunning);
    assert_eq!(m.get_phase(), Phase::Absent);
    assert_eq!(m.get_handle(), None);
    assert!(!m.get_status());
}

#[test]
fn start_reuses_healthy_instance() {
    let mut m = SidecarManager::new();
    assert_eq!(m.start_sidecar(true), StartPlan::Reuse);
    assert_eq!(m.get_phase(), Phase::Healthy);
    assert_eq!(m.get_handle(), None);
    // A spawn reported after adopting an instance is refused and handed back.
    assert_eq!(m.record_spawn(42), Some(42));
    assert_eq!(m.get_handle(), None);
}

#[test]
fn start_spawn_and_become_healthy() {
    let mut m = SidecarManager::new();
    assert_eq!(m.start_sidecar(false), StartPlan::Spawn);
    assert_eq!(m.get_phase(), Phase::Starting);
    assert_eq!(m.record_spawn(100), None);
    assert_eq!(m.get_handle(), Some(100));
    assert!(m.get_status());
    m.became_healthy();
    assert_eq!(m.get_phase(), Phase::Healthy);
}

#[test]
fn second_spawn_is_never_stored() {
    let mut m = SidecarManager::new();
    m.start_sidecar(false);
    assert_eq!(m.record_spawn(100), None);
    assert_eq!(m.record_spawn(200), Some(200));
    assert_eq!(m.get_handle(), Some(100));
}

#[test]
fn start_replaces_unresponsive_child() {
    let mut m = SidecarManager::new();
    m.start_sidecar(false);
    m.record_spawn(100);
    m.became_healthy();
    assert_eq!(m.start_sidecar(false), StartPlan::ReplaceThenSpawn(100));
    assert_eq!(m.get_handle(), None);
    assert_eq!(m.record_spawn(101), None);
    assert_eq!(m.get_handle(), Some(101));
}

#[test]
fn spawn_failure_returns_to_absent() {
    let mut m = SidecarManager::new();
    m.start_sidecar(false);
    m.spawn_failed();
    assert_eq!(m.get_phase(), Phase::Absent);
    assert!(!m.get_status());
}

#[test]
fn start_timeout_hands_back_child() {
    let mut m = SidecarManager::new();
    m.start_sidecar(false);
    m.record_spawn(7);
    assert_eq!(m.start_timed_out(), Some(7));
    assert_eq!(m.get_phase(), Phase::Absent);
    assert_eq!(m.get_handle(), None);
    assert_eq!(m.start_timed_out(), None);
}

#[test]
fn exit_event_clears_only_matching_child() {
    let mut m = SidecarManager::new();
    m.start_sidecar(false);
    m.record_spawn(7);
    m.process_exited(8);
    assert_eq!(m.get_handle(), Some(7));
    m.process_exited(7);
    assert_eq!(m.get_handle(), None);
    assert!(!m.get_status());
    assert_eq!(m.get_phase(), Phase::Absent);
    // A later start does not believe the dead process is alive.
    assert_eq!(m.start_sidecar(false), StartPlan::Spawn);
}

#[test]
fn graceful_shutdown_succeeds_when_process_leaves() {
    let mut m = SidecarManager::new();
    m.start_sidecar(false);
    m.record_spawn(9);
    m.became_healthy();
    assert_eq!(m.shutdown(true), ShutdownPlan::RequestGraceful);
    assert_eq!(m.get_phase(), Phase::ShuttingDown);
    assert_eq!(m.finish_graceful(true, false), ShutdownOutcome::Graceful);
    assert_eq!(m.get_phase(), Phase::Absent);
    assert_eq!(m.get_handle(), None);
}

#[test]
fn graceful_shutdown_falls_back_to_kill() {
    let mut m = SidecarManager::new();
    m.start_sidecar(false);
    m.record_spawn(9);
    assert_eq!(m.shutdown(true), ShutdownPlan::RequestGraceful);
    assert_eq!(m.finish_graceful(false, true), ShutdownOutcome::Forced(9));
    assert_eq!(m.get_handle(), None);
    assert!(!m.get_status());
}

#[test]
fn acknowledged_but_still_answering_is_forced() {
    let mut m = SidecarManager::new();
    m.start_sidecar(false);
    m.record_spawn(9);
    m.shutdown(true);
    assert_eq!(m.finish_graceful(true, true), ShutdownOutcome::Forced(9));
}

#[test]
fn forced_shutdown_kills_stored_child() {
    let mut m = SidecarManager::new();
    m.start_sidecar(false);
    m.record_spawn(11);
    assert_eq!(m.shutdown(false), ShutdownPlan::ForceKill(11));
    assert_eq!(m.get_handle(), None);
    assert_eq!(m.shutdown(false), ShutdownPlan::NotRunning);
}

#[test]
fn restart_sequence_keeps_one_child() {
    let mut m = SidecarManager::new();
    for round in 0..5u32 {
        // restart: graceful shutdown, then start again
        let plan = m.shutdown(true);
        if plan == ShutdownPlan::RequestGraceful {
            m.finish_graceful(false, true);
        }
        assert_eq!(m.get_handle(), None);
        assert_eq!(m.start_sidecar(false), StartPlan::Spawn);
        assert_eq!(m.record_spawn(round), None);
        assert_eq!(m.get_handle(), Some(round));
    }
}

#[test]
fn forced_stop_of_adopted_instance_clears_running() {
    let mut m = SidecarManager::new();
    assert_eq!(m.start_sidecar(true), StartPlan::Reuse);
    assert!(m.get_status());
    assert_eq!(m.shutdown(false), ShutdownPlan::NotRunning);
    assert!(!m.get_status());
    assert_eq!(m.get_phase(), Phase::Absent);
    assert_eq!(m.get_handle(), None);
}

#[test]
fn graceful_stop_of_adopted_instance_that_still_answers() {
    let mut m = SidecarManager::new();
    m.start_sidecar(true);
    assert_eq!(m.shutdown(true), ShutdownPlan::RequestGraceful);
    assert_eq!(m.finish_graceful(false, true), ShutdownOutcome::StillAnswering);
    assert!(!m.get_status());
    assert_eq!(m.get_phase(), Phase::Absent);
}

#[test]
fn graceful_stop_of_adopted_instance_that_left() {
    let mut m = SidecarManager::new();
    m.start_sidecar(true);
    m.shutdown(true);
    assert_eq!(m.finish_graceful(false, false), ShutdownOutcome::NotRunning);
}
