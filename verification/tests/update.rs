use logviewer_lib::update::{UpdateFlow, UpdatePhase};

/// Drives one update flow the way the host's background task does, against
/// a fake updater that reports `available` and then streams `chunks` (with
/// `total` advertised to the progress callback). Returns the progress
/// values the callback observed and the ordered log of callback firings.
fn run_fake_updater(available: bool, chunks: &[u64], total: Option<u64>) -> (Vec<u64>, Vec<String>) {
    let mut flow = UpdateFlow::new();
    let mut observed: Vec<u64> = Vec::new();
    let mut log: Vec<String> = Vec::new();

    flow.start_check();
    flow.on_check_result(available);
    if !available {
        assert_eq!(flow.phase, UpdatePhase::NoUpdate);
        return (observed, log);
    }

    for &chunk in chunks {
        assert_eq!(flow.phase, UpdatePhase::Downloading);
        assert!(chunk <= u64::MAX - flow.downloaded);
        let progress = flow.on_chunk(chunk);
        observed.push(progress);
        log.push(format!("progress {} of {:?}", progress, total));
    }
    flow.on_download_complete();
    log.push(String::from("download finished"));
    flow.on_installed();
    log.push(String::from("restart"));
    assert_eq!(flow.phase, UpdatePhase::Restarting);
    (observed, log)
}

#[test]
fn update_scenario_two_chunks_in_strict_order() {
    let (observed, log) = run_fake_updater(true, &[100, 50], Some(150));
    assert_eq!(observed, vec![100, 150]);
    assert_eq!(
        log,
        vec![
            String::from("progress 100 of Some(150)"),
            String::from("progress 150 of Some(150)"),
            String::from("download finished"),
            String::from("restart"),
        ]
    );
    assert_eq!(log.iter().filter(|e| *e == "download finished").count(), 1);
    assert_eq!(log.iter().filter(|e| *e == "restart").count(), 1);
}

#[test]
fn no_update_means_no_download_and_no_restart() {
    let (observed, log) = run_fake_updater(false, &[], None);
    assert!(observed.is_empty());
    assert!(log.is_empty());
}

#[test]
fn fresh_flow_is_idle_with_zero_bytes() {
    let flow = UpdateFlow::new();
    assert_eq!(flow.phase, UpdatePhase::Idle);
    assert_eq!(flow.downloaded, 0);
}

#[test]
fn check_error_fails_the_flow() {
    let mut flow = UpdateFlow::new();
    flow.start_check();
    flow.on_error();
    assert_eq!(flow.phase, UpdatePhase::Failed);
    assert_eq!(flow.downloaded, 0);
}

#[test]
fn download_error_fails_the_flow_and_keeps_the_count() {
    let mut flow = UpdateFlow::new();
    flow.start_check();
    flow.on_check_result(true);
    let progress = flow.on_chunk(42);
    assert_eq!(progress, 42);
    flow.on_error();
    assert_eq!(flow.phase, UpdatePhase::Failed);
    assert_eq!(flow.downloaded, 42);
}

#[test]
fn install_error_fails_the_flow() {
    let mut flow = UpdateFlow::new();
    flow.start_check();
    flow.on_check_result(true);
    flow.on_chunk(7);
    flow.on_download_complete();
    assert_eq!(flow.phase, UpdatePhase::Installing);
    flow.on_error();
    assert_eq!(flow.phase, UpdatePhase::Failed);
}

#[test]
fn progress_is_the_running_sum_of_chunks() {
    let (observed, _) = run_fake_updater(true, &[1, 2, 3, 4], Some(10));
    assert_eq!(observed, vec![1, 3, 6, 10]);
}
