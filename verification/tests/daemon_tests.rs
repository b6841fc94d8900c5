use site_recorder::daemon::DaemonManager;

#[test]
fn test_daemon_manager_creation() {
    let manager = DaemonManager::new(None);
    assert!(!manager.should_stop());
}

#[test]
fn test_pid_file_path() {
    let pid_file = "/tmp/test.pid".to_string();
    let manager = DaemonManager::new(Some(pid_file.clone()));
    assert_eq!(manager.pid_file, Some(pid_file));
}

#[test]
fn requested_stop_is_observed() {
    let mut manager = DaemonManager::new(None);
    assert!(!manager.should_stop());
    manager.request_stop();
    assert!(manager.should_stop());
}
