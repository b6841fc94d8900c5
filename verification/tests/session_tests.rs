use site_recorder::session::{create_cookie, SessionError, SessionManager};

#[test]
fn test_session_creation() {
    let mut manager = SessionManager::new();
    assert!(!manager.is_active());

    manager
        .create_session("test-123".to_string(), chrono::Utc::now().timestamp())
        .unwrap();
    assert!(manager.is_active());
    assert_eq!(manager.get_session_id(), Some("test-123".to_string()));
}

#[test]
fn test_cookie_management() {
    let mut manager = SessionManager::new();
    manager
        .create_session("test-456".to_string(), chrono::Utc::now().timestamp())
        .unwrap();

    let cookie = create_cookie("session", "abc123", Some("example.com"));
    manager.add_cookie(cookie).unwrap();

    let cookies = manager.get_cookies().unwrap();
    assert_eq!(cookies.len(), 1);
    assert_eq!(cookies[0].name, "session");
}

#[test]
fn test_session_expiry() {
    let mut manager = SessionManager::new();
    manager
        .create_session("test-789".to_string(), chrono::Utc::now().timestamp())
        .unwrap();

    let past_time = chrono::Utc::now().timestamp() - 3600;
    manager.set_expiry(past_time).unwrap();

    assert!(manager.is_expired(chrono::Utc::now().timestamp()));
}

#[test]
fn cookie_defaults_are_fixed() {
    let cookie = create_cookie("id", "v", None);
    assert_eq!(cookie.name, "id");
    assert_eq!(cookie.value, "v");
    assert_eq!(cookie.domain, None);
    assert_eq!(cookie.path, Some("/".to_string()));
    assert!(!cookie.secure);
    assert!(!cookie.http_only);
    assert_eq!(cookie.expires, None);
}

#[test]
fn operations_without_session_fail() {
    let mut manager = SessionManager::new();
    let cookie = create_cookie("a", "b", None);
    assert!(matches!(
        manager.add_cookie(cookie),
        Err(SessionError::SessionError(_))
    ));
    assert!(matches!(
        manager.set_expiry(0),
        Err(SessionError::SessionError(_))
    ));
    assert_eq!(manager.get_cookies().unwrap().len(), 0);
    assert_eq!(manager.get_session_id(), None);
    assert!(!manager.is_expired(i64::MAX));
}

#[test]
fn clear_session_discards_state() {
    let mut manager = SessionManager::new();
    manager.create_session("gone".to_string(), 7).unwrap();
    manager.clear_session();
    assert!(!manager.is_active());
    assert_eq!(manager.get_session_id(), None);
}

#[test]
fn unexpired_session_is_not_expired() {
    let mut manager = SessionManager::new();
    manager.create_session("fresh".to_string(), 1000).unwrap();
    assert!(!manager.is_expired(5000));
    manager.set_expiry(6000).unwrap();
    assert!(!manager.is_expired(6000));
    assert!(manager.is_expired(6001));
}
