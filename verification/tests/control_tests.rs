use site_recorder::control::{CrawlStatus, CrawlStep, FinishReason, next_crawl_step};

#[test]
fn begin_run_rejects_a_second_run() {
    let mut status = CrawlStatus::default();
    let sid = status.begin_run("https://example.com", "20240101_090000").unwrap();
    assert_eq!(sid, "session_20240101_090000");
    assert!(status.is_running);
    assert_eq!(status.current_url, "https://example.com");
    assert_eq!(status.pages_visited, 0);

    let second = status.begin_run("https://other.example", "20240101_090001");
    assert_eq!(second, Err("Recording already in progress".to_string()));
    assert_eq!(status.session_id, "session_20240101_090000");
}

#[test]
fn default_status_is_idle() {
    let status = CrawlStatus::default();
    assert!(!status.is_running);
    assert_eq!(status.current_url, "");
    assert_eq!(status.pages_visited, 0);
    assert_eq!(status.pages_discovered, 0);
    assert_eq!(status.session_id, "");
}

#[test]
fn crawl_step_order_of_decisions() {
    let url = Some("https://example.com/a".to_string());
    assert!(matches!(
        next_crawl_step(true, 0, 10, url.clone()),
        CrawlStep::Finish(FinishReason::Stopped)
    ));
    assert!(matches!(
        next_crawl_step(false, 10, 10, url.clone()),
        CrawlStep::Finish(FinishReason::PageLimit)
    ));
    assert!(matches!(
        next_crawl_step(false, 3, 10, None),
        CrawlStep::Finish(FinishReason::Exhausted)
    ));
    match next_crawl_step(false, 3, 10, url) {
        CrawlStep::Visit(u) => assert_eq!(u, "https://example.com/a"),
        _ => panic!("expected a visit"),
    }
}

#[test]
fn visits_are_counted_and_run_finishes() {
    let mut status = CrawlStatus::default();
    status.begin_run("https://example.com", "s").unwrap();
    status.record_visit("https://example.com/1".to_string(), 4);
    status.record_visit("https://example.com/2".to_string(), 9);
    assert_eq!(status.pages_visited, 2);
    assert_eq!(status.pages_discovered, 9);
    assert_eq!(status.current_url, "https://example.com/2");
    status.finish_run();
    assert!(!status.is_running);
    assert_eq!(status.pages_visited, 2);
}
