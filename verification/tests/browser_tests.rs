use site_recorder::browser::{NavigationOptions, ScrollBehavior, scroll_step_script};

#[test]
fn test_navigation_options_default() {
    let options = NavigationOptions::default();
    assert_eq!(options.timeout_ms, 30000);
    assert!(options.wait_for_idle);
}

#[test]
fn default_scroll_is_incremental() {
    let options = NavigationOptions::default();
    assert_eq!(
        options.scroll_behavior,
        ScrollBehavior::Incremental { steps: 5, delay_ms: 500 }
    );
}

#[test]
fn scroll_script_interpolates_step_and_total() {
    assert_eq!(
        scroll_step_script(2, 5),
        "window.scrollTo(0, document.body.scrollHeight * 2 / 5);"
    );
    assert_eq!(
        scroll_step_script(10, 10),
        "window.scrollTo(0, document.body.scrollHeight * 10 / 10);"
    );
}
