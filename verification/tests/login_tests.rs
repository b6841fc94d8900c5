use site_recorder::login::{
    LoginPlan, contains_str, field_prefilled, is_local_address, plan_login, require_step,
    selector_candidates, trim_str,
};
use site_recorder::session::SessionError;

#[test]
fn selectors_are_split_and_trimmed() {
    let got = selector_candidates("#user, input[name=login] ,\t.u ");
    assert_eq!(got, vec!["#user", "input[name=login]", ".u"]);
}

#[test]
fn single_selector_survives_unchanged() {
    assert_eq!(selector_candidates("#password"), vec!["#password"]);
    assert_eq!(selector_candidates("  spaced  "), vec!["spaced"]);
    assert_eq!(selector_candidates(""), vec![""]);
    assert_eq!(selector_candidates("a,,b"), vec!["a", "", "b"]);
}

#[test]
fn trimming_removes_surrounding_whitespace_only() {
    assert_eq!(trim_str("  a b \t"), "a b");
    assert_eq!(trim_str("\r\nx\n"), "x");
    assert_eq!(trim_str("plain"), "plain");
    assert_eq!(trim_str("   "), "");
}

#[test]
fn substring_search_finds_patterns() {
    assert!(contains_str("https://localhost:3000/login", "localhost"));
    assert!(!contains_str("https://example.com", "localhost"));
    assert!(contains_str("anything", ""));
    assert!(!contains_str("ab", "abc"));
}

#[test]
fn local_addresses_are_recognized() {
    assert!(is_local_address("http://localhost:8080"));
    assert!(is_local_address("http://127.0.0.1/login"));
    assert!(!is_local_address("https://example.com/127"));
}

#[test]
fn prefilled_fields_need_nonblank_values() {
    let filled = "alice".to_string();
    let blank = "   ".to_string();
    assert!(field_prefilled(Some(&filled)));
    assert!(!field_prefilled(Some(&blank)));
    assert!(!field_prefilled(None));
}

#[test]
fn login_plan_skips_filling_only_on_prefilled_local_forms() {
    assert_eq!(
        plan_login("http://localhost/login", true, true),
        LoginPlan::SubmitOnly
    );
    assert_eq!(
        plan_login("http://localhost/login", true, false),
        LoginPlan::FillThenSubmit
    );
    assert_eq!(
        plan_login("https://example.com/login", true, true),
        LoginPlan::FillThenSubmit
    );
}

#[test]
fn failed_steps_name_the_missing_part() {
    assert!(require_step(true, "submit button").is_ok());
    match require_step(false, "submit button") {
        Err(SessionError::AuthFailed(msg)) => {
            assert_eq!(msg, "Could not find submit button");
        }
        _ => panic!("expected an authentication failure"),
    }
}
