use service_tray::text::{decimal_string, sessions_phrase, tooltip, Labels};
use service_tray::text::{READY_PHRASE, SERVICE_RUNNING_PHRASE};

fn english() -> Labels {
    Labels {
        app_name: "Remote".to_string(),
        service_running: SERVICE_RUNNING_PHRASE.to_string(),
        ready: READY_PHRASE.to_string(),
    }
}

#[test]
fn decimal_of_zero_is_a_single_digit() {
    assert_eq!(decimal_string(0), "0");
}

#[test]
fn decimal_of_single_digits() {
    for n in 0..10usize {
        assert_eq!(decimal_string(n), format!("{}", n));
    }
}

#[test]
fn decimal_keeps_inner_and_trailing_zeros() {
    assert_eq!(decimal_string(10), "10");
    assert_eq!(decimal_string(100), "100");
    assert_eq!(decimal_string(1005), "1005");
    assert_eq!(decimal_string(12345), "12345");
}

#[test]
fn decimal_of_the_largest_count() {
    assert_eq!(decimal_string(usize::MAX), format!("{}", usize::MAX));
}

#[test]
fn sessions_phrase_puts_the_count_in_braces() {
    assert_eq!(sessions_phrase(3), "{3} sessions");
    assert_eq!(sessions_phrase(0), "{0} sessions");
    assert_eq!(sessions_phrase(42), "{42} sessions");
}

#[test]
fn tooltip_without_sessions_says_the_service_runs() {
    assert_eq!(tooltip(&english(), 0, "0 sessions"), "Remote Service is running");
}

#[test]
fn tooltip_without_sessions_does_not_read_the_phrase() {
    assert_eq!(tooltip(&english(), 0, ""), tooltip(&english(), 0, "anything"));
}

#[test]
fn tooltip_with_sessions_says_ready_and_the_count() {
    assert_eq!(tooltip(&english(), 1, "1 sessions"), "Remote - Ready\n1 sessions");
    assert_eq!(tooltip(&english(), 25, "25 sessions"), "Remote - Ready\n25 sessions");
}

#[test]
fn tooltip_uses_the_localized_texts() {
    let labels = Labels {
        app_name: "Fern".to_string(),
        service_running: "Dienst läuft".to_string(),
        ready: "Bereit".to_string(),
    };
    assert_eq!(tooltip(&labels, 0, ""), "Fern Dienst läuft");
    assert_eq!(tooltip(&labels, 2, "2 Sitzungen"), "Fern - Bereit\n2 Sitzungen");
}

#[test]
fn tooltip_is_the_same_for_the_same_count() {
    assert_eq!(tooltip(&english(), 4, "4 sessions"), tooltip(&english(), 4, "4 sessions"));
}

#[test]
fn phrases_before_localization() {
    assert_eq!(SERVICE_RUNNING_PHRASE, "Service is running");
    assert_eq!(READY_PHRASE, "Ready");
}
