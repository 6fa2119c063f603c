use hexdec::stats::{average_millis, average_parts, closing_report, SessionStats};

#[test]
fn fresh_session_has_zero_counters() {
    let s = SessionStats::new();
    assert_eq!(s.snapshot(), (0, 0));
}

#[test]
fn each_completed_round_counts_once() {
    let mut s = SessionStats::new();
    s.record_round(120);
    assert_eq!(s.snapshot(), (1, 120));
    s.record_round(0);
    assert_eq!(s.snapshot(), (2, 120));
    s.record_round(880);
    assert_eq!(s.snapshot(), (3, 1000));
}

#[test]
fn average_of_no_rounds_is_zero() {
    let avg = average_millis(0, 0);
    assert_eq!(avg, 0);
    assert_eq!(average_parts(avg), (0, 0));
}

#[test]
fn average_of_four_rounds_in_five_seconds() {
    let avg = average_millis(4, 5000);
    assert_eq!(avg, 1250);
    assert_eq!(average_parts(avg), (1, 250));
}

#[test]
fn average_rounds_down() {
    assert_eq!(average_millis(3, 1000), 333);
}

#[test]
fn report_formats_seconds_and_millis() {
    assert_eq!(
        closing_report(4, 5000).as_str(),
        "\nYou played 4 iterations and your average response time was 1.250 \
         seconds. Come back again! :)"
    );
}

#[test]
fn report_before_any_round_says_zero() {
    assert_eq!(
        closing_report(0, 0).as_str(),
        "\nYou played 0 iterations and your average response time was 0.0 \
         seconds. Come back again! :)"
    );
}
