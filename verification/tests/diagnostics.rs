use relm::slow_update_warning;
use relm::truncate_label;
use relm::LABEL_LIMIT;
use relm::SLOW_UPDATE_THRESHOLD_MS;

fn long_label(n: usize) -> String {
    std::iter::repeat('x').take(n).collect()
}

#[test]
fn threshold_is_two_hundred_milliseconds() {
    assert_eq!(SLOW_UPDATE_THRESHOLD_MS, 200);
    assert_eq!(LABEL_LIMIT, 100);
}

#[test]
fn slow_update_of_250_ms_yields_exactly_one_report() {
    let report = slow_update_warning("TimerFired", 250);
    let report = report.expect("a 250 ms update is slow");
    assert_eq!(report.elapsed_ms, 250);
    assert_eq!(report.label, "TimerFired");
}

#[test]
fn fast_update_of_50_ms_yields_no_report() {
    assert!(slow_update_warning("TimerFired", 50).is_none());
}

#[test]
fn threshold_boundary_is_inclusive() {
    assert!(slow_update_warning("M", 200).is_some());
    assert!(slow_update_warning("M", 199).is_none());
}

#[test]
fn long_label_is_truncated_to_101_chars_in_report() {
    let label = long_label(120);
    let report = slow_update_warning(&label, 250).expect("slow");
    assert_eq!(report.label.chars().count(), 101);
    assert!(report.label.ends_with('\u{2026}'));
    assert!(report.label.starts_with(&long_label(100)));
}

#[test]
fn short_label_is_kept_as_is() {
    assert_eq!(truncate_label(""), "");
    assert_eq!(truncate_label("ButtonClicked"), "ButtonClicked");
    let exactly_limit = long_label(100);
    assert_eq!(truncate_label(&exactly_limit), exactly_limit);
}

#[test]
fn label_one_past_the_limit_is_truncated() {
    let label = long_label(101);
    let truncated = truncate_label(&label);
    assert_eq!(truncated.chars().count(), 101);
    let mut expected = long_label(100);
    expected.push('\u{2026}');
    assert_eq!(truncated, expected);
}
