use todo_rs::models::Priority;
use todo_rs::priority::{parse_priority, priority_from_label, priority_from_lowercase, priority_label};

#[test]
fn test_parse_priority_high() {
    assert_eq!(parse_priority("high"), Priority::High);
    assert_eq!(parse_priority("h"), Priority::High);
    assert_eq!(parse_priority("HIGH"), Priority::High);
}

#[test]
fn test_parse_priority_medium() {
    assert_eq!(parse_priority("medium"), Priority::Medium);
    assert_eq!(parse_priority("m"), Priority::Medium);
    assert_eq!(parse_priority("MEDIUM"), Priority::Medium);
}

#[test]
fn test_parse_priority_default() {
    assert_eq!(parse_priority("low"), Priority::Low);
    assert_eq!(parse_priority("unknown"), Priority::Low);
    assert_eq!(parse_priority(""), Priority::Low);
}

#[test]
fn test_parse_priority_mixed_case_and_short_forms() {
    assert_eq!(parse_priority("HiGh"), Priority::High);
    assert_eq!(parse_priority("M"), Priority::Medium);
    assert_eq!(parse_priority("H"), Priority::High);
    assert_eq!(parse_priority("highest"), Priority::Low);
}

#[test]
fn test_lowercase_names_need_lowercase() {
    assert_eq!(priority_from_lowercase("high"), Priority::High);
    assert_eq!(priority_from_lowercase("HIGH"), Priority::Low);
    assert_eq!(priority_from_lowercase("m"), Priority::Medium);
}

#[test]
fn test_priority_labels() {
    assert_eq!(priority_label(Priority::Low), "Low");
    assert_eq!(priority_label(Priority::Medium), "Medium");
    assert_eq!(priority_label(Priority::High), "High");
}

#[test]
fn test_priority_label_roundtrip() {
    for p in [Priority::Low, Priority::Medium, Priority::High] {
        assert_eq!(priority_from_label(priority_label(p)), p);
    }
}

#[test]
fn test_unknown_label_reads_as_low() {
    assert_eq!(priority_from_label("Urgent"), Priority::Low);
    assert_eq!(priority_from_label("high"), Priority::Low);
}
