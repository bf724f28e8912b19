use todo_rs::models::Priority;

#[test]
fn test_default_priority_is_low() {
    assert_eq!(Priority::default(), Priority::Low);
}
