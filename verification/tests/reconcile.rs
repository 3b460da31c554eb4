use iamdreamingof_generator::error::Error;
use iamdreamingof_generator::models::Days;
use iamdreamingof_generator::reconcile::{day_key, DayIndexReconciler, INDEX_KEY, TODAY_KEY};

fn index(entries: &[(&str, u32)]) -> Days {
    let mut days = Days::new();
    for (date, id) in entries {
        days.add_day(date.to_string(), *id);
    }
    days
}

#[test]
fn test_storage_keys() {
    assert_eq!(day_key("2099-01-01"), "days/2099-01-01.json");
    assert_eq!(INDEX_KEY, "days.json");
    assert_eq!(TODAY_KEY, "today.json");
}

#[test]
fn test_empty_index_issues_id_one() {
    let reconciler = DayIndexReconciler::new(Days::new());
    assert_eq!(reconciler.resolve_id("2024-01-01"), Ok(1));
    assert!(reconciler.should_update_index("2024-01-01"));
}

#[test]
fn test_new_date_gets_previous_max_plus_one() {
    let reconciler = DayIndexReconciler::new(index(&[
        ("2024-01-01", 4),
        ("2024-01-02", 17),
        ("2024-01-03", 9),
    ]));
    assert_eq!(reconciler.resolve_id("2024-02-01"), Ok(18));
    assert!(reconciler.should_update_index("2024-02-01"));
}

#[test]
fn test_present_date_keeps_its_id() {
    let reconciler = DayIndexReconciler::new(index(&[("2024-01-01", 4), ("2024-01-02", 17)]));
    assert_eq!(reconciler.resolve_id("2024-01-01"), Ok(4));
    assert!(!reconciler.should_update_index("2024-01-01"));
}

#[test]
fn test_resolve_id_is_idempotent() {
    let mut reconciler = DayIndexReconciler::new(index(&[("2024-01-01", 4)]));

    let first = reconciler.resolve_id("2024-03-03").unwrap();
    assert_eq!(first, 5);
    assert!(reconciler.record("2024-03-03", first));
    assert_eq!(reconciler.index().days.len(), 2);

    let second = reconciler.resolve_id("2024-03-03").unwrap();
    assert_eq!(second, first);
    assert!(!reconciler.should_update_index("2024-03-03"));
    assert!(!reconciler.record("2024-03-03", second));
    assert_eq!(reconciler.index().days.len(), 2);
    assert_eq!(
        reconciler.index(),
        &index(&[("2024-01-01", 4), ("2024-03-03", 5)])
    );
}

#[test]
fn test_overflow_is_detected() {
    let reconciler = DayIndexReconciler::new(index(&[("2024-01-01", u32::MAX)]));
    assert_eq!(reconciler.resolve_id("2024-01-02"), Err(Error::Overflow));
    // The date that holds the largest id still resolves.
    assert_eq!(reconciler.resolve_id("2024-01-01"), Ok(u32::MAX));

    let near = DayIndexReconciler::new(index(&[("2024-01-01", u32::MAX - 1)]));
    assert_eq!(near.resolve_id("2024-01-02"), Ok(u32::MAX));
}

#[test]
fn test_unreadable_index_counts_as_empty() {
    let reconciler = DayIndexReconciler::from_load(Err(Error::NotFound("days.json".to_string())));
    assert_eq!(reconciler.index(), &Days::new());
    assert_eq!(reconciler.resolve_id("2024-01-01"), Ok(1));

    let loaded = DayIndexReconciler::from_load(Ok(index(&[("2024-01-01", 3)])));
    assert_eq!(loaded.resolve_id("2024-01-01"), Ok(3));
}

#[test]
fn test_today_pointer_only_for_today() {
    assert!(DayIndexReconciler::should_update_today_pointer(
        "2024-05-05",
        "2024-05-05"
    ));
    assert!(!DayIndexReconciler::should_update_today_pointer(
        "2024-05-04",
        "2024-05-05"
    ));
    assert!(!DayIndexReconciler::should_update_today_pointer(
        "2099-01-01",
        "2024-05-05"
    ));
}
