use angle_entry::field::BoundedField;

#[test]
fn set_text_parsable_in_range_stores_value() {
    let mut f = BoundedField::new(false, 60);
    f.set_text("42".to_string());
    assert!(f.valid);
    assert_eq!(f.value, 42);
    assert_eq!(f.text, "42");
}

#[test]
fn set_text_non_integer_invalidates_and_keeps_value() {
    let mut f = BoundedField::new(false, 60);
    f.set_text("17".to_string());
    assert_eq!(f.value, 17);
    f.set_text("abc".to_string());
    assert!(!f.valid);
    assert_eq!(f.value, 17);
    assert_eq!(f.text, "abc");
    f.set_text("".to_string());
    assert!(!f.valid);
    assert_eq!(f.value, 17);
}

#[test]
fn set_text_out_of_range_clamps() {
    let mut f = BoundedField::new(false, 60);
    f.set_text("100".to_string());
    assert!(f.valid);
    assert_eq!(f.value, 59);
    let mut g = BoundedField::new(true, 24);
    g.set_text("-99".to_string());
    assert!(g.valid);
    assert_eq!(g.value, -23);
}

#[test]
fn negative_range_is_symmetric_minus_one() {
    let f = BoundedField::new(true, 24);
    assert_eq!(f.min_value, -23);
    assert_eq!(f.max_value, 24);
    let g = BoundedField::new(false, 60);
    assert_eq!(g.min_value, 0);
    assert_eq!(g.max_value, 60);
}

#[test]
fn increment_at_top_wraps_with_overflow() {
    let mut f = BoundedField::new(true, 24);
    f.set_text("23".to_string());
    assert!(f.valid);
    f.request_increment();
    f.apply_pending_adjustments();
    assert_eq!(f.value, -23);
    assert!(f.overflow_pending);
    assert!(!f.increment_requested);
}

#[test]
fn decrement_at_bottom_wraps_with_underflow() {
    let mut f = BoundedField::new(false, 60);
    f.request_decrement();
    f.apply_pending_adjustments();
    assert_eq!(f.value, 59);
    assert!(f.underflow_pending);
    assert!(!f.decrement_requested);
}

#[test]
fn plain_step_moves_by_one() {
    let mut f = BoundedField::new(false, 60);
    f.set_text("30".to_string());
    f.request_increment();
    f.apply_pending_adjustments();
    assert_eq!(f.value, 31);
    assert!(!f.overflow_pending);
    f.request_decrement();
    f.apply_pending_adjustments();
    assert_eq!(f.value, 30);
    assert!(!f.underflow_pending);
}

#[test]
fn invalid_text_blocks_stepping() {
    let mut f = BoundedField::new(false, 60);
    f.set_text("oops".to_string());
    f.request_increment();
    f.apply_pending_adjustments();
    assert_eq!(f.value, 0);
    assert!(f.increment_requested);
    assert_eq!(f.text, "oops");
    f.set_text("5".to_string());
    f.apply_pending_adjustments();
    assert_eq!(f.value, 6);
    assert!(!f.increment_requested);
}

#[test]
fn adjustment_pass_refreshes_text() {
    let mut f = BoundedField::new(false, 60);
    f.set_text("007".to_string());
    assert_eq!(f.text, "007");
    f.apply_pending_adjustments();
    assert_eq!(f.text, "7");
    assert_eq!(f.value, 7);
}
