use angle_entry::data::Angle;
use angle_entry::events::AngleEvent;
use angle_entry::segment::AngleKind;
use angle_entry::segment::FieldId;
use angle_entry::segment::FirstUnit;
use angle_entry::segment::SegmentedValue;
use angle_entry::segment::first_max_value;
use angle_entry::segment::first_symbol;

#[test]
fn first_unit_selects_bound_and_suffix() {
    assert_eq!(first_max_value(FirstUnit::Degree), 360);
    assert_eq!(first_max_value(FirstUnit::Hour), 24);
    assert_eq!(first_symbol(FirstUnit::Degree), "\u{b0}");
    assert_eq!(first_symbol(FirstUnit::Hour), "h");
}

#[test]
fn new_segment_starts_at_zero_and_valid() {
    let s = SegmentedValue::new(AngleKind::Generic, FirstUnit::Hour);
    assert_eq!(s.high.value, 0);
    assert_eq!(s.mid.value, 0);
    assert_eq!(s.low.value, 0);
    assert_eq!(s.high.min_value, -23);
    assert_eq!(s.high.max_value, 24);
    assert_eq!(s.mid.max_value, 60);
    assert_eq!(s.low.max_value, 60);
    assert!(s.aggregate_valid);
    assert_eq!(s.resolved, Angle(0, 0, 0));
}

fn settled_segment(kind: AngleKind, unit: FirstUnit, h: &str, m: &str, l: &str) -> SegmentedValue {
    let mut s = SegmentedValue::new(kind, unit);
    s.set_field_text(FieldId::High, h.to_string());
    s.set_field_text(FieldId::Mid, m.to_string());
    s.set_field_text(FieldId::Low, l.to_string());
    s.update();
    s
}

#[test]
fn carry_ripples_one_level_per_cycle() {
    // The literal three-cycle trace: start at (10, 59, 59) in hours and
    // request an increment on the low cell.
    let mut s = settled_segment(AngleKind::Ascension, FirstUnit::Hour, "10", "59", "59");
    assert_eq!(s.resolved, Angle(10, 59, 59));
    s.request_step(FieldId::Low, true);

    // Cycle N: low wraps, the carry reaches mid's request flag only.
    let e1 = s.update();
    assert_eq!(s.low.value, 0);
    assert_eq!(s.mid.value, 59);
    assert_eq!(s.high.value, 10);
    assert!(s.mid.increment_requested);
    assert!(!s.low.overflow_pending);
    assert_eq!(s.resolved, Angle(10, 59, 0));
    assert_eq!(e1, Some(AngleEvent::Ascension(Angle(10, 59, 0))));

    // Cycle N+1: mid applies the carried increment and wraps in turn.
    let e2 = s.update();
    assert_eq!(s.mid.value, 0);
    assert_eq!(s.high.value, 10);
    assert!(s.high.increment_requested);
    assert_eq!(s.resolved, Angle(10, 0, 0));
    assert_eq!(e2, Some(AngleEvent::Ascension(Angle(10, 0, 0))));

    // Cycle N+2: high applies the carried increment without overflow.
    let e3 = s.update();
    assert_eq!(s.high.value, 11);
    assert_eq!(s.resolved, Angle(11, 0, 0));
    assert_eq!(e3, Some(AngleEvent::Ascension(Angle(11, 0, 0))));
}

#[test]
fn decrement_carry_is_symmetric() {
    let mut s = settled_segment(AngleKind::Generic, FirstUnit::Hour, "10", "0", "0");
    s.request_step(FieldId::Low, false);
    s.update();
    assert_eq!(s.low.value, 59);
    assert!(s.mid.decrement_requested);
    s.update();
    assert_eq!(s.mid.value, 59);
    assert!(s.high.decrement_requested);
    s.update();
    assert_eq!(s.high.value, 9);
    assert_eq!(s.resolved, Angle(9, 59, 59));
}

#[test]
fn aggregate_validity_is_conjunction() {
    for bad_high in [false, true] {
        for bad_mid in [false, true] {
            for bad_low in [false, true] {
                let mut s = SegmentedValue::new(AngleKind::Generic, FirstUnit::Degree);
                let text = |bad: bool| if bad { "x".to_string() } else { "1".to_string() };
                s.set_field_text(FieldId::High, text(bad_high));
                s.set_field_text(FieldId::Mid, text(bad_mid));
                s.set_field_text(FieldId::Low, text(bad_low));
                s.update();
                assert_eq!(s.aggregate_valid, !bad_high && !bad_mid && !bad_low);
            }
        }
    }
}

#[test]
fn repeated_updates_emit_nothing_new() {
    let mut s = settled_segment(AngleKind::Longitude, FirstUnit::Degree, "12", "34", "56");
    assert!(s.update().is_none());
    assert!(s.update().is_none());
    assert_eq!(s.resolved, Angle(12, 34, 56));
}

#[test]
fn no_event_and_stale_resolved_while_invalid() {
    let mut s = settled_segment(AngleKind::Generic, FirstUnit::Degree, "45", "6", "7");
    assert_eq!(s.resolved, Angle(45, 6, 7));
    s.set_field_text(FieldId::Mid, "nope".to_string());
    let e = s.update();
    assert!(e.is_none());
    assert!(!s.aggregate_valid);
    assert_eq!(s.resolved, Angle(45, 6, 7));
    // Repair the cell: one event announces the triple current by then.
    s.set_field_text(FieldId::Mid, "8".to_string());
    let e = s.update();
    assert!(s.aggregate_valid);
    assert_eq!(e, Some(AngleEvent::Generic(Angle(45, 8, 7))));
}

#[test]
fn event_carries_the_segment_kind() {
    let mut s = settled_segment(AngleKind::Declination, FirstUnit::Degree, "0", "0", "0");
    s.set_field_text(FieldId::High, "5".to_string());
    assert_eq!(s.update(), Some(AngleEvent::Declination(Angle(5, 0, 0))));
    let mut t = settled_segment(AngleKind::Latitude, FirstUnit::Degree, "0", "0", "0");
    t.set_field_text(FieldId::High, "5".to_string());
    assert_eq!(t.update(), Some(AngleEvent::Latitude(Angle(5, 0, 0))));
}

#[test]
fn boundary_high_hour_is_valid_then_wraps() {
    let mut s = settled_segment(AngleKind::Ascension, FirstUnit::Hour, "23", "0", "0");
    assert!(s.aggregate_valid);
    assert_eq!(s.resolved, Angle(23, 0, 0));
    s.request_step(FieldId::High, true);
    s.update();
    assert_eq!(s.high.value, -23);
    assert_eq!(s.resolved, Angle(-23, 0, 0));
}
