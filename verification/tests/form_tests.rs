use angle_entry::data::Angle;
use angle_entry::events::UserEvent;
use angle_entry::form::CompositeForm;
use angle_entry::form::FormKind;
use angle_entry::form::submit_label_text;
use angle_entry::segment::AngleKind;
use angle_entry::segment::FieldId;
use angle_entry::segment::FirstUnit;

#[test]
fn rotation_form_pairs_ascension_and_declination() {
    let f = CompositeForm::new(FormKind::Rotation);
    assert_eq!(f.first.kind, AngleKind::Ascension);
    assert_eq!(f.first.first_unit, FirstUnit::Hour);
    assert_eq!(f.second.kind, AngleKind::Declination);
    assert_eq!(f.second.first_unit, FirstUnit::Degree);
    assert!(f.aggregate_valid);
    assert!(f.submit_enabled);
    assert_eq!(f.submit_label, "Tourner le t\u{e9}l\u{e9}scope");
}

#[test]
fn position_form_pairs_longitude_and_latitude() {
    let f = CompositeForm::new(FormKind::Position);
    assert_eq!(f.first.kind, AngleKind::Longitude);
    assert_eq!(f.first.first_unit, FirstUnit::Degree);
    assert_eq!(f.second.kind, AngleKind::Latitude);
    assert_eq!(f.second.first_unit, FirstUnit::Degree);
    assert_eq!(f.submit_label, "Valider la position du t\u{e9}l\u{e9}scope");
}

#[test]
fn submit_labels_follow_validity() {
    assert_eq!(
        submit_label_text(FormKind::Rotation, true),
        "Tourner le t\u{e9}l\u{e9}scope"
    );
    assert_eq!(
        submit_label_text(FormKind::Rotation, false),
        "Angles de rotation invalides"
    );
    assert_eq!(
        submit_label_text(FormKind::Position, true),
        "Valider la position du t\u{e9}l\u{e9}scope"
    );
    assert_eq!(
        submit_label_text(FormKind::Position, false),
        "Coordonn\u{e9}es invalides"
    );
}

#[test]
fn invalid_segment_disables_submit_and_swaps_label() {
    let mut f = CompositeForm::new(FormKind::Rotation);
    f.first.set_field_text(FieldId::Mid, "bad".to_string());
    f.update();
    assert!(!f.aggregate_valid);
    assert!(!f.submit_enabled);
    assert_eq!(f.submit_label, "Angles de rotation invalides");
    f.first.set_field_text(FieldId::Mid, "30".to_string());
    f.update();
    assert!(f.aggregate_valid);
    assert!(f.submit_enabled);
    assert_eq!(f.submit_label, "Tourner le t\u{e9}l\u{e9}scope");
}

#[test]
fn submit_while_invalid_is_dropped_and_cleared() {
    let mut f = CompositeForm::new(FormKind::Rotation);
    f.second.set_field_text(FieldId::Low, "oops".to_string());
    f.request_submit();
    let r = f.update();
    assert!(r.submitted.is_none());
    assert!(!f.submit_requested);
    // Repairing the cell later does not revive the dropped request.
    f.second.set_field_text(FieldId::Low, "0".to_string());
    let r = f.update();
    assert!(r.submitted.is_none());
}

#[test]
fn submit_while_valid_emits_one_composite_event() {
    let mut f = CompositeForm::new(FormKind::Rotation);
    f.first.set_field_text(FieldId::High, "10".to_string());
    f.first.set_field_text(FieldId::Mid, "20".to_string());
    f.first.set_field_text(FieldId::Low, "30".to_string());
    f.second.set_field_text(FieldId::High, "-45".to_string());
    f.second.set_field_text(FieldId::Mid, "6".to_string());
    f.second.set_field_text(FieldId::Low, "7".to_string());
    f.update();
    f.request_submit();
    let r = f.update();
    assert_eq!(
        r.submitted,
        Some(UserEvent::Rotate(Angle(10, 20, 30), Angle(-45, 6, 7)))
    );
    // Exactly one: the next cycle emits nothing without a new request.
    let r = f.update();
    assert!(r.submitted.is_none());
}

#[test]
fn position_form_submits_a_position_event() {
    let mut f = CompositeForm::new(FormKind::Position);
    f.first.set_field_text(FieldId::High, "100".to_string());
    f.second.set_field_text(FieldId::High, "-45".to_string());
    f.update();
    f.request_submit();
    let r = f.update();
    assert_eq!(
        r.submitted,
        Some(UserEvent::UpdatePos(Angle(100, 0, 0), Angle(-45, 0, 0)))
    );
}

#[test]
fn child_events_pass_through_the_form_cycle() {
    let mut f = CompositeForm::new(FormKind::Rotation);
    f.first.set_field_text(FieldId::High, "3".to_string());
    let r = f.update();
    assert_eq!(
        r.first_event,
        Some(angle_entry::events::AngleEvent::Ascension(Angle(3, 0, 0)))
    );
    assert!(r.second_event.is_none());
    assert!(r.submitted.is_none());
}
