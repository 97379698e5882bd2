use angle_entry::data::Direction;
use angle_entry::events::UserEvent;
use angle_entry::pad::PadState;

#[test]
fn press_then_release_emits_begin_and_end() {
    let mut p = PadState::new();
    p.mouse_down(Some(Direction::Up));
    let events = p.update();
    assert_eq!(events, vec![UserEvent::BeginMove(Direction::Up)]);
    assert_eq!(p.pressed_btn, Some(Direction::Up));
    p.mouse_up(Some(Direction::Up));
    let events = p.update();
    assert_eq!(events, vec![UserEvent::EndMove(Direction::Up)]);
    assert_eq!(p.pressed_btn, None);
}

#[test]
fn mismatched_release_is_ignored() {
    let mut p = PadState::new();
    p.mouse_down(Some(Direction::Left));
    p.update();
    p.mouse_up(Some(Direction::Right));
    let events = p.update();
    assert!(events.is_empty());
    assert_eq!(p.pressed_btn, Some(Direction::Left));
}

#[test]
fn release_without_press_is_ignored() {
    let mut p = PadState::new();
    p.mouse_up(Some(Direction::Down));
    let events = p.update();
    assert!(events.is_empty());
    assert_eq!(p.pressed_btn, None);
}

#[test]
fn centre_button_emits_zero() {
    let mut p = PadState::new();
    p.mouse_down(None);
    let events = p.update();
    assert_eq!(events, vec![UserEvent::Zero]);
    assert_eq!(p.pressed_btn, None);
}

#[test]
fn queued_actions_drain_in_order() {
    let mut p = PadState::new();
    p.mouse_down(Some(Direction::Up));
    p.mouse_down(None);
    p.mouse_down(Some(Direction::Down));
    let events = p.update();
    assert_eq!(
        events,
        vec![
            UserEvent::BeginMove(Direction::Up),
            UserEvent::Zero,
            UserEvent::BeginMove(Direction::Down),
        ]
    );
    assert_eq!(p.pressed_btn, Some(Direction::Down));
    assert!(p.actions.is_empty());
}
