//! Scenarios for the event translator: the priority-ordered key rules,
//! the mouse mapping, and the silent drop of unrecognized notifications.

use tanmatsu::event::{Event, KeyEvent, KeyModifier, MouseButton, MouseEvent, MouseEventKind};
use tanmatsu::translate::{translate_notification, RawEvent, RawKeyCode, RawMouseKind, CONTROL_MODIFIER};
use tanmatsu::util::Point;

fn key(code: RawKeyCode, modifiers: u8) -> RawEvent {
    RawEvent::Key { code, modifiers }
}

#[test]
fn it_works() {
    assert_eq!(2 + 2, 4);
}

#[test]
fn control_w_becomes_control_backspace() {
    let raw = key(RawKeyCode::Char('w'), CONTROL_MODIFIER);
    assert_eq!(
        translate_notification(&raw),
        Some(Event::Key(KeyEvent::Backspace(Some(KeyModifier::Control)))),
    );
}

#[test]
fn plain_w_stays_a_character() {
    let raw = key(RawKeyCode::Char('w'), 0);
    assert_eq!(
        translate_notification(&raw),
        Some(Event::Key(KeyEvent::Char('w', None))),
    );
}

#[test]
fn control_character_carries_the_modifier() {
    let raw = key(RawKeyCode::Char('x'), CONTROL_MODIFIER);
    assert_eq!(
        translate_notification(&raw),
        Some(Event::Key(KeyEvent::Char('x', Some(KeyModifier::Control)))),
    );
}

#[test]
fn control_with_another_modifier_is_not_control() {
    // The rules compare the whole modifier byte: control plus anything
    // else does not count as the control modifier.
    let raw = key(RawKeyCode::Char('x'), CONTROL_MODIFIER | 0b1);
    assert_eq!(
        translate_notification(&raw),
        Some(Event::Key(KeyEvent::Char('x', None))),
    );
}

#[test]
fn tab_is_unconditional() {
    assert_eq!(
        translate_notification(&key(RawKeyCode::Tab, CONTROL_MODIFIER)),
        Some(Event::Key(KeyEvent::Tab)),
    );
    assert_eq!(
        translate_notification(&key(RawKeyCode::Tab, 0)),
        Some(Event::Key(KeyEvent::Tab)),
    );
}

#[test]
fn esc_enter_and_plain_backspace() {
    assert_eq!(
        translate_notification(&key(RawKeyCode::Esc, 0)),
        Some(Event::Key(KeyEvent::Esc)),
    );
    assert_eq!(
        translate_notification(&key(RawKeyCode::Enter, 0)),
        Some(Event::Key(KeyEvent::Enter)),
    );
    assert_eq!(
        translate_notification(&key(RawKeyCode::Backspace, 0)),
        Some(Event::Key(KeyEvent::Backspace(None))),
    );
}

#[test]
fn left_and_right_carry_control_only() {
    assert_eq!(
        translate_notification(&key(RawKeyCode::Left, CONTROL_MODIFIER)),
        Some(Event::Key(KeyEvent::Left(Some(KeyModifier::Control)))),
    );
    assert_eq!(
        translate_notification(&key(RawKeyCode::Right, CONTROL_MODIFIER)),
        Some(Event::Key(KeyEvent::Right(Some(KeyModifier::Control)))),
    );
    assert_eq!(
        translate_notification(&key(RawKeyCode::Left, 0)),
        Some(Event::Key(KeyEvent::Left(None))),
    );
    assert_eq!(
        translate_notification(&key(RawKeyCode::Right, 0)),
        Some(Event::Key(KeyEvent::Right(None))),
    );
}

#[test]
fn up_and_down_never_carry_a_modifier() {
    assert_eq!(
        translate_notification(&key(RawKeyCode::Up, CONTROL_MODIFIER)),
        Some(Event::Key(KeyEvent::Up)),
    );
    assert_eq!(
        translate_notification(&key(RawKeyCode::Down, CONTROL_MODIFIER)),
        Some(Event::Key(KeyEvent::Down)),
    );
    assert_eq!(
        translate_notification(&key(RawKeyCode::Up, 0)),
        Some(Event::Key(KeyEvent::Up)),
    );
}

#[test]
fn function_keys_keep_their_index() {
    assert_eq!(
        translate_notification(&key(RawKeyCode::F(5), 0)),
        Some(Event::Key(KeyEvent::F(5))),
    );
    assert_eq!(
        translate_notification(&key(RawKeyCode::F(12), CONTROL_MODIFIER)),
        Some(Event::Key(KeyEvent::F(12))),
    );
}

#[test]
fn unrecognized_notifications_yield_nothing() {
    assert_eq!(translate_notification(&key(RawKeyCode::Other, 0)), None);
    assert_eq!(
        translate_notification(&RawEvent::Mouse { kind: RawMouseKind::Other, column: 1, row: 2 }),
        None,
    );
    assert_eq!(translate_notification(&RawEvent::Other), None);
}

#[test]
fn mouse_actions_map_and_keep_their_cell() {
    let point = Point { x: 3, y: 9 };
    assert_eq!(
        translate_notification(&RawEvent::Mouse { kind: RawMouseKind::Moved, column: 3, row: 9 }),
        Some(Event::Mouse(MouseEvent { kind: MouseEventKind::Move, point })),
    );
    assert_eq!(
        translate_notification(
            &RawEvent::Mouse { kind: RawMouseKind::Down(MouseButton::Left), column: 3, row: 9 },
        ),
        Some(Event::Mouse(MouseEvent { kind: MouseEventKind::Press(MouseButton::Left), point })),
    );
    assert_eq!(
        translate_notification(
            &RawEvent::Mouse { kind: RawMouseKind::Up(MouseButton::Right), column: 3, row: 9 },
        ),
        Some(Event::Mouse(MouseEvent {
            kind: MouseEventKind::Release(MouseButton::Right),
            point,
        })),
    );
    assert_eq!(
        translate_notification(
            &RawEvent::Mouse { kind: RawMouseKind::Drag(MouseButton::Middle), column: 3, row: 9 },
        ),
        Some(Event::Mouse(MouseEvent { kind: MouseEventKind::Drag(MouseButton::Middle), point })),
    );
    assert_eq!(
        translate_notification(&RawEvent::Mouse { kind: RawMouseKind::ScrollUp, column: 3, row: 9 }),
        Some(Event::Mouse(MouseEvent { kind: MouseEventKind::ScrollUp, point })),
    );
    assert_eq!(
        translate_notification(
            &RawEvent::Mouse { kind: RawMouseKind::ScrollDown, column: 3, row: 9 },
        ),
        Some(Event::Mouse(MouseEvent { kind: MouseEventKind::ScrollDown, point })),
    );
}

#[test]
fn translation_is_deterministic() {
    let raws = [
        key(RawKeyCode::Char('w'), CONTROL_MODIFIER),
        key(RawKeyCode::Tab, 0),
        RawEvent::Mouse { kind: RawMouseKind::Moved, column: 7, row: 1 },
        RawEvent::Resize { width: 10, height: 10 },
        RawEvent::Other,
    ];
    for raw in raws {
        assert_eq!(translate_notification(&raw), translate_notification(&raw));
    }
}

#[test]
fn resize_always_translates_to_the_payloadless_event() {
    assert_eq!(
        translate_notification(&RawEvent::Resize { width: 120, height: 40 }),
        Some(Event::Resize),
    );
}
