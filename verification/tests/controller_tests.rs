use ray_tracer::controller::{CameraController, Key, ScrollDelta, AMOUNT_PRESSED};

fn fresh() -> CameraController {
    CameraController::new(10_000, 2_000)
}

#[test]
fn new_controller_is_idle() {
    let c = fresh();
    assert_eq!(c.amount_forward, 0);
    assert_eq!(c.amount_backward, 0);
    assert_eq!(c.amount_left, 0);
    assert_eq!(c.amount_right, 0);
    assert_eq!(c.amount_up, 0);
    assert_eq!(c.amount_down, 0);
    assert_eq!(c.rotate_horizontal, 0);
    assert_eq!(c.rotate_vertical, 0);
    assert_eq!(c.scroll, 0);
    assert_eq!(c.speed, 10_000);
    assert_eq!(c.sensitivity, 2_000);
}

#[test]
fn keys_set_their_amounts() {
    let mut c = fresh();
    assert!(c.process_keyboard(Key::W, true));
    assert_eq!(c.amount_forward, AMOUNT_PRESSED);
    assert!(c.process_keyboard(Key::Up, false));
    assert_eq!(c.amount_forward, 0);
    assert!(c.process_keyboard(Key::S, true));
    assert_eq!(c.amount_backward, AMOUNT_PRESSED);
    assert!(c.process_keyboard(Key::A, true));
    assert_eq!(c.amount_left, AMOUNT_PRESSED);
    assert!(c.process_keyboard(Key::D, true));
    assert_eq!(c.amount_right, AMOUNT_PRESSED);
    assert!(c.process_keyboard(Key::Space, true));
    assert_eq!(c.amount_up, AMOUNT_PRESSED);
    assert!(c.process_keyboard(Key::LShift, true));
    assert_eq!(c.amount_down, AMOUNT_PRESSED);
}

#[test]
fn arrow_aliases_share_amounts() {
    let mut c = fresh();
    assert!(c.process_keyboard(Key::Up, true));
    assert_eq!(c.amount_forward, AMOUNT_PRESSED);
    assert!(c.process_keyboard(Key::Down, true));
    assert_eq!(c.amount_backward, AMOUNT_PRESSED);
    assert!(c.process_keyboard(Key::Left, true));
    assert_eq!(c.amount_left, AMOUNT_PRESSED);
    assert!(c.process_keyboard(Key::Right, true));
    assert_eq!(c.amount_right, AMOUNT_PRESSED);
}

#[test]
fn unrecognized_key_changes_nothing() {
    let mut c = fresh();
    assert!(!c.process_keyboard(Key::Other, true));
    assert_eq!(c, fresh());
}

#[test]
fn mouse_deltas_accumulate() {
    let mut c = fresh();
    c.process_mouse(1_000_000, -500_000);
    assert_eq!(c.rotate_horizontal, 3_000_000);
    assert_eq!(c.rotate_vertical, -1_500_000);
    // a second motion adds; it does not overwrite
    c.process_mouse(1_000_000, 500_000);
    assert_eq!(c.rotate_horizontal, 6_000_000);
    assert_eq!(c.rotate_vertical, 0);
}

#[test]
fn scroll_lines_and_pixels_normalize() {
    let mut c = fresh();
    // one wheel line is worth 10000.0, sign inverted
    c.process_scroll(ScrollDelta::Lines(2_000_000));
    assert_eq!(c.scroll, -20_000_000_000);
    // pixel deltas pass through unscaled, sign inverted
    c.process_scroll(ScrollDelta::Pixels(123_456));
    assert_eq!(c.scroll, -123_456);
    // an event overwrites the pending impulse; it does not add
    c.process_scroll(ScrollDelta::Pixels(-7));
    assert_eq!(c.scroll, 7);
}
