use invaders::input::{InputState, MOUSE_BUTTON_LEFT, SCANCODE_A, SCANCODE_SPACE};

fn key_snapshot(current: Vec<i32>, previous: Vec<i32>) -> InputState {
    InputState::new(current, previous, Vec::new(), Vec::new(), (0, 0), 0)
}

#[test]
fn key_pressed_is_level_triggered() {
    let s = key_snapshot(vec![SCANCODE_A, SCANCODE_SPACE], vec![SCANCODE_A]);
    assert!(s.is_key_pressed(SCANCODE_A));
    assert!(s.is_key_pressed(SCANCODE_SPACE));
    assert!(!s.is_key_pressed(99));
}

#[test]
fn key_down_fires_only_on_the_transition_frame() {
    let transition = key_snapshot(vec![SCANCODE_A], vec![]);
    assert!(transition.is_key_down(SCANCODE_A));

    let held = key_snapshot(vec![SCANCODE_A], vec![SCANCODE_A]);
    assert!(!held.is_key_down(SCANCODE_A));
    assert!(held.is_key_pressed(SCANCODE_A));
}

#[test]
fn key_up_fires_only_on_release() {
    let released = key_snapshot(vec![], vec![SCANCODE_A]);
    assert!(released.is_key_up(SCANCODE_A));
    assert!(!released.is_key_down(SCANCODE_A));

    let idle = key_snapshot(vec![], vec![]);
    assert!(!idle.is_key_up(SCANCODE_A));
}

#[test]
fn key_down_is_idempotent_within_a_frame() {
    let s = key_snapshot(vec![SCANCODE_A], vec![]);
    let first = s.is_key_down(SCANCODE_A);
    let second = s.is_key_down(SCANCODE_A);
    assert_eq!(first, second);
    let third = s.is_key_down(99);
    let fourth = s.is_key_down(99);
    assert_eq!(third, fourth);
}

#[test]
fn any_and_all_key_queries() {
    let s = key_snapshot(vec![SCANCODE_A], vec![]);
    assert!(s.is_any_key_pressed(&[SCANCODE_A, SCANCODE_SPACE]));
    assert!(!s.are_all_keys_pressed(&[SCANCODE_A, SCANCODE_SPACE]));
    assert!(s.are_all_keys_pressed(&[SCANCODE_A]));
    assert!(s.is_any_key_down(&[SCANCODE_A, SCANCODE_SPACE]));
    assert!(!s.is_any_key_up(&[SCANCODE_A, SCANCODE_SPACE]));
    assert!(s.are_all_keys_up(&[]));
}

#[test]
fn mouse_button_edges() {
    let down = InputState::new(
        Vec::new(),
        Vec::new(),
        vec![MOUSE_BUTTON_LEFT],
        Vec::new(),
        (5, 7),
        0,
    );
    assert!(down.is_mouse_button_pressed(MOUSE_BUTTON_LEFT));
    assert!(down.is_mouse_button_down(MOUSE_BUTTON_LEFT));
    assert!(!down.is_mouse_button_up(MOUSE_BUTTON_LEFT));
    assert_eq!(down.mouse_x, 5);
    assert_eq!(down.mouse_y, 7);

    let held = InputState::new(
        Vec::new(),
        Vec::new(),
        vec![MOUSE_BUTTON_LEFT],
        vec![MOUSE_BUTTON_LEFT],
        (0, 0),
        3,
    );
    assert!(!held.is_mouse_button_down(MOUSE_BUTTON_LEFT));
    assert!(held.is_any_mouse_button_pressed(&[MOUSE_BUTTON_LEFT]));
    assert!(held.are_all_mouse_buttons_pressed(&[MOUSE_BUTTON_LEFT]));
    assert_eq!(held.mouse_y_scroll, 3);

    let up = InputState::new(
        Vec::new(),
        Vec::new(),
        Vec::new(),
        vec![MOUSE_BUTTON_LEFT],
        (0, 0),
        0,
    );
    assert!(up.is_mouse_button_up(MOUSE_BUTTON_LEFT));
    assert!(up.is_any_mouse_button_up(&[MOUSE_BUTTON_LEFT]));
    assert!(up.are_all_mouse_buttons_up(&[MOUSE_BUTTON_LEFT]));
}
