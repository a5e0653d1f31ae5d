use render_core::input::keyboard::Keyboard;
use render_core::input::mouse::{Mouse, MouseButton};

#[test]
fn first_key_down_presses_and_holds() {
    let mut keyboard = Keyboard::new();
    assert!(!keyboard.pressed(100));
    assert!(!keyboard.held(100));
    keyboard.press(100);
    assert!(keyboard.pressed(100));
    assert!(keyboard.held(100));
    assert!(!keyboard.pressed(101));
}

#[test]
fn repeated_key_down_in_a_frame_takes_the_press_away() {
    let mut keyboard = Keyboard::new();
    keyboard.press(100);
    keyboard.press(100);
    assert!(!keyboard.pressed(100));
    assert!(keyboard.held(100));
}

#[test]
fn new_frame_clears_presses_only() {
    let mut keyboard = Keyboard::new();
    keyboard.press(100);
    keyboard.press(200);
    keyboard.clear_pressed();
    assert!(!keyboard.pressed(100));
    assert!(keyboard.held(100));
    assert!(keyboard.held(200));
    keyboard.release(&100);
    assert!(!keyboard.held(100));
    assert!(keyboard.held(200));
    keyboard.press(200);
    keyboard.release(&200);
    assert!(!keyboard.pressed(200));
    assert!(!keyboard.held(200));
}

fn frames(mouse: &mut Mouse, states: &[bool]) {
    for down in states {
        if *down {
            mouse.mouse_button_down(MouseButton::Left);
        } else {
            mouse.mouse_button_up(MouseButton::Left);
        }
        mouse.clear_button_pressed();
    }
}

#[test]
fn short_press_is_a_click() {
    for length in 1..=6 {
        let mut mouse = Mouse::new();
        let mut states = vec![false];
        states.extend(std::iter::repeat(true).take(length));
        frames(&mut mouse, &states);
        assert!(!mouse.left_clicked());
        frames(&mut mouse, &[false]);
        assert!(mouse.left_clicked(), "a press of {} frames", length);
        frames(&mut mouse, &[false]);
        assert!(!mouse.left_clicked());
    }
}

#[test]
fn long_press_is_no_click() {
    let mut mouse = Mouse::new();
    frames(&mut mouse, &[false, true, true, true, true, true, true, true, false]);
    assert!(!mouse.left_clicked());
    assert_eq!(mouse.left_history, 0b11111110);
}

#[test]
fn four_frames_down_is_a_hold() {
    let mut mouse = Mouse::new();
    frames(&mut mouse, &[true, true, true]);
    assert!(!mouse.left_held());
    frames(&mut mouse, &[true]);
    assert!(mouse.left_held());
    assert_eq!(mouse.left_history, 0b1111);
    frames(&mut mouse, &[false]);
    assert!(!mouse.left_held());
}

#[test]
fn consumed_click_is_gone_for_the_frame() {
    let mut mouse = Mouse::new();
    frames(&mut mouse, &[true, true, false]);
    assert!(mouse.left_clicked());
    mouse.consume_left();
    assert!(!mouse.left_clicked());
    assert!(!mouse.left_held());
    assert!(mouse.left_consumed);
    mouse.clear_button_pressed();
    assert!(!mouse.left_consumed);
}

#[test]
fn right_button_clicks_for_one_frame() {
    let mut mouse = Mouse::new();
    mouse.mouse_button_down(MouseButton::Right);
    assert!(mouse.right_clicked());
    assert!(mouse.right_held());
    mouse.clear_button_pressed();
    assert!(!mouse.right_clicked());
    assert!(mouse.right_held());
    mouse.mouse_button_down(MouseButton::Right);
    mouse.consume_right();
    assert!(!mouse.right_clicked());
    assert!(mouse.right_held());
    mouse.mouse_button_up(MouseButton::Right);
    assert!(!mouse.right_held());
    let before = mouse;
    mouse.mouse_button_down(MouseButton::Middle);
    mouse.mouse_button_up(MouseButton::X1);
    assert_eq!(mouse, before);
}
