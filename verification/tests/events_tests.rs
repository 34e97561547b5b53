use commonsdl::events::{KeyboardState, MouseButton, MouseState};

#[test]
fn mouse_button_from_number() {
    assert_eq!(MouseButton::from_ll(0), MouseButton::Unknown);
    assert_eq!(MouseButton::from_ll(1), MouseButton::Left);
    assert_eq!(MouseButton::from_ll(2), MouseButton::Middle);
    assert_eq!(MouseButton::from_ll(3), MouseButton::Right);
    assert_eq!(MouseButton::from_ll(4), MouseButton::X1);
    assert_eq!(MouseButton::from_ll(5), MouseButton::X2);
    assert_eq!(MouseButton::from_ll(6), MouseButton::Unknown);
    assert_eq!(MouseButton::from_ll(255), MouseButton::Unknown);
}

#[test]
fn mouse_button_number_round_trip() {
    for n in 1u8..=5 {
        assert_eq!(MouseButton::from_ll(n).number(), n as u32);
    }
    assert_eq!(MouseButton::Unknown.number(), 0);
}

#[test]
fn mouse_state_keeps_mask() {
    let m = MouseState::from_sdl_state(0b10101);
    assert_eq!(m.to_sdl_state(), 0b10101);
    assert_eq!(m.x, 0);
    assert_eq!(m.y, 0);
}

#[test]
fn mouse_state_buttons() {
    let m = MouseState::from_sdl_state(0b10101);
    assert!(m.left());
    assert!(!m.middle());
    assert!(m.right());
    assert!(!m.x1());
    assert!(m.x2());
    assert!(m.is_mouse_button_pressed(MouseButton::Left));
    assert!(!m.is_mouse_button_pressed(MouseButton::Middle));
    assert!(m.is_mouse_button_pressed(MouseButton::Right));
    assert!(!m.is_mouse_button_pressed(MouseButton::X1));
    assert!(m.is_mouse_button_pressed(MouseButton::X2));
}

#[test]
fn mouse_button_masks() {
    let m = MouseState::from_sdl_state(0);
    assert_eq!(m.button_mask(1), 1);
    assert_eq!(m.button_mask(2), 2);
    assert_eq!(m.button_mask(3), 4);
    assert_eq!(m.button_mask(32), 0x8000_0000);
}

#[test]
fn keyboard_state_reads_table() {
    let keys = [0u8, 1, 0, 7];
    let k = KeyboardState::from_slice(&keys);
    assert_eq!(k.len(), 4);
    assert!(!k.is_scancode_pressed(0));
    assert!(k.is_scancode_pressed(1));
    assert!(!k.is_scancode_pressed(2));
    assert!(k.is_scancode_pressed(3));
}
