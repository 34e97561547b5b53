use commonsdl::timing::{frame_delay, remaining_delay};

#[test]
fn frame_delay_values() {
    assert_eq!(frame_delay(60), 16);
    assert_eq!(frame_delay(30), 33);
    assert_eq!(frame_delay(1), 1000);
    assert_eq!(frame_delay(1000), 1);
    assert_eq!(frame_delay(1001), 0);
    assert_eq!(frame_delay(u32::MAX), 0);
}

#[test]
fn remaining_delay_values() {
    assert_eq!(remaining_delay(16, 0), 16);
    assert_eq!(remaining_delay(16, 10), 6);
    assert_eq!(remaining_delay(16, 15), 1);
    assert_eq!(remaining_delay(16, 16), 0);
    assert_eq!(remaining_delay(16, 17), 0);
    assert_eq!(remaining_delay(0, 0), 0);
    assert_eq!(remaining_delay(u32::MAX, 0), u32::MAX);
    assert_eq!(remaining_delay(5, u32::MAX), 0);
}
