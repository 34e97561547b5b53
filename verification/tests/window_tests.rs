use commonsdl::color::Color;
use commonsdl::window::{
    is_zero_terminated, to_raw_windowpos, WindowBuilder, WindowPos, RENDERER_ACCELERATED,
    RENDERER_PRESENTVSYNC, WINDOW_BORDERLESS, WINDOW_FULLSCREEN, WINDOW_RESIZABLE,
};

#[test]
fn zero_terminated_strings() {
    assert!(is_zero_terminated("SDL2\0"));
    assert!(is_zero_terminated("\0"));
    assert!(!is_zero_terminated(""));
    assert!(!is_zero_terminated("SDL2"));
    assert!(!is_zero_terminated("a\0b"));
    assert!(!is_zero_terminated("fen\u{ea}tre\0"));
}

#[test]
fn raw_window_positions() {
    assert_eq!(to_raw_windowpos(WindowPos::Undefined), 0x1FFF_0000);
    assert_eq!(to_raw_windowpos(WindowPos::Centered), 0x2FFF_0000);
    assert_eq!(to_raw_windowpos(WindowPos::Positioned(-7)), -7);
}

#[test]
fn builder_starts_empty() {
    let s = WindowBuilder::new("w\0", 640, 480).settings();
    assert_eq!(s.title, "w\0");
    assert_eq!(s.width, 640);
    assert_eq!(s.height, 480);
    assert_eq!(s.x, WindowPos::Undefined);
    assert_eq!(s.y, WindowPos::Undefined);
    assert_eq!(s.window_flags, 0);
    assert_eq!(s.renderer_flags, 0);
    assert_eq!(s.index, None);
    assert!(!s.is_shaped);
}

#[test]
fn builder_chains_setters() {
    let mut b = WindowBuilder::new("w\0", 640, 480);
    b.position_centered().accelerated().present_vsync().resizable().borderless().index(2);
    let s = b.settings();
    assert_eq!(s.x, WindowPos::Centered);
    assert_eq!(s.y, WindowPos::Centered);
    assert_eq!(s.renderer_flags, RENDERER_ACCELERATED | RENDERER_PRESENTVSYNC);
    assert_eq!(s.window_flags, WINDOW_RESIZABLE | WINDOW_BORDERLESS);
    assert_eq!(s.index, Some(2));
    b.set_window_flags(WINDOW_FULLSCREEN).position(3, -4).set_shaped();
    let s = b.settings();
    assert_eq!(s.window_flags, WINDOW_FULLSCREEN);
    assert_eq!(s.x, WindowPos::Positioned(3));
    assert_eq!(s.y, WindowPos::Positioned(-4));
    assert!(s.is_shaped);
}

#[test]
fn color_from_tuples() {
    let c = Color::from((1, 2, 3));
    assert_eq!((c.r, c.g, c.b, c.a), (1, 2, 3, 255));
    let c = Color::from((1, 2, 3, 4));
    assert_eq!((c.r, c.g, c.b, c.a), (1, 2, 3, 4));
}
