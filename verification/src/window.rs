//! Settings for a window and its renderer, collected before either exists.
//!
//! Nothing here opens a window. A `WindowBuilder` only records what was asked
//! for; whoever creates the window reads the record with
//! [`WindowBuilder::settings`].

use vstd::prelude::*;
use vstd::string::StrSliceExecFns;
use vstd::utf8::is_ascii_chars;

verus! {

/// Window flag: fullscreen with a video mode change.
pub const WINDOW_FULLSCREEN: u32 = 0x0000_0001;

/// Window flag: created visible.
pub const WINDOW_SHOWN: u32 = 0x0000_0004;

/// Window flag: created hidden.
pub const WINDOW_HIDDEN: u32 = 0x0000_0008;

/// Window flag: no decoration.
pub const WINDOW_BORDERLESS: u32 = 0x0000_0010;

/// Window flag: can be resized.
pub const WINDOW_RESIZABLE: u32 = 0x0000_0020;

/// Window flag: created minimized.
pub const WINDOW_MINIMIZED: u32 = 0x0000_0040;

/// Window flag: created maximized.
pub const WINDOW_MAXIMIZED: u32 = 0x0000_0080;

/// Window flag: has grabbed the mouse.
pub const WINDOW_MOUSE_GRABBED: u32 = 0x0000_0100;

/// Window flag: has grabbed input. The same bit as `WINDOW_MOUSE_GRABBED`.
pub const WINDOW_INPUT_GRABBED: u32 = 0x0000_0100;

/// Window flag: has input focus.
pub const WINDOW_INPUT_FOCUS: u32 = 0x0000_0200;

/// Window flag: has mouse focus.
pub const WINDOW_MOUSE_FOCUS: u32 = 0x0000_0400;

/// Window flag: was not created by this layer.
pub const WINDOW_FOREIGN: u32 = 0x0000_0800;

/// Window flag: fullscreen at the desktop's resolution.
pub const WINDOW_FULLSCREEN_DESKTOP: u32 = 0x0000_1001;

/// Window flag: high-DPI mode where the platform supports it.
pub const WINDOW_ALLOW_HIGHDPI: u32 = 0x0000_2000;

/// Window flag: has captured the mouse.
pub const WINDOW_MOUSE_CAPTURE: u32 = 0x0000_4000;

/// Window flag: stays above other windows.
pub const WINDOW_ALWAYS_ON_TOP: u32 = 0x0000_8000;

/// Window flag: left out of the taskbar.
pub const WINDOW_SKIP_TASKBAR: u32 = 0x0001_0000;

/// Window flag: treated as a utility window.
pub const WINDOW_UTILITY: u32 = 0x0002_0000;

/// Window flag: treated as a tooltip.
pub const WINDOW_TOOLTIP: u32 = 0x0004_0000;

/// Window flag: treated as a popup menu.
pub const WINDOW_POPUP_MENU: u32 = 0x0008_0000;

/// Window flag: has grabbed the keyboard.
pub const WINDOW_KEYBOARD_GRABBED: u32 = 0x0010_0000;

/// Renderer flag: software fallback.
pub const RENDERER_SOFTWARE: u32 = 0x0000_0001;

/// Renderer flag: hardware acceleration.
pub const RENDERER_ACCELERATED: u32 = 0x0000_0002;

/// Renderer flag: presenting waits for the display's refresh.
pub const RENDERER_PRESENTVSYNC: u32 = 0x0000_0004;

/// Renderer flag: rendering to a texture is supported.
pub const RENDERER_TARGETTEXTURE: u32 = 0x0000_0008;

/// Raw coordinate that leaves the placement to the window system.
pub const WINDOWPOS_UNDEFINED: i32 = 0x1FFF_0000;

/// Raw coordinate that centers the window on the display.
pub const WINDOWPOS_CENTERED: i32 = 0x2FFF_0000;

/// Where a window goes along one axis.
#[derive(Copy, Clone, Eq, PartialEq, Structural, Hash, Debug)]
pub enum WindowPos {
    Undefined,
    Centered,
    Positioned(i32),
}

/// The raw coordinate that stands for `pos`.
pub open spec fn spec_raw_windowpos(pos: WindowPos) -> i32 {
    match pos {
        WindowPos::Undefined => WINDOWPOS_UNDEFINED,
        WindowPos::Centered => WINDOWPOS_CENTERED,
        WindowPos::Positioned(x) => x,
    }
}

/// Turns a placement into the raw coordinate that the window system takes:
/// one of two reserved values, or the position itself.
pub fn to_raw_windowpos(pos: WindowPos) -> (raw: i32)
    ensures
        raw == spec_raw_windowpos(pos),
{
    match pos {
        WindowPos::Undefined => WINDOWPOS_UNDEFINED,
        WindowPos::Centered => WINDOWPOS_CENTERED,
        WindowPos::Positioned(x) => x,
    }
}

/// Whether `s` can be handed over as a C string as it stands: it is not
/// empty, holds ASCII only, and ends in a NUL character.
pub open spec fn spec_zero_terminated(s: Seq<char>) -> bool {
    &&& s.len() > 0
    &&& is_ascii_chars(s)
    &&& s.last() == '\0'
}

/// Tests whether `s` is not empty, all ASCII, and ends in a NUL character.
pub fn is_zero_terminated(s: &str) -> (ok: bool)
    ensures
        ok == spec_zero_terminated(s@),
{
    if !s.is_ascii() {
        return false;
    }
    let n: usize = s.unicode_len();
    if n == 0 {
        return false;
    }
    let last: u8 = s.get_ascii(n - 1);
    last == 0
}

/// Everything a `WindowBuilder` has recorded.
#[derive(Copy, Clone, Debug)]
pub struct WindowSettings {
    /// Index of the rendering driver, `None` for the first that fits.
    pub index: Option<u32>,
    pub renderer_flags: u32,
    pub title: &'static str,
    pub width: u32,
    pub height: u32,
    pub x: WindowPos,
    pub y: WindowPos,
    pub window_flags: u32,
    pub is_shaped: bool,
}

/// `s` with the bits of `flags` added to its window flags.
pub open spec fn with_window_flags(s: WindowSettings, flags: u32) -> WindowSettings {
    WindowSettings { window_flags: s.window_flags | flags, ..s }
}

/// `s` with the bits of `flags` added to its renderer flags.
pub open spec fn with_renderer_flags(s: WindowSettings, flags: u32) -> WindowSettings {
    WindowSettings { renderer_flags: s.renderer_flags | flags, ..s }
}

/// Collects the settings of a window step by step. Every setter returns the
/// builder again, so that calls can be chained.
pub struct WindowBuilder {
    settings: WindowSettings,
}

impl View for WindowBuilder {
    type V = WindowSettings;

    closed spec fn view(&self) -> WindowSettings {
        self.settings
    }
}

impl WindowBuilder {
    /// A builder for a window of the given title and size, placed by the
    /// window system, with no flag set. The title must be zero terminated.
    pub fn new(title: &'static str, width: u32, height: u32) -> (b: WindowBuilder)
        requires
            spec_zero_terminated(title@),
        ensures
            b@ == (WindowSettings {
                index: None,
                renderer_flags: 0,
                title,
                width,
                height,
                x: WindowPos::Undefined,
                y: WindowPos::Undefined,
                window_flags: 0,
                is_shaped: false,
            }),
    {
        WindowBuilder {
            settings: WindowSettings {
                index: None,
                renderer_flags: 0,
                title,
                width,
                height,
                x: WindowPos::Undefined,
                y: WindowPos::Undefined,
                window_flags: 0,
                is_shaped: false,
            },
        }
    }

    /// What has been recorded so far.
    pub fn settings(&self) -> (s: WindowSettings)
        ensures
            s == self@,
    {
        self.settings
    }

    /// Asks for a shaped window.
    pub fn set_shaped(&mut self) -> (b: &mut WindowBuilder)
        ensures
            b@ == (WindowSettings { is_shaped: true, ..old(self)@ }),
            *final(self) == *final(b),
    {
        self.settings.is_shaped = true;
        self
    }

    /// Replaces all window flags by `flags`.
    pub fn set_window_flags(&mut self, flags: u32) -> (b: &mut WindowBuilder)
        ensures
            b@ == (WindowSettings { window_flags: flags, ..old(self)@ }),
            *final(self) == *final(b),
    {
        self.settings.window_flags = flags;
        self
    }

    /// Places the window at `(x, y)`.
    pub fn position(&mut self, x: i32, y: i32) -> (b: &mut WindowBuilder)
        ensures
            b@ == (WindowSettings {
                x: WindowPos::Positioned(x),
                y: WindowPos::Positioned(y),
                ..old(self)@
            }),
            *final(self) == *final(b),
    {
        self.settings.x = WindowPos::Positioned(x);
        self.settings.y = WindowPos::Positioned(y);
        self
    }

    /// Centers the window on the display.
    pub fn position_centered(&mut self) -> (b: &mut WindowBuilder)
        ensures
            b@ == (WindowSettings {
                x: WindowPos::Centered,
                y: WindowPos::Centered,
                ..old(self)@
            }),
            *final(self) == *final(b),
    {
        self.settings.x = WindowPos::Centered;
        self.settings.y = WindowPos::Centered;
        self
    }

    /// Asks for a fullscreen window with a video mode change.
    pub fn fullscreen(&mut self) -> (b: &mut WindowBuilder)
        ensures
            b@ == with_window_flags(old(self)@, WINDOW_FULLSCREEN),
            *final(self) == *final(b),
    {
        self.settings.window_flags = self.settings.window_flags | WINDOW_FULLSCREEN;
        self
    }

    /// Asks for a fullscreen window at the desktop's resolution.
    pub fn fullscreen_desktop(&mut self) -> (b: &mut WindowBuilder)
        ensures
            b@ == with_window_flags(old(self)@, WINDOW_FULLSCREEN_DESKTOP),
            *final(self) == *final(b),
    {
        self.settings.window_flags = self.settings.window_flags | WINDOW_FULLSCREEN_DESKTOP;
        self
    }

    /// Asks for a window that starts hidden.
    pub fn hidden(&mut self) -> (b: &mut WindowBuilder)
        ensures
            b@ == with_window_flags(old(self)@, WINDOW_HIDDEN),
            *final(self) == *final(b),
    {
        self.settings.window_flags = self.settings.window_flags | WINDOW_HIDDEN;
        self
    }

    /// Asks for a window without decoration.
    pub fn borderless(&mut self) -> (b: &mut WindowBuilder)
        ensures
            b@ == with_window_flags(old(self)@, WINDOW_BORDERLESS),
            *final(self) == *final(b),
    {
        self.settings.window_flags = self.settings.window_flags | WINDOW_BORDERLESS;
        self
    }

    /// Asks for a window that can be resized.
    pub fn resizable(&mut self) -> (b: &mut WindowBuilder)
        ensures
            b@ == with_window_flags(old(self)@, WINDOW_RESIZABLE),
            *final(self) == *final(b),
    {
        self.settings.window_flags = self.settings.window_flags | WINDOW_RESIZABLE;
        self
    }

    /// Asks for a window that starts minimized.
    pub fn minimized(&mut self) -> (b: &mut WindowBuilder)
        ensures
            b@ == with_window_flags(old(self)@, WINDOW_MINIMIZED),
            *final(self) == *final(b),
    {
        self.settings.window_flags = self.settings.window_flags | WINDOW_MINIMIZED;
        self
    }

    /// Asks for a window that starts maximized.
    pub fn maximized(&mut self) -> (b: &mut WindowBuilder)
        ensures
            b@ == with_window_flags(old(self)@, WINDOW_MAXIMIZED),
            *final(self) == *final(b),
    {
        self.settings.window_flags = self.settings.window_flags | WINDOW_MAXIMIZED;
        self
    }

    /// Asks for a window that grabs input.
    pub fn input_grabbed(&mut self) -> (b: &mut WindowBuilder)
        ensures
            b@ == with_window_flags(old(self)@, WINDOW_INPUT_GRABBED),
            *final(self) == *final(b),
    {
        self.settings.window_flags = self.settings.window_flags | WINDOW_INPUT_GRABBED;
        self
    }

    /// Asks for high-DPI mode where the platform supports it.
    pub fn allow_highdpi(&mut self) -> (b: &mut WindowBuilder)
        ensures
            b@ == with_window_flags(old(self)@, WINDOW_ALLOW_HIGHDPI),
            *final(self) == *final(b),
    {
        self.settings.window_flags = self.settings.window_flags | WINDOW_ALLOW_HIGHDPI;
        self
    }

    /// Asks for a window that stays above the others.
    pub fn always_on_top(&mut self) -> (b: &mut WindowBuilder)
        ensures
            b@ == with_window_flags(old(self)@, WINDOW_ALWAYS_ON_TOP),
            *final(self) == *final(b),
    {
        self.settings.window_flags = self.settings.window_flags | WINDOW_ALWAYS_ON_TOP;
        self
    }

    /// Picks the rendering driver with the given index.
    pub fn index(&mut self, index: u32) -> (b: &mut WindowBuilder)
        ensures
            b@ == (WindowSettings { index: Some(index), ..old(self)@ }),
            *final(self) == *final(b),
    {
        self.settings.index = Some(index);
        self
    }

    /// Asks for the software renderer.
    pub fn software(&mut self) -> (b: &mut WindowBuilder)
        ensures
            b@ == with_renderer_flags(old(self)@, RENDERER_SOFTWARE),
            *final(self) == *final(b),
    {
        self.settings.renderer_flags = self.settings.renderer_flags | RENDERER_SOFTWARE;
        self
    }

    /// Asks for a hardware-accelerated renderer.
    pub fn accelerated(&mut self) -> (b: &mut WindowBuilder)
        ensures
            b@ == with_renderer_flags(old(self)@, RENDERER_ACCELERATED),
            *final(self) == *final(b),
    {
        self.settings.renderer_flags = self.settings.renderer_flags | RENDERER_ACCELERATED;
        self
    }

    /// Asks for presenting in step with the display's refresh.
    pub fn present_vsync(&mut self) -> (b: &mut WindowBuilder)
        ensures
            b@ == with_renderer_flags(old(self)@, RENDERER_PRESENTVSYNC),
            *final(self) == *final(b),
    {
        self.settings.renderer_flags = self.settings.renderer_flags | RENDERER_PRESENTVSYNC;
        self
    }

    /// Asks for a renderer that can draw to a texture.
    pub fn target_texture(&mut self) -> (b: &mut WindowBuilder)
        ensures
            b@ == with_renderer_flags(old(self)@, RENDERER_TARGETTEXTURE),
            *final(self) == *final(b),
    {
        self.settings.renderer_flags = self.settings.renderer_flags | RENDERER_TARGETTEXTURE;
        self
    }
}

} // verus!
