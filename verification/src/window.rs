//! What the platform layer needs to know of the tool's window.

use vstd::prelude::*;

verus! {

/// The title of the console, if the tool has one.
pub const CONSOLE_TITLE: &'static str = "WuWa Ploom FPS Unlock";

/// The title of the tool's window, by which the platform layer finds it.
pub const WINDOW_TITLE: &'static str = "WuWa Ploom Tools";

/// The file of the icon that the window gets.
pub const ICON_PATH: &'static str = "misc/ploom.ico";

/// Style bit of a window that has a system menu in its title bar.
pub const WS_SYSMENU: i32 = 0x0008_0000;

/// Style bit of a window that has a minimize box.
pub const WS_MINIMIZEBOX: i32 = 0x0002_0000;

/// The style bits that the tool's window gives up.
pub open spec fn removed_style_bits() -> i32 {
    WS_SYSMENU | WS_MINIMIZEBOX
}

/// The window style `style` without its system menu and its minimize box.
///
/// Every other bit of the style is kept as it is.
pub fn without_system_menu(style: i32) -> (stripped: i32)
    ensures
        stripped == style & !removed_style_bits(),
        stripped & removed_style_bits() == 0,
        stripped | (style & removed_style_bits()) == style,
{
    let mask: i32 = WS_SYSMENU | WS_MINIMIZEBOX;
    let stripped: i32 = style & !mask;
    assert(stripped & mask == 0 && stripped | (style & mask) == style) by (bit_vector)
        requires
            stripped == style & !mask,
    ;
    stripped
}

} // verus!
