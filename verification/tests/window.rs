use fps_unlock::window::{without_system_menu, WS_MINIMIZEBOX, WS_SYSMENU};

#[test]
fn strips_system_menu_and_minimize_box() {
    // An overlapped window: caption, system menu, thick frame, both boxes.
    assert_eq!(without_system_menu(0x00CF_0000), 0x00C5_0000);
}

#[test]
fn keeps_a_style_without_either_bit() {
    assert_eq!(without_system_menu(0x00C4_0000), 0x00C4_0000);
    assert_eq!(without_system_menu(0), 0);
}

#[test]
fn keeps_the_sign_bit_of_a_popup_window() {
    let popup: i32 = i32::MIN | WS_SYSMENU | 0x0000_0001;
    assert_eq!(without_system_menu(popup), i32::MIN | 0x0000_0001);
}

#[test]
fn stripping_twice_is_stripping_once() {
    let style: i32 = 0x14CF_0000;
    let once = without_system_menu(style);
    assert_eq!(without_system_menu(once), once);
    assert_eq!(once & (WS_SYSMENU | WS_MINIMIZEBOX), 0);
}
