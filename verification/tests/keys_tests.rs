use ghostty_vt::keys::{
    map_key_name, str_eq, KEY_A, KEY_ACTION_PRESS, KEY_ACTION_REPEAT, KEY_ARROW_UP, KEY_BACKQUOTE,
    KEY_BACKSLASH, KEY_BROWSER_BACK, KEY_BROWSER_FORWARD, KEY_DIGIT_0, KEY_EQUAL, KEY_ESCAPE,
    KEY_F1, KEY_F12, KEY_F25, KEY_MINUS, KEY_MOD_ALT, KEY_MOD_CTRL, KEY_MOD_SHIFT, KEY_PAGE_DOWN,
    KEY_PAGE_UP, KEY_PASTE, KEY_PRINT_SCREEN, KEY_QUOTE, KEY_SCROLL_LOCK, KEY_SPACE,
    KEY_UNIDENTIFIED,
};
use ghostty_vt::session::{cursor_position, fill_device_attributes, key_input, take_title_changed, KeyInput};
use ghostty_vt::sys::{
    GhosttyDeviceAttributes, GhosttyDeviceAttributesPrimary, GhosttyDeviceAttributesSecondary,
    GhosttyDeviceAttributesTertiary,
};
use ghostty_vt::vt::CursorInfo;

#[test]
fn named_keys() {
    assert_eq!(map_key_name("back"), KEY_BROWSER_BACK);
    assert_eq!(map_key_name("forward"), KEY_BROWSER_FORWARD);
    assert_eq!(map_key_name("up"), KEY_ARROW_UP);
    assert_eq!(map_key_name("up"), 78);
    assert_eq!(map_key_name("escape"), KEY_ESCAPE);
    assert_eq!(map_key_name("space"), KEY_SPACE);
    assert_eq!(map_key_name("f1"), KEY_F1);
    assert_eq!(map_key_name("f12"), KEY_F12);
    assert_eq!(map_key_name("f12"), 132);
    assert_eq!(map_key_name("f25"), KEY_F25);
    assert_eq!(map_key_name("paste"), KEY_PASTE);
}

#[test]
fn key_name_aliases() {
    for name in ["pageup", "page_up", "page-up"] {
        assert_eq!(map_key_name(name), KEY_PAGE_UP);
    }
    for name in ["pagedown", "page_down", "page-down"] {
        assert_eq!(map_key_name(name), KEY_PAGE_DOWN);
    }
    for name in ["printscreen", "print_screen", "print-screen"] {
        assert_eq!(map_key_name(name), KEY_PRINT_SCREEN);
    }
    for name in ["scrolllock", "scroll_lock", "scroll-lock"] {
        assert_eq!(map_key_name(name), KEY_SCROLL_LOCK);
    }
}

#[test]
fn single_character_keys() {
    assert_eq!(map_key_name("a"), KEY_A);
    assert_eq!(map_key_name("z"), KEY_A + 25);
    assert_eq!(map_key_name("z"), 45);
    assert_eq!(map_key_name("0"), KEY_DIGIT_0);
    assert_eq!(map_key_name("9"), 15);
    assert_eq!(map_key_name("`"), KEY_BACKQUOTE);
    assert_eq!(map_key_name("\\"), KEY_BACKSLASH);
    assert_eq!(map_key_name("'"), KEY_QUOTE);
    assert_eq!(map_key_name("-"), KEY_MINUS);
    assert_eq!(map_key_name("="), KEY_EQUAL);
}

#[test]
fn unknown_keys() {
    assert_eq!(map_key_name(""), KEY_UNIDENTIFIED);
    assert_eq!(map_key_name("A"), KEY_UNIDENTIFIED);
    assert_eq!(map_key_name("é"), KEY_UNIDENTIFIED);
    assert_eq!(map_key_name("!"), KEY_UNIDENTIFIED);
    assert_eq!(map_key_name("f26"), KEY_UNIDENTIFIED);
    assert_eq!(map_key_name("Up"), KEY_UNIDENTIFIED);
    assert_eq!(map_key_name("ab"), KEY_UNIDENTIFIED);
}

#[test]
fn string_equality() {
    assert!(str_eq("page_up", "page_up"));
    assert!(!str_eq("page_up", "page-up"));
    assert!(!str_eq("up", "upp"));
    assert!(str_eq("", ""));
    assert!(str_eq("é", "é"));
}

#[test]
fn key_input_for_presses() {
    let enter = key_input("enter", "\r", false, false, false, false);
    assert_eq!(enter, KeyInput { key: 58, action: KEY_ACTION_PRESS, mods: 0, unshifted_codepoint: '\r' as u32 });
    let ctrl_c = key_input("c", "", false, true, false, false);
    assert_eq!(ctrl_c, KeyInput { key: KEY_A + 2, action: KEY_ACTION_PRESS, mods: KEY_MOD_CTRL, unshifted_codepoint: 'c' as u32 });
    let all = key_input("up", "", true, true, true, true);
    assert_eq!(all.mods, KEY_MOD_SHIFT | KEY_MOD_CTRL | KEY_MOD_ALT);
    assert_eq!(all.mods, 7);
    assert_eq!(all.action, KEY_ACTION_REPEAT);
    assert_eq!(all.unshifted_codepoint, 0);
    let space = key_input("space", "", false, false, false, false);
    assert_eq!(space.unshifted_codepoint, ' ' as u32);
    let shifted = key_input("a", "A", true, false, false, false);
    assert_eq!(shifted.unshifted_codepoint, 'A' as u32);
    assert_eq!(shifted.mods, KEY_MOD_SHIFT);
    let alt = key_input("x", "", false, false, true, false);
    assert_eq!(alt.mods, KEY_MOD_ALT);
    let accented = key_input("é", "", false, false, false, false);
    assert_eq!(accented.key, 0);
    assert_eq!(accented.unshifted_codepoint, 0);
}

#[test]
fn cursor_positions() {
    let inside = CursorInfo::from_raw(true, 3, 4, 0, true, false);
    assert_eq!(cursor_position(&inside), Some((3, 4)));
    let outside = CursorInfo::from_raw(false, 3, 4, 0, true, false);
    assert_eq!(cursor_position(&outside), None);
}

#[test]
fn title_flag_is_consumed() {
    let mut flag = true;
    assert!(take_title_changed(&mut flag));
    assert!(!flag);
    assert!(!take_title_changed(&mut flag));
    assert!(!flag);
}

#[test]
fn device_attributes_answer() {
    let mut attrs = GhosttyDeviceAttributes {
        primary: GhosttyDeviceAttributesPrimary { conformance_level: 0, features: [5; 64], num_features: 9 },
        secondary: GhosttyDeviceAttributesSecondary { device_type: 7, firmware_version: 7, rom_cartridge: 7 },
        tertiary: GhosttyDeviceAttributesTertiary { unit_id: 7 },
    };
    fill_device_attributes(&mut attrs);
    assert_eq!(attrs.primary.conformance_level, 62);
    assert_eq!(attrs.primary.features[0], 22);
    assert_eq!(attrs.primary.features[1], 5);
    assert_eq!(attrs.primary.num_features, 1);
    assert_eq!(attrs.secondary.device_type, 1);
    assert_eq!(attrs.secondary.firmware_version, 10);
    assert_eq!(attrs.secondary.rom_cartridge, 0);
    assert_eq!(attrs.tertiary.unit_id, 0);
}

#[test]
fn key_codes_distinct_up_to_aliases() {
    let names = [
        "back", "forward", "up", "down", "left", "right", "home", "end", "pageup", "pagedown",
        "insert", "delete", "backspace", "enter", "tab", "escape", "space", "f1", "f2", "f3", "f4",
        "f5", "f6", "f7", "f8", "f9", "f10", "f11", "f12", "f13", "f14", "f15", "f16", "f17", "f18",
        "f19", "f20", "f21", "f22", "f23", "f24", "f25", "printscreen", "scrolllock", "pause",
        "copy", "cut", "paste", "a", "m", "z", "0", "5", "9", "`", "\\", "[", "]", ",", ".", "/",
        ";", "'", "-", "=",
    ];
    let codes: Vec<i32> = names.iter().map(|n| map_key_name(n)).collect();
    for (i, a) in codes.iter().enumerate() {
        assert!((1..=175).contains(a));
        for b in &codes[i + 1..] {
            assert_ne!(a, b);
        }
    }
}
