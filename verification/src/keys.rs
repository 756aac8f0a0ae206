//! Key names and key codes, and string equality for matching names.

use vstd::prelude::*;

verus! {

use vstd::utf8::{encode_utf8, encode_utf8_decode_utf8};

/// Whether two string slices hold the same characters.
pub fn str_eq(a: &str, b: &str) -> (eq: bool)
    ensures
        eq == (a@ == b@),
{
    let ab = a.as_bytes();
    let bb = b.as_bytes();
    if ab.len() != bb.len() {
        proof {
            if a@ == b@ {
                assert(ab@ == bb@);
            }
        }
        return false;
    }
    let mut i: usize = 0;
    while i < ab.len()
        invariant
            i <= ab@.len(),
            ab@.len() == bb@.len(),
            ab@ == encode_utf8(a@),
            bb@ == encode_utf8(b@),
            forall|j: int| 0 <= j < i ==> ab@[j] == bb@[j],
        decreases ab@.len() - i,
    {
        if ab[i] != bb[i] {
            proof {
                if a@ == b@ {
                    assert(ab@[i as int] == bb@[i as int]);
                }
            }
            return false;
        }
        i = i + 1;
    }
    proof {
        assert(ab@ =~= bb@);
        encode_utf8_decode_utf8(a@);
        encode_utf8_decode_utf8(b@);
    }
    true
}

/// Key codes of the physical keys that the encoder knows, as the W3C `KeyboardEvent.code` order numbers them.
pub const KEY_UNIDENTIFIED: i32 = 0;
pub const KEY_BACKQUOTE: i32 = 1;
pub const KEY_BACKSLASH: i32 = 2;
pub const KEY_BRACKET_LEFT: i32 = 3;
pub const KEY_BRACKET_RIGHT: i32 = 4;
pub const KEY_COMMA: i32 = 5;
pub const KEY_DIGIT_0: i32 = 6;
pub const KEY_EQUAL: i32 = 16;
pub const KEY_A: i32 = 20;
pub const KEY_MINUS: i32 = 46;
pub const KEY_PERIOD: i32 = 47;
pub const KEY_QUOTE: i32 = 48;
pub const KEY_SEMICOLON: i32 = 49;
pub const KEY_SLASH: i32 = 50;
pub const KEY_BACKSPACE: i32 = 53;
pub const KEY_ENTER: i32 = 58;
pub const KEY_SPACE: i32 = 63;
pub const KEY_TAB: i32 = 64;
pub const KEY_DELETE: i32 = 68;
pub const KEY_END: i32 = 69;
pub const KEY_HOME: i32 = 71;
pub const KEY_INSERT: i32 = 72;
pub const KEY_PAGE_DOWN: i32 = 73;
pub const KEY_PAGE_UP: i32 = 74;
pub const KEY_ARROW_DOWN: i32 = 75;
pub const KEY_ARROW_LEFT: i32 = 76;
pub const KEY_ARROW_RIGHT: i32 = 77;
pub const KEY_ARROW_UP: i32 = 78;
pub const KEY_ESCAPE: i32 = 120;
pub const KEY_F1: i32 = 121;
pub const KEY_F2: i32 = 122;
pub const KEY_F3: i32 = 123;
pub const KEY_F4: i32 = 124;
pub const KEY_F5: i32 = 125;
pub const KEY_F6: i32 = 126;
pub const KEY_F7: i32 = 127;
pub const KEY_F8: i32 = 128;
pub const KEY_F9: i32 = 129;
pub const KEY_F10: i32 = 130;
pub const KEY_F11: i32 = 131;
pub const KEY_F12: i32 = 132;
pub const KEY_F13: i32 = 133;
pub const KEY_F14: i32 = 134;
pub const KEY_F15: i32 = 135;
pub const KEY_F16: i32 = 136;
pub const KEY_F17: i32 = 137;
pub const KEY_F18: i32 = 138;
pub const KEY_F19: i32 = 139;
pub const KEY_F20: i32 = 140;
pub const KEY_F21: i32 = 141;
pub const KEY_F22: i32 = 142;
pub const KEY_F23: i32 = 143;
pub const KEY_F24: i32 = 144;
pub const KEY_F25: i32 = 145;
pub const KEY_PRINT_SCREEN: i32 = 148;
pub const KEY_SCROLL_LOCK: i32 = 149;
pub const KEY_PAUSE: i32 = 150;
pub const KEY_BROWSER_BACK: i32 = 151;
pub const KEY_BROWSER_FORWARD: i32 = 153;
pub const KEY_COPY: i32 = 173;
pub const KEY_CUT: i32 = 174;
pub const KEY_PASTE: i32 = 175;

/// What happened to a key.
pub const KEY_ACTION_RELEASE: u32 = 0;
pub const KEY_ACTION_PRESS: u32 = 1;
pub const KEY_ACTION_REPEAT: u32 = 2;

/// Modifier bits of a key event.
pub const KEY_MOD_SHIFT: u16 = 1;
pub const KEY_MOD_CTRL: u16 = 2;
pub const KEY_MOD_ALT: u16 = 4;
pub const KEY_MOD_SUPER: u16 = 8;

/// The key code that a key name denotes: one of the named keys, or a single
/// ASCII letter, digit or punctuation character; any other name is unidentified.
pub open spec fn key_for_name(name: Seq<char>) -> i32 {
    if name == "back"@ {
        KEY_BROWSER_BACK
    }
    else if name == "forward"@ {
        KEY_BROWSER_FORWARD
    }
    else if name == "up"@ {
        KEY_ARROW_UP
    }
    else if name == "down"@ {
        KEY_ARROW_DOWN
    }
    else if name == "left"@ {
        KEY_ARROW_LEFT
    }
    else if name == "right"@ {
        KEY_ARROW_RIGHT
    }
    else if name == "home"@ {
        KEY_HOME
    }
    else if name == "end"@ {
        KEY_END
    }
    else if name == "pageup"@ || name == "page_up"@ || name == "page-up"@ {
        KEY_PAGE_UP
    }
    else if name == "pagedown"@ || name == "page_down"@ || name == "page-down"@ {
        KEY_PAGE_DOWN
    }
    else if name == "insert"@ {
        KEY_INSERT
    }
    else if name == "delete"@ {
        KEY_DELETE
    }
    else if name == "backspace"@ {
        KEY_BACKSPACE
    }
    else if name == "enter"@ {
        KEY_ENTER
    }
    else if name == "tab"@ {
        KEY_TAB
    }
    else if name == "escape"@ {
        KEY_ESCAPE
    }
    else if name == "space"@ {
        KEY_SPACE
    }
    else if name == "f1"@ {
        KEY_F1
    }
    else if name == "f2"@ {
        KEY_F2
    }
    else if name == "f3"@ {
        KEY_F3
    }
    else if name == "f4"@ {
        KEY_F4
    }
    else if name == "f5"@ {
        KEY_F5
    }
    else if name == "f6"@ {
        KEY_F6
    }
    else if name == "f7"@ {
        KEY_F7
    }
    else if name == "f8"@ {
        KEY_F8
    }
    else if name == "f9"@ {
        KEY_F9
    }
    else if name == "f10"@ {
        KEY_F10
    }
    else if name == "f11"@ {
        KEY_F11
    }
    else if name == "f12"@ {
        KEY_F12
    }
    else if name == "f13"@ {
        KEY_F13
    }
    else if name == "f14"@ {
        KEY_F14
    }
    else if name == "f15"@ {
        KEY_F15
    }
    else if name == "f16"@ {
        KEY_F16
    }
    else if name == "f17"@ {
        KEY_F17
    }
    else if name == "f18"@ {
        KEY_F18
    }
    else if name == "f19"@ {
        KEY_F19
    }
    else if name == "f20"@ {
        KEY_F20
    }
    else if name == "f21"@ {
        KEY_F21
    }
    else if name == "f22"@ {
        KEY_F22
    }
    else if name == "f23"@ {
        KEY_F23
    }
    else if name == "f24"@ {
        KEY_F24
    }
    else if name == "f25"@ {
        KEY_F25
    }
    else if name == "printscreen"@ || name == "print_screen"@ || name == "print-screen"@ {
        KEY_PRINT_SCREEN
    }
    else if name == "scrolllock"@ || name == "scroll_lock"@ || name == "scroll-lock"@ {
        KEY_SCROLL_LOCK
    }
    else if name == "pause"@ {
        KEY_PAUSE
    }
    else if name == "copy"@ {
        KEY_COPY
    }
    else if name == "cut"@ {
        KEY_CUT
    }
    else if name == "paste"@ {
        KEY_PASTE
    }
    else if name.len() == 1 {
        key_for_char(name[0])
    } else {
        KEY_UNIDENTIFIED
    }
}

/// Maps a key name (as a UI toolkit reports it) to a key code.
pub fn map_key_name(name: &str) -> (key: i32)
    ensures
        key == key_for_name(name@),
{
    if str_eq(name, "back") {
        return KEY_BROWSER_BACK;
    }
    if str_eq(name, "forward") {
        return KEY_BROWSER_FORWARD;
    }
    if str_eq(name, "up") {
        return KEY_ARROW_UP;
    }
    if str_eq(name, "down") {
        return KEY_ARROW_DOWN;
    }
    if str_eq(name, "left") {
        return KEY_ARROW_LEFT;
    }
    if str_eq(name, "right") {
        return KEY_ARROW_RIGHT;
    }
    if str_eq(name, "home") {
        return KEY_HOME;
    }
    if str_eq(name, "end") {
        return KEY_END;
    }
    if str_eq(name, "pageup") || str_eq(name, "page_up") || str_eq(name, "page-up") {
        return KEY_PAGE_UP;
    }
    if str_eq(name, "pagedown") || str_eq(name, "page_down") || str_eq(name, "page-down") {
        return KEY_PAGE_DOWN;
    }
    if str_eq(name, "insert") {
        return KEY_INSERT;
    }
    if str_eq(name, "delete") {
        return KEY_DELETE;
    }
    if str_eq(name, "backspace") {
        return KEY_BACKSPACE;
    }
    if str_eq(name, "enter") {
        return KEY_ENTER;
    }
    if str_eq(name, "tab") {
        return KEY_TAB;
    }
    if str_eq(name, "escape") {
        return KEY_ESCAPE;
    }
    if str_eq(name, "space") {
        return KEY_SPACE;
    }
    if str_eq(name, "f1") {
        return KEY_F1;
    }
    if str_eq(name, "f2") {
        return KEY_F2;
    }
    if str_eq(name, "f3") {
        return KEY_F3;
    }
    if str_eq(name, "f4") {
        return KEY_F4;
    }
    if str_eq(name, "f5") {
        return KEY_F5;
    }
    if str_eq(name, "f6") {
        return KEY_F6;
    }
    if str_eq(name, "f7") {
        return KEY_F7;
    }
    if str_eq(name, "f8") {
        return KEY_F8;
    }
    if str_eq(name, "f9") {
        return KEY_F9;
    }
    if str_eq(name, "f10") {
        return KEY_F10;
    }
    if str_eq(name, "f11") {
        return KEY_F11;
    }
    if str_eq(name, "f12") {
        return KEY_F12;
    }
    if str_eq(name, "f13") {
        return KEY_F13;
    }
    if str_eq(name, "f14") {
        return KEY_F14;
    }
    if str_eq(name, "f15") {
        return KEY_F15;
    }
    if str_eq(name, "f16") {
        return KEY_F16;
    }
    if str_eq(name, "f17") {
        return KEY_F17;
    }
    if str_eq(name, "f18") {
        return KEY_F18;
    }
    if str_eq(name, "f19") {
        return KEY_F19;
    }
    if str_eq(name, "f20") {
        return KEY_F20;
    }
    if str_eq(name, "f21") {
        return KEY_F21;
    }
    if str_eq(name, "f22") {
        return KEY_F22;
    }
    if str_eq(name, "f23") {
        return KEY_F23;
    }
    if str_eq(name, "f24") {
        return KEY_F24;
    }
    if str_eq(name, "f25") {
        return KEY_F25;
    }
    if str_eq(name, "printscreen") || str_eq(name, "print_screen") || str_eq(name, "print-screen") {
        return KEY_PRINT_SCREEN;
    }
    if str_eq(name, "scrolllock") || str_eq(name, "scroll_lock") || str_eq(name, "scroll-lock") {
        return KEY_SCROLL_LOCK;
    }
    if str_eq(name, "pause") {
        return KEY_PAUSE;
    }
    if str_eq(name, "copy") {
        return KEY_COPY;
    }
    if str_eq(name, "cut") {
        return KEY_CUT;
    }
    if str_eq(name, "paste") {
        return KEY_PASTE;
    }
    if name.len() == 1 {
        let bytes = name.as_bytes();
        proof {
            lemma_single_byte_encoding(name@);
        }
        let c = bytes[0];
        if ('a' as u8) <= c && c <= ('z' as u8) {
            KEY_A + (c - ('a' as u8)) as i32
        } else if ('0' as u8) <= c && c <= ('9' as u8) {
            KEY_DIGIT_0 + (c - ('0' as u8)) as i32
        } else if c == ('`' as u8) {
            KEY_BACKQUOTE
        } else if c == ('\\' as u8) {
            KEY_BACKSLASH
        } else if c == ('[' as u8) {
            KEY_BRACKET_LEFT
        } else if c == (']' as u8) {
            KEY_BRACKET_RIGHT
        } else if c == (',' as u8) {
            KEY_COMMA
        } else if c == ('.' as u8) {
            KEY_PERIOD
        } else if c == ('/' as u8) {
            KEY_SLASH
        } else if c == (';' as u8) {
            KEY_SEMICOLON
        } else if c == ('\'' as u8) {
            KEY_QUOTE
        } else if c == ('-' as u8) {
            KEY_MINUS
        } else if c == ('=' as u8) {
            KEY_EQUAL
        } else {
            KEY_UNIDENTIFIED
        }
    } else {
        proof {
            lemma_single_byte_encoding(name@);
        }
        KEY_UNIDENTIFIED
    }
}

/// The key code of a single-character key name.
pub open spec fn key_for_char(c: char) -> i32 {
    let v = c as u32;
    if 'a' as u32 <= v <= 'z' as u32 {
        (KEY_A + (v - 'a' as u32)) as i32
    } else if '0' as u32 <= v <= '9' as u32 {
        (KEY_DIGIT_0 + (v - '0' as u32)) as i32
    } else if v == '`' as u32 {
        KEY_BACKQUOTE
    } else if v == '\\' as u32 {
        KEY_BACKSLASH
    } else if v == '[' as u32 {
        KEY_BRACKET_LEFT
    } else if v == ']' as u32 {
        KEY_BRACKET_RIGHT
    } else if v == ',' as u32 {
        KEY_COMMA
    } else if v == '.' as u32 {
        KEY_PERIOD
    } else if v == '/' as u32 {
        KEY_SLASH
    } else if v == ';' as u32 {
        KEY_SEMICOLON
    } else if v == '\'' as u32 {
        KEY_QUOTE
    } else if v == '-' as u32 {
        KEY_MINUS
    } else if v == '=' as u32 {
        KEY_EQUAL
    } else {
        KEY_UNIDENTIFIED
    }
}

/// Whether `name` is one of the names the key table gives to the key `key`.
pub open spec fn is_table_name_of(key: i32, name: Seq<char>) -> bool {
    ||| key == KEY_BROWSER_BACK && (name == "back"@)
    ||| key == KEY_BROWSER_FORWARD && (name == "forward"@)
    ||| key == KEY_ARROW_UP && (name == "up"@)
    ||| key == KEY_ARROW_DOWN && (name == "down"@)
    ||| key == KEY_ARROW_LEFT && (name == "left"@)
    ||| key == KEY_ARROW_RIGHT && (name == "right"@)
    ||| key == KEY_HOME && (name == "home"@)
    ||| key == KEY_END && (name == "end"@)
    ||| key == KEY_PAGE_UP && (name == "pageup"@ || name == "page_up"@ || name == "page-up"@)
    ||| key == KEY_PAGE_DOWN && (name == "pagedown"@ || name == "page_down"@ || name == "page-down"@)
    ||| key == KEY_INSERT && (name == "insert"@)
    ||| key == KEY_DELETE && (name == "delete"@)
    ||| key == KEY_BACKSPACE && (name == "backspace"@)
    ||| key == KEY_ENTER && (name == "enter"@)
    ||| key == KEY_TAB && (name == "tab"@)
    ||| key == KEY_ESCAPE && (name == "escape"@)
    ||| key == KEY_SPACE && (name == "space"@)
    ||| key == KEY_F1 && (name == "f1"@)
    ||| key == KEY_F2 && (name == "f2"@)
    ||| key == KEY_F3 && (name == "f3"@)
    ||| key == KEY_F4 && (name == "f4"@)
    ||| key == KEY_F5 && (name == "f5"@)
    ||| key == KEY_F6 && (name == "f6"@)
    ||| key == KEY_F7 && (name == "f7"@)
    ||| key == KEY_F8 && (name == "f8"@)
    ||| key == KEY_F9 && (name == "f9"@)
    ||| key == KEY_F10 && (name == "f10"@)
    ||| key == KEY_F11 && (name == "f11"@)
    ||| key == KEY_F12 && (name == "f12"@)
    ||| key == KEY_F13 && (name == "f13"@)
    ||| key == KEY_F14 && (name == "f14"@)
    ||| key == KEY_F15 && (name == "f15"@)
    ||| key == KEY_F16 && (name == "f16"@)
    ||| key == KEY_F17 && (name == "f17"@)
    ||| key == KEY_F18 && (name == "f18"@)
    ||| key == KEY_F19 && (name == "f19"@)
    ||| key == KEY_F20 && (name == "f20"@)
    ||| key == KEY_F21 && (name == "f21"@)
    ||| key == KEY_F22 && (name == "f22"@)
    ||| key == KEY_F23 && (name == "f23"@)
    ||| key == KEY_F24 && (name == "f24"@)
    ||| key == KEY_F25 && (name == "f25"@)
    ||| key == KEY_PRINT_SCREEN && (name == "printscreen"@ || name == "print_screen"@ || name == "print-screen"@)
    ||| key == KEY_SCROLL_LOCK && (name == "scrolllock"@ || name == "scroll_lock"@ || name == "scroll-lock"@)
    ||| key == KEY_PAUSE && (name == "pause"@)
    ||| key == KEY_COPY && (name == "copy"@)
    ||| key == KEY_CUT && (name == "cut"@)
    ||| key == KEY_PASTE && (name == "paste"@)
}

/// Whether two key names are the same name, or two names of one alias group.
pub open spec fn same_key_name(a: Seq<char>, b: Seq<char>) -> bool {
    ||| a == b
    ||| (a == "pageup"@ || a == "page_up"@ || a == "page-up"@) && (b == "pageup"@ || b == "page_up"@ || b == "page-up"@)
    ||| (a == "pagedown"@ || a == "page_down"@ || a == "page-down"@) && (b == "pagedown"@ || b == "page_down"@ || b == "page-down"@)
    ||| (a == "printscreen"@ || a == "print_screen"@ || a == "print-screen"@) && (b == "printscreen"@ || b == "print_screen"@ || b == "print-screen"@)
    ||| (a == "scrolllock"@ || a == "scroll_lock"@ || a == "scroll-lock"@) && (b == "scrolllock"@ || b == "scroll_lock"@ || b == "scroll-lock"@)
}




/// The names of the key table are pairwise different.
proof fn lemma_table_names_distinct()
    ensures
        "back"@ != "down"@,
        "back"@ != "left"@,
        "back"@ != "home"@,
        "back"@ != "copy"@,
        "forward"@ != "page_up"@,
        "forward"@ != "page-up"@,
        "up"@ != "f1"@,
        "up"@ != "f2"@,
        "up"@ != "f3"@,
        "up"@ != "f4"@,
        "up"@ != "f5"@,
        "up"@ != "f6"@,
        "up"@ != "f7"@,
        "up"@ != "f8"@,
        "up"@ != "f9"@,
        "down"@ != "left"@,
        "down"@ != "home"@,
        "down"@ != "copy"@,
        "left"@ != "home"@,
        "left"@ != "copy"@,
        "right"@ != "enter"@,
        "right"@ != "space"@,
        "right"@ != "pause"@,
        "right"@ != "paste"@,
        "home"@ != "copy"@,
        "end"@ != "tab"@,
        "end"@ != "f10"@,
        "end"@ != "f11"@,
        "end"@ != "f12"@,
        "end"@ != "f13"@,
        "end"@ != "f14"@,
        "end"@ != "f15"@,
        "end"@ != "f16"@,
        "end"@ != "f17"@,
        "end"@ != "f18"@,
        "end"@ != "f19"@,
        "end"@ != "f20"@,
        "end"@ != "f21"@,
        "end"@ != "f22"@,
        "end"@ != "f23"@,
        "end"@ != "f24"@,
        "end"@ != "f25"@,
        "end"@ != "cut"@,
        "pageup"@ != "insert"@,
        "pageup"@ != "delete"@,
        "pageup"@ != "escape"@,
        "page_up"@ != "page-up"@,
        "page_down"@ != "page-down"@,
        "page_down"@ != "backspace"@,
        "page-down"@ != "backspace"@,
        "insert"@ != "delete"@,
        "insert"@ != "escape"@,
        "delete"@ != "escape"@,
        "enter"@ != "space"@,
        "enter"@ != "pause"@,
        "enter"@ != "paste"@,
        "tab"@ != "f10"@,
        "tab"@ != "f11"@,
        "tab"@ != "f12"@,
        "tab"@ != "f13"@,
        "tab"@ != "f14"@,
        "tab"@ != "f15"@,
        "tab"@ != "f16"@,
        "tab"@ != "f17"@,
        "tab"@ != "f18"@,
        "tab"@ != "f19"@,
        "tab"@ != "f20"@,
        "tab"@ != "f21"@,
        "tab"@ != "f22"@,
        "tab"@ != "f23"@,
        "tab"@ != "f24"@,
        "tab"@ != "f25"@,
        "tab"@ != "cut"@,
        "space"@ != "pause"@,
        "space"@ != "paste"@,
        "f1"@ != "f2"@,
        "f1"@ != "f3"@,
        "f1"@ != "f4"@,
        "f1"@ != "f5"@,
        "f1"@ != "f6"@,
        "f1"@ != "f7"@,
        "f1"@ != "f8"@,
        "f1"@ != "f9"@,
        "f2"@ != "f3"@,
        "f2"@ != "f4"@,
        "f2"@ != "f5"@,
        "f2"@ != "f6"@,
        "f2"@ != "f7"@,
        "f2"@ != "f8"@,
        "f2"@ != "f9"@,
        "f3"@ != "f4"@,
        "f3"@ != "f5"@,
        "f3"@ != "f6"@,
        "f3"@ != "f7"@,
        "f3"@ != "f8"@,
        "f3"@ != "f9"@,
        "f4"@ != "f5"@,
        "f4"@ != "f6"@,
        "f4"@ != "f7"@,
        "f4"@ != "f8"@,
        "f4"@ != "f9"@,
        "f5"@ != "f6"@,
        "f5"@ != "f7"@,
        "f5"@ != "f8"@,
        "f5"@ != "f9"@,
        "f6"@ != "f7"@,
        "f6"@ != "f8"@,
        "f6"@ != "f9"@,
        "f7"@ != "f8"@,
        "f7"@ != "f9"@,
        "f8"@ != "f9"@,
        "f10"@ != "f11"@,
        "f10"@ != "f12"@,
        "f10"@ != "f13"@,
        "f10"@ != "f14"@,
        "f10"@ != "f15"@,
        "f10"@ != "f16"@,
        "f10"@ != "f17"@,
        "f10"@ != "f18"@,
        "f10"@ != "f19"@,
        "f10"@ != "f20"@,
        "f10"@ != "f21"@,
        "f10"@ != "f22"@,
        "f10"@ != "f23"@,
        "f10"@ != "f24"@,
        "f10"@ != "f25"@,
        "f10"@ != "cut"@,
        "f11"@ != "f12"@,
        "f11"@ != "f13"@,
        "f11"@ != "f14"@,
        "f11"@ != "f15"@,
        "f11"@ != "f16"@,
        "f11"@ != "f17"@,
        "f11"@ != "f18"@,
        "f11"@ != "f19"@,
        "f11"@ != "f20"@,
        "f11"@ != "f21"@,
        "f11"@ != "f22"@,
        "f11"@ != "f23"@,
        "f11"@ != "f24"@,
        "f11"@ != "f25"@,
        "f11"@ != "cut"@,
        "f12"@ != "f13"@,
        "f12"@ != "f14"@,
        "f12"@ != "f15"@,
        "f12"@ != "f16"@,
        "f12"@ != "f17"@,
        "f12"@ != "f18"@,
        "f12"@ != "f19"@,
        "f12"@ != "f20"@,
        "f12"@ != "f21"@,
        "f12"@ != "f22"@,
        "f12"@ != "f23"@,
        "f12"@ != "f24"@,
        "f12"@ != "f25"@,
        "f12"@ != "cut"@,
        "f13"@ != "f14"@,
        "f13"@ != "f15"@,
        "f13"@ != "f16"@,
        "f13"@ != "f17"@,
        "f13"@ != "f18"@,
        "f13"@ != "f19"@,
        "f13"@ != "f20"@,
        "f13"@ != "f21"@,
        "f13"@ != "f22"@,
        "f13"@ != "f23"@,
        "f13"@ != "f24"@,
        "f13"@ != "f25"@,
        "f13"@ != "cut"@,
        "f14"@ != "f15"@,
        "f14"@ != "f16"@,
        "f14"@ != "f17"@,
        "f14"@ != "f18"@,
        "f14"@ != "f19"@,
        "f14"@ != "f20"@,
        "f14"@ != "f21"@,
        "f14"@ != "f22"@,
        "f14"@ != "f23"@,
        "f14"@ != "f24"@,
        "f14"@ != "f25"@,
        "f14"@ != "cut"@,
        "f15"@ != "f16"@,
        "f15"@ != "f17"@,
        "f15"@ != "f18"@,
        "f15"@ != "f19"@,
        "f15"@ != "f20"@,
        "f15"@ != "f21"@,
        "f15"@ != "f22"@,
        "f15"@ != "f23"@,
        "f15"@ != "f24"@,
        "f15"@ != "f25"@,
        "f15"@ != "cut"@,
        "f16"@ != "f17"@,
        "f16"@ != "f18"@,
        "f16"@ != "f19"@,
        "f16"@ != "f20"@,
        "f16"@ != "f21"@,
        "f16"@ != "f22"@,
        "f16"@ != "f23"@,
        "f16"@ != "f24"@,
        "f16"@ != "f25"@,
        "f16"@ != "cut"@,
        "f17"@ != "f18"@,
        "f17"@ != "f19"@,
        "f17"@ != "f20"@,
        "f17"@ != "f21"@,
        "f17"@ != "f22"@,
        "f17"@ != "f23"@,
        "f17"@ != "f24"@,
        "f17"@ != "f25"@,
        "f17"@ != "cut"@,
        "f18"@ != "f19"@,
        "f18"@ != "f20"@,
        "f18"@ != "f21"@,
        "f18"@ != "f22"@,
        "f18"@ != "f23"@,
        "f18"@ != "f24"@,
        "f18"@ != "f25"@,
        "f18"@ != "cut"@,
        "f19"@ != "f20"@,
        "f19"@ != "f21"@,
        "f19"@ != "f22"@,
        "f19"@ != "f23"@,
        "f19"@ != "f24"@,
        "f19"@ != "f25"@,
        "f19"@ != "cut"@,
        "f20"@ != "f21"@,
        "f20"@ != "f22"@,
        "f20"@ != "f23"@,
        "f20"@ != "f24"@,
        "f20"@ != "f25"@,
        "f20"@ != "cut"@,
        "f21"@ != "f22"@,
        "f21"@ != "f23"@,
        "f21"@ != "f24"@,
        "f21"@ != "f25"@,
        "f21"@ != "cut"@,
        "f22"@ != "f23"@,
        "f22"@ != "f24"@,
        "f22"@ != "f25"@,
        "f22"@ != "cut"@,
        "f23"@ != "f24"@,
        "f23"@ != "f25"@,
        "f23"@ != "cut"@,
        "f24"@ != "f25"@,
        "f24"@ != "cut"@,
        "f25"@ != "cut"@,
        "printscreen"@ != "scroll_lock"@,
        "printscreen"@ != "scroll-lock"@,
        "print_screen"@ != "print-screen"@,
        "scroll_lock"@ != "scroll-lock"@,
        "pause"@ != "paste"@,
{
    reveal_strlit("back");
    reveal_strlit("forward");
    reveal_strlit("up");
    reveal_strlit("down");
    reveal_strlit("left");
    reveal_strlit("right");
    reveal_strlit("home");
    reveal_strlit("end");
    reveal_strlit("pageup");
    reveal_strlit("page_up");
    reveal_strlit("page-up");
    reveal_strlit("pagedown");
    reveal_strlit("page_down");
    reveal_strlit("page-down");
    reveal_strlit("insert");
    reveal_strlit("delete");
    reveal_strlit("backspace");
    reveal_strlit("enter");
    reveal_strlit("tab");
    reveal_strlit("escape");
    reveal_strlit("space");
    reveal_strlit("f1");
    reveal_strlit("f2");
    reveal_strlit("f3");
    reveal_strlit("f4");
    reveal_strlit("f5");
    reveal_strlit("f6");
    reveal_strlit("f7");
    reveal_strlit("f8");
    reveal_strlit("f9");
    reveal_strlit("f10");
    reveal_strlit("f11");
    reveal_strlit("f12");
    reveal_strlit("f13");
    reveal_strlit("f14");
    reveal_strlit("f15");
    reveal_strlit("f16");
    reveal_strlit("f17");
    reveal_strlit("f18");
    reveal_strlit("f19");
    reveal_strlit("f20");
    reveal_strlit("f21");
    reveal_strlit("f22");
    reveal_strlit("f23");
    reveal_strlit("f24");
    reveal_strlit("f25");
    reveal_strlit("printscreen");
    reveal_strlit("print_screen");
    reveal_strlit("print-screen");
    reveal_strlit("scrolllock");
    reveal_strlit("scroll_lock");
    reveal_strlit("scroll-lock");
    reveal_strlit("pause");
    reveal_strlit("copy");
    reveal_strlit("cut");
    reveal_strlit("paste");
    assert("back"@[0] != "down"@[0]);
    assert("back"@[0] != "left"@[0]);
    assert("back"@[0] != "home"@[0]);
    assert("back"@[0] != "copy"@[0]);
    assert("forward"@[0] != "page_up"@[0]);
    assert("forward"@[0] != "page-up"@[0]);
    assert("up"@[0] != "f1"@[0]);
    assert("up"@[0] != "f2"@[0]);
    assert("up"@[0] != "f3"@[0]);
    assert("up"@[0] != "f4"@[0]);
    assert("up"@[0] != "f5"@[0]);
    assert("up"@[0] != "f6"@[0]);
    assert("up"@[0] != "f7"@[0]);
    assert("up"@[0] != "f8"@[0]);
    assert("up"@[0] != "f9"@[0]);
    assert("down"@[0] != "left"@[0]);
    assert("down"@[0] != "home"@[0]);
    assert("down"@[0] != "copy"@[0]);
    assert("left"@[0] != "home"@[0]);
    assert("left"@[0] != "copy"@[0]);
    assert("right"@[0] != "enter"@[0]);
    assert("right"@[0] != "space"@[0]);
    assert("right"@[0] != "pause"@[0]);
    assert("right"@[0] != "paste"@[0]);
    assert("home"@[0] != "copy"@[0]);
    assert("end"@[0] != "tab"@[0]);
    assert("end"@[0] != "f10"@[0]);
    assert("end"@[0] != "f11"@[0]);
    assert("end"@[0] != "f12"@[0]);
    assert("end"@[0] != "f13"@[0]);
    assert("end"@[0] != "f14"@[0]);
    assert("end"@[0] != "f15"@[0]);
    assert("end"@[0] != "f16"@[0]);
    assert("end"@[0] != "f17"@[0]);
    assert("end"@[0] != "f18"@[0]);
    assert("end"@[0] != "f19"@[0]);
    assert("end"@[0] != "f20"@[0]);
    assert("end"@[0] != "f21"@[0]);
    assert("end"@[0] != "f22"@[0]);
    assert("end"@[0] != "f23"@[0]);
    assert("end"@[0] != "f24"@[0]);
    assert("end"@[0] != "f25"@[0]);
    assert("end"@[0] != "cut"@[0]);
    assert("pageup"@[0] != "insert"@[0]);
    assert("pageup"@[0] != "delete"@[0]);
    assert("pageup"@[0] != "escape"@[0]);
    assert("page_up"@[4] != "page-up"@[4]);
    assert("page_down"@[4] != "page-down"@[4]);
    assert("page_down"@[0] != "backspace"@[0]);
    assert("page-down"@[0] != "backspace"@[0]);
    assert("insert"@[0] != "delete"@[0]);
    assert("insert"@[0] != "escape"@[0]);
    assert("delete"@[0] != "escape"@[0]);
    assert("enter"@[0] != "space"@[0]);
    assert("enter"@[0] != "pause"@[0]);
    assert("enter"@[0] != "paste"@[0]);
    assert("tab"@[0] != "f10"@[0]);
    assert("tab"@[0] != "f11"@[0]);
    assert("tab"@[0] != "f12"@[0]);
    assert("tab"@[0] != "f13"@[0]);
    assert("tab"@[0] != "f14"@[0]);
    assert("tab"@[0] != "f15"@[0]);
    assert("tab"@[0] != "f16"@[0]);
    assert("tab"@[0] != "f17"@[0]);
    assert("tab"@[0] != "f18"@[0]);
    assert("tab"@[0] != "f19"@[0]);
    assert("tab"@[0] != "f20"@[0]);
    assert("tab"@[0] != "f21"@[0]);
    assert("tab"@[0] != "f22"@[0]);
    assert("tab"@[0] != "f23"@[0]);
    assert("tab"@[0] != "f24"@[0]);
    assert("tab"@[0] != "f25"@[0]);
    assert("tab"@[0] != "cut"@[0]);
    assert("space"@[0] != "pause"@[0]);
    assert("space"@[0] != "paste"@[0]);
    assert("f1"@[1] != "f2"@[1]);
    assert("f1"@[1] != "f3"@[1]);
    assert("f1"@[1] != "f4"@[1]);
    assert("f1"@[1] != "f5"@[1]);
    assert("f1"@[1] != "f6"@[1]);
    assert("f1"@[1] != "f7"@[1]);
    assert("f1"@[1] != "f8"@[1]);
    assert("f1"@[1] != "f9"@[1]);
    assert("f2"@[1] != "f3"@[1]);
    assert("f2"@[1] != "f4"@[1]);
    assert("f2"@[1] != "f5"@[1]);
    assert("f2"@[1] != "f6"@[1]);
    assert("f2"@[1] != "f7"@[1]);
    assert("f2"@[1] != "f8"@[1]);
    assert("f2"@[1] != "f9"@[1]);
    assert("f3"@[1] != "f4"@[1]);
    assert("f3"@[1] != "f5"@[1]);
    assert("f3"@[1] != "f6"@[1]);
    assert("f3"@[1] != "f7"@[1]);
    assert("f3"@[1] != "f8"@[1]);
    assert("f3"@[1] != "f9"@[1]);
    assert("f4"@[1] != "f5"@[1]);
    assert("f4"@[1] != "f6"@[1]);
    assert("f4"@[1] != "f7"@[1]);
    assert("f4"@[1] != "f8"@[1]);
    assert("f4"@[1] != "f9"@[1]);
    assert("f5"@[1] != "f6"@[1]);
    assert("f5"@[1] != "f7"@[1]);
    assert("f5"@[1] != "f8"@[1]);
    assert("f5"@[1] != "f9"@[1]);
    assert("f6"@[1] != "f7"@[1]);
    assert("f6"@[1] != "f8"@[1]);
    assert("f6"@[1] != "f9"@[1]);
    assert("f7"@[1] != "f8"@[1]);
    assert("f7"@[1] != "f9"@[1]);
    assert("f8"@[1] != "f9"@[1]);
    assert("f10"@[2] != "f11"@[2]);
    assert("f10"@[2] != "f12"@[2]);
    assert("f10"@[2] != "f13"@[2]);
    assert("f10"@[2] != "f14"@[2]);
    assert("f10"@[2] != "f15"@[2]);
    assert("f10"@[2] != "f16"@[2]);
    assert("f10"@[2] != "f17"@[2]);
    assert("f10"@[2] != "f18"@[2]);
    assert("f10"@[2] != "f19"@[2]);
    assert("f10"@[1] != "f20"@[1]);
    assert("f10"@[1] != "f21"@[1]);
    assert("f10"@[1] != "f22"@[1]);
    assert("f10"@[1] != "f23"@[1]);
    assert("f10"@[1] != "f24"@[1]);
    assert("f10"@[1] != "f25"@[1]);
    assert("f10"@[0] != "cut"@[0]);
    assert("f11"@[2] != "f12"@[2]);
    assert("f11"@[2] != "f13"@[2]);
    assert("f11"@[2] != "f14"@[2]);
    assert("f11"@[2] != "f15"@[2]);
    assert("f11"@[2] != "f16"@[2]);
    assert("f11"@[2] != "f17"@[2]);
    assert("f11"@[2] != "f18"@[2]);
    assert("f11"@[2] != "f19"@[2]);
    assert("f11"@[1] != "f20"@[1]);
    assert("f11"@[1] != "f21"@[1]);
    assert("f11"@[1] != "f22"@[1]);
    assert("f11"@[1] != "f23"@[1]);
    assert("f11"@[1] != "f24"@[1]);
    assert("f11"@[1] != "f25"@[1]);
    assert("f11"@[0] != "cut"@[0]);
    assert("f12"@[2] != "f13"@[2]);
    assert("f12"@[2] != "f14"@[2]);
    assert("f12"@[2] != "f15"@[2]);
    assert("f12"@[2] != "f16"@[2]);
    assert("f12"@[2] != "f17"@[2]);
    assert("f12"@[2] != "f18"@[2]);
    assert("f12"@[2] != "f19"@[2]);
    assert("f12"@[1] != "f20"@[1]);
    assert("f12"@[1] != "f21"@[1]);
    assert("f12"@[1] != "f22"@[1]);
    assert("f12"@[1] != "f23"@[1]);
    assert("f12"@[1] != "f24"@[1]);
    assert("f12"@[1] != "f25"@[1]);
    assert("f12"@[0] != "cut"@[0]);
    assert("f13"@[2] != "f14"@[2]);
    assert("f13"@[2] != "f15"@[2]);
    assert("f13"@[2] != "f16"@[2]);
    assert("f13"@[2] != "f17"@[2]);
    assert("f13"@[2] != "f18"@[2]);
    assert("f13"@[2] != "f19"@[2]);
    assert("f13"@[1] != "f20"@[1]);
    assert("f13"@[1] != "f21"@[1]);
    assert("f13"@[1] != "f22"@[1]);
    assert("f13"@[1] != "f23"@[1]);
    assert("f13"@[1] != "f24"@[1]);
    assert("f13"@[1] != "f25"@[1]);
    assert("f13"@[0] != "cut"@[0]);
    assert("f14"@[2] != "f15"@[2]);
    assert("f14"@[2] != "f16"@[2]);
    assert("f14"@[2] != "f17"@[2]);
    assert("f14"@[2] != "f18"@[2]);
    assert("f14"@[2] != "f19"@[2]);
    assert("f14"@[1] != "f20"@[1]);
    assert("f14"@[1] != "f21"@[1]);
    assert("f14"@[1] != "f22"@[1]);
    assert("f14"@[1] != "f23"@[1]);
    assert("f14"@[1] != "f24"@[1]);
    assert("f14"@[1] != "f25"@[1]);
    assert("f14"@[0] != "cut"@[0]);
    assert("f15"@[2] != "f16"@[2]);
    assert("f15"@[2] != "f17"@[2]);
    assert("f15"@[2] != "f18"@[2]);
    assert("f15"@[2] != "f19"@[2]);
    assert("f15"@[1] != "f20"@[1]);
    assert("f15"@[1] != "f21"@[1]);
    assert("f15"@[1] != "f22"@[1]);
    assert("f15"@[1] != "f23"@[1]);
    assert("f15"@[1] != "f24"@[1]);
    assert("f15"@[1] != "f25"@[1]);
    assert("f15"@[0] != "cut"@[0]);
    assert("f16"@[2] != "f17"@[2]);
    assert("f16"@[2] != "f18"@[2]);
    assert("f16"@[2] != "f19"@[2]);
    assert("f16"@[1] != "f20"@[1]);
    assert("f16"@[1] != "f21"@[1]);
    assert("f16"@[1] != "f22"@[1]);
    assert("f16"@[1] != "f23"@[1]);
    assert("f16"@[1] != "f24"@[1]);
    assert("f16"@[1] != "f25"@[1]);
    assert("f16"@[0] != "cut"@[0]);
    assert("f17"@[2] != "f18"@[2]);
    assert("f17"@[2] != "f19"@[2]);
    assert("f17"@[1] != "f20"@[1]);
    assert("f17"@[1] != "f21"@[1]);
    assert("f17"@[1] != "f22"@[1]);
    assert("f17"@[1] != "f23"@[1]);
    assert("f17"@[1] != "f24"@[1]);
    assert("f17"@[1] != "f25"@[1]);
    assert("f17"@[0] != "cut"@[0]);
    assert("f18"@[2] != "f19"@[2]);
    assert("f18"@[1] != "f20"@[1]);
    assert("f18"@[1] != "f21"@[1]);
    assert("f18"@[1] != "f22"@[1]);
    assert("f18"@[1] != "f23"@[1]);
    assert("f18"@[1] != "f24"@[1]);
    assert("f18"@[1] != "f25"@[1]);
    assert("f18"@[0] != "cut"@[0]);
    assert("f19"@[1] != "f20"@[1]);
    assert("f19"@[1] != "f21"@[1]);
    assert("f19"@[1] != "f22"@[1]);
    assert("f19"@[1] != "f23"@[1]);
    assert("f19"@[1] != "f24"@[1]);
    assert("f19"@[1] != "f25"@[1]);
    assert("f19"@[0] != "cut"@[0]);
    assert("f20"@[2] != "f21"@[2]);
    assert("f20"@[2] != "f22"@[2]);
    assert("f20"@[2] != "f23"@[2]);
    assert("f20"@[2] != "f24"@[2]);
    assert("f20"@[2] != "f25"@[2]);
    assert("f20"@[0] != "cut"@[0]);
    assert("f21"@[2] != "f22"@[2]);
    assert("f21"@[2] != "f23"@[2]);
    assert("f21"@[2] != "f24"@[2]);
    assert("f21"@[2] != "f25"@[2]);
    assert("f21"@[0] != "cut"@[0]);
    assert("f22"@[2] != "f23"@[2]);
    assert("f22"@[2] != "f24"@[2]);
    assert("f22"@[2] != "f25"@[2]);
    assert("f22"@[0] != "cut"@[0]);
    assert("f23"@[2] != "f24"@[2]);
    assert("f23"@[2] != "f25"@[2]);
    assert("f23"@[0] != "cut"@[0]);
    assert("f24"@[2] != "f25"@[2]);
    assert("f24"@[0] != "cut"@[0]);
    assert("f25"@[0] != "cut"@[0]);
    assert("printscreen"@[0] != "scroll_lock"@[0]);
    assert("printscreen"@[0] != "scroll-lock"@[0]);
    assert("print_screen"@[5] != "print-screen"@[5]);
    assert("scroll_lock"@[6] != "scroll-lock"@[6]);
    assert("pause"@[2] != "paste"@[2]);
}

/// Each named key is reached from exactly its own names: a name maps to the
/// key `KEY_ARROW_UP` if and only if it is `up`, to `KEY_PAGE_UP` if and only
/// if it is `pageup`, `page_up` or `page-up`, and so on for every key of the
/// table; no other name, and no single character, reaches a named key.
pub proof fn lemma_named_keys(name: Seq<char>)
    ensures
        (key_for_name(name) == KEY_BROWSER_BACK) <==> (name == "back"@),
        (key_for_name(name) == KEY_BROWSER_FORWARD) <==> (name == "forward"@),
        (key_for_name(name) == KEY_ARROW_UP) <==> (name == "up"@),
        (key_for_name(name) == KEY_ARROW_DOWN) <==> (name == "down"@),
        (key_for_name(name) == KEY_ARROW_LEFT) <==> (name == "left"@),
        (key_for_name(name) == KEY_ARROW_RIGHT) <==> (name == "right"@),
        (key_for_name(name) == KEY_HOME) <==> (name == "home"@),
        (key_for_name(name) == KEY_END) <==> (name == "end"@),
        (key_for_name(name) == KEY_PAGE_UP) <==> (name == "pageup"@ || name == "page_up"@ || name == "page-up"@),
        (key_for_name(name) == KEY_PAGE_DOWN) <==> (name == "pagedown"@ || name == "page_down"@ || name == "page-down"@),
        (key_for_name(name) == KEY_INSERT) <==> (name == "insert"@),
        (key_for_name(name) == KEY_DELETE) <==> (name == "delete"@),
        (key_for_name(name) == KEY_BACKSPACE) <==> (name == "backspace"@),
        (key_for_name(name) == KEY_ENTER) <==> (name == "enter"@),
        (key_for_name(name) == KEY_TAB) <==> (name == "tab"@),
        (key_for_name(name) == KEY_ESCAPE) <==> (name == "escape"@),
        (key_for_name(name) == KEY_SPACE) <==> (name == "space"@),
        (key_for_name(name) == KEY_F1) <==> (name == "f1"@),
        (key_for_name(name) == KEY_F2) <==> (name == "f2"@),
        (key_for_name(name) == KEY_F3) <==> (name == "f3"@),
        (key_for_name(name) == KEY_F4) <==> (name == "f4"@),
        (key_for_name(name) == KEY_F5) <==> (name == "f5"@),
        (key_for_name(name) == KEY_F6) <==> (name == "f6"@),
        (key_for_name(name) == KEY_F7) <==> (name == "f7"@),
        (key_for_name(name) == KEY_F8) <==> (name == "f8"@),
        (key_for_name(name) == KEY_F9) <==> (name == "f9"@),
        (key_for_name(name) == KEY_F10) <==> (name == "f10"@),
        (key_for_name(name) == KEY_F11) <==> (name == "f11"@),
        (key_for_name(name) == KEY_F12) <==> (name == "f12"@),
        (key_for_name(name) == KEY_F13) <==> (name == "f13"@),
        (key_for_name(name) == KEY_F14) <==> (name == "f14"@),
        (key_for_name(name) == KEY_F15) <==> (name == "f15"@),
        (key_for_name(name) == KEY_F16) <==> (name == "f16"@),
        (key_for_name(name) == KEY_F17) <==> (name == "f17"@),
        (key_for_name(name) == KEY_F18) <==> (name == "f18"@),
        (key_for_name(name) == KEY_F19) <==> (name == "f19"@),
        (key_for_name(name) == KEY_F20) <==> (name == "f20"@),
        (key_for_name(name) == KEY_F21) <==> (name == "f21"@),
        (key_for_name(name) == KEY_F22) <==> (name == "f22"@),
        (key_for_name(name) == KEY_F23) <==> (name == "f23"@),
        (key_for_name(name) == KEY_F24) <==> (name == "f24"@),
        (key_for_name(name) == KEY_F25) <==> (name == "f25"@),
        (key_for_name(name) == KEY_PRINT_SCREEN) <==> (name == "printscreen"@ || name == "print_screen"@ || name == "print-screen"@),
        (key_for_name(name) == KEY_SCROLL_LOCK) <==> (name == "scrolllock"@ || name == "scroll_lock"@ || name == "scroll-lock"@),
        (key_for_name(name) == KEY_PAUSE) <==> (name == "pause"@),
        (key_for_name(name) == KEY_COPY) <==> (name == "copy"@),
        (key_for_name(name) == KEY_CUT) <==> (name == "cut"@),
        (key_for_name(name) == KEY_PASTE) <==> (name == "paste"@),
{
    reveal_strlit("back");
    reveal_strlit("forward");
    reveal_strlit("up");
    reveal_strlit("down");
    reveal_strlit("left");
    reveal_strlit("right");
    reveal_strlit("home");
    reveal_strlit("end");
    reveal_strlit("pageup");
    reveal_strlit("page_up");
    reveal_strlit("page-up");
    reveal_strlit("pagedown");
    reveal_strlit("page_down");
    reveal_strlit("page-down");
    reveal_strlit("insert");
    reveal_strlit("delete");
    reveal_strlit("backspace");
    reveal_strlit("enter");
    reveal_strlit("tab");
    reveal_strlit("escape");
    reveal_strlit("space");
    reveal_strlit("f1");
    reveal_strlit("f2");
    reveal_strlit("f3");
    reveal_strlit("f4");
    reveal_strlit("f5");
    reveal_strlit("f6");
    reveal_strlit("f7");
    reveal_strlit("f8");
    reveal_strlit("f9");
    reveal_strlit("f10");
    reveal_strlit("f11");
    reveal_strlit("f12");
    reveal_strlit("f13");
    reveal_strlit("f14");
    reveal_strlit("f15");
    reveal_strlit("f16");
    reveal_strlit("f17");
    reveal_strlit("f18");
    reveal_strlit("f19");
    reveal_strlit("f20");
    reveal_strlit("f21");
    reveal_strlit("f22");
    reveal_strlit("f23");
    reveal_strlit("f24");
    reveal_strlit("f25");
    reveal_strlit("printscreen");
    reveal_strlit("print_screen");
    reveal_strlit("print-screen");
    reveal_strlit("scrolllock");
    reveal_strlit("scroll_lock");
    reveal_strlit("scroll-lock");
    reveal_strlit("pause");
    reveal_strlit("copy");
    reveal_strlit("cut");
    reveal_strlit("paste");
    lemma_table_names_distinct();
    if name.len() == 1 {
        lemma_key_for_char(name[0], name[0]);
    }
}

/// The key of a one-character name: a lowercase letter counts up from `KEY_A`
/// and a digit from `KEY_DIGIT_0` in alphabet order; each punctuation key is
/// named by exactly its own character (`` ` `` backquote, `\\` backslash, `[` and `]`
/// brackets, `,` comma, `.` period, `/` slash, `;` semicolon, `'` quote, `-`
/// minus, `=` equal); every other single character is unidentified.
pub proof fn lemma_single_character_keys(c: char)
    ensures
        'a' as u32 <= c as u32 <= 'z' as u32 ==> key_for_name(seq![c]) == KEY_A + (c as u32 - 'a' as u32),
        '0' as u32 <= c as u32 <= '9' as u32 ==> key_for_name(seq![c]) == KEY_DIGIT_0 + (c as u32 - '0' as u32),
        (key_for_name(seq![c]) == KEY_BACKQUOTE) <==> c == '`',
        (key_for_name(seq![c]) == KEY_BACKSLASH) <==> c == '\\',
        (key_for_name(seq![c]) == KEY_BRACKET_LEFT) <==> c == '[',
        (key_for_name(seq![c]) == KEY_BRACKET_RIGHT) <==> c == ']',
        (key_for_name(seq![c]) == KEY_COMMA) <==> c == ',',
        (key_for_name(seq![c]) == KEY_PERIOD) <==> c == '.',
        (key_for_name(seq![c]) == KEY_SLASH) <==> c == '/',
        (key_for_name(seq![c]) == KEY_SEMICOLON) <==> c == ';',
        (key_for_name(seq![c]) == KEY_QUOTE) <==> c == '\'',
        (key_for_name(seq![c]) == KEY_MINUS) <==> c == '-',
        (key_for_name(seq![c]) == KEY_EQUAL) <==> c == '=',
        !('a' as u32 <= c as u32 <= 'z' as u32) && !('0' as u32 <= c as u32 <= '9' as u32)
            && c != '`' && c != '\\' && c != '[' && c != ']' && c != ',' && c != '.' && c != '/'
            && c != ';' && c != '\'' && c != '-' && c != '='
            ==> key_for_name(seq![c]) == KEY_UNIDENTIFIED,
{
    let name = seq![c];
    reveal_strlit("back");
    reveal_strlit("forward");
    reveal_strlit("up");
    reveal_strlit("down");
    reveal_strlit("left");
    reveal_strlit("right");
    reveal_strlit("home");
    reveal_strlit("end");
    reveal_strlit("pageup");
    reveal_strlit("page_up");
    reveal_strlit("page-up");
    reveal_strlit("pagedown");
    reveal_strlit("page_down");
    reveal_strlit("page-down");
    reveal_strlit("insert");
    reveal_strlit("delete");
    reveal_strlit("backspace");
    reveal_strlit("enter");
    reveal_strlit("tab");
    reveal_strlit("escape");
    reveal_strlit("space");
    reveal_strlit("f1");
    reveal_strlit("f2");
    reveal_strlit("f3");
    reveal_strlit("f4");
    reveal_strlit("f5");
    reveal_strlit("f6");
    reveal_strlit("f7");
    reveal_strlit("f8");
    reveal_strlit("f9");
    reveal_strlit("f10");
    reveal_strlit("f11");
    reveal_strlit("f12");
    reveal_strlit("f13");
    reveal_strlit("f14");
    reveal_strlit("f15");
    reveal_strlit("f16");
    reveal_strlit("f17");
    reveal_strlit("f18");
    reveal_strlit("f19");
    reveal_strlit("f20");
    reveal_strlit("f21");
    reveal_strlit("f22");
    reveal_strlit("f23");
    reveal_strlit("f24");
    reveal_strlit("f25");
    reveal_strlit("printscreen");
    reveal_strlit("print_screen");
    reveal_strlit("print-screen");
    reveal_strlit("scrolllock");
    reveal_strlit("scroll_lock");
    reveal_strlit("scroll-lock");
    reveal_strlit("pause");
    reveal_strlit("copy");
    reveal_strlit("cut");
    reveal_strlit("paste");
    assert(name.len() == 1);
}

/// A single character's key code is in `0..=KEY_SLASH`, and a code other than
/// unidentified comes from one character only.
proof fn lemma_key_for_char(c: char, d: char)
    ensures
        0 <= key_for_char(c) <= KEY_SLASH,
        key_for_char(c) == key_for_char(d) && key_for_char(c) != KEY_UNIDENTIFIED ==> c == d,
{
    if key_for_char(c) == key_for_char(d) && key_for_char(c) != KEY_UNIDENTIFIED {
        assert(c as u32 == d as u32);
        vstd::utf8::char_u32_cast(c, c as u32);
        vstd::utf8::char_u32_cast(d, d as u32);
    }
}

/// What a name's key code says of the name: named keys (codes from
/// `KEY_BACKSPACE` up) come only from their table names, and lower codes other
/// than unidentified only from a single character.
proof fn lemma_key_for_name_source(name: Seq<char>)
    ensures
        0 <= key_for_name(name) <= KEY_PASTE,
        key_for_name(name) >= KEY_BACKSPACE ==> is_table_name_of(key_for_name(name), name),
        KEY_UNIDENTIFIED < key_for_name(name) < KEY_BACKSPACE ==> name.len() == 1 && key_for_char(
            name[0],
        ) == key_for_name(name),
{
    if name.len() == 1 {
        lemma_key_for_char(name[0], name[0]);
    }
}

/// Every key name maps to a code in `0..=KEY_PASTE`, and two names map to the
/// same identified key only when they are the same name or two names of one
/// alias group (`pageup`/`page_up`/`page-up`, `pagedown`/`page_down`/`page-down`,
/// `printscreen`/`print_screen`/`print-screen`, `scrolllock`/`scroll_lock`/`scroll-lock`).
pub proof fn lemma_key_table(a: Seq<char>, b: Seq<char>)
    ensures
        0 <= key_for_name(a) <= KEY_PASTE,
        key_for_name(a) == key_for_name(b) && key_for_name(a) != KEY_UNIDENTIFIED ==> same_key_name(a, b),
{
    lemma_key_for_name_source(a);
    lemma_key_for_name_source(b);
    let k = key_for_name(a);
    if k == key_for_name(b) && k != KEY_UNIDENTIFIED && k < KEY_BACKSPACE {
        lemma_key_for_char(a[0], b[0]);
        assert(a =~= b);
    }
}

/// A string's UTF-8 encoding is one byte long exactly when the string is a single
/// ASCII character, and that byte is then the character's code.
pub(crate) proof fn lemma_single_byte_encoding(s: Seq<char>)
    ensures
        (encode_utf8(s).len() == 1) <==> (s.len() == 1 && (s[0] as u32) < 0x80),
        encode_utf8(s).len() == 1 ==> encode_utf8(s)[0] as u32 == s[0] as u32,
{
    reveal_with_fuel(encode_utf8, 2);
    if s.len() > 0 {
        let v = s[0] as u32;
        if s.len() > 1 {
            let rest = s.drop_first();
            assert(rest.len() > 0);
            assert(encode_utf8(rest).len() >= 1);
        }
        if v <= 0x7F {
            assert(v & 0x7F == v) by (bit_vector)
                requires v <= 0x7F;
        }
    }
}

} // verus!
