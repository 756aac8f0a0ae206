//! The decisions a terminal session makes around the engine: which key event
//! to encode for a key press, where the cursor is, whether a new title is
//! waiting, and how it answers device attributes queries.

use vstd::prelude::*;

use vstd::string::StrSliceExecFns;

use crate::keys::{
    key_for_name, lemma_single_byte_encoding, map_key_name, str_eq, KEY_ACTION_PRESS,
    KEY_ACTION_REPEAT, KEY_MOD_ALT, KEY_MOD_CTRL, KEY_MOD_SHIFT,
};
use crate::sys::GhosttyDeviceAttributes;
use crate::vt::{cursor_info_of, CursorInfo};

verus! {

/// The fields of a key event handed to the key encoder.
#[derive(Clone, Copy, Debug, PartialEq, Eq, Structural)]
pub struct KeyInput {
    pub key: i32,
    pub action: u32,
    pub mods: u16,
    pub unshifted_codepoint: u32,
}

/// The modifier bits for the modifier keys held down.
pub open spec fn mods_of(shift: bool, ctrl: bool, alt: bool) -> u16 {
    ((if shift { KEY_MOD_SHIFT as int } else { 0 }) + (if ctrl { KEY_MOD_CTRL as int } else { 0 })
        + (if alt { KEY_MOD_ALT as int } else { 0 })) as u16
}

/// The code point of the key without shift: the first character of the text
/// the key produced; failing that, a space for the space key, or the key name
/// itself when it is one ASCII character; failing that, zero.
pub open spec fn unshifted_codepoint_of(key_name: Seq<char>, utf8: Seq<char>) -> u32 {
    if utf8.len() > 0 {
        utf8[0] as u32
    } else if key_name == "space"@ {
        ' ' as u32
    } else if key_name.len() == 1 && (key_name[0] as u32) < 0x80 {
        key_name[0] as u32
    } else {
        0
    }
}

/// Which code point a key event carries as the unshifted key: the first
/// character of the produced text when there is text; with no text, the
/// character itself for a one-character ASCII key name (letters, digits,
/// punctuation alike), a space (U+0020) for the space key, and zero otherwise.
pub proof fn lemma_unshifted_codepoint(key_name: Seq<char>, utf8: Seq<char>)
    ensures
        utf8.len() > 0 ==> unshifted_codepoint_of(key_name, utf8) == utf8[0] as u32,
        utf8.len() == 0 && key_name.len() == 1 && (key_name[0] as u32) < 0x80
            ==> unshifted_codepoint_of(key_name, utf8) == key_name[0] as u32,
        utf8.len() == 0 && key_name == "space"@ ==> unshifted_codepoint_of(key_name, utf8) == 0x20,
        utf8.len() == 0 && key_name != "space"@ && !(key_name.len() == 1 && (key_name[0] as u32) < 0x80)
            ==> unshifted_codepoint_of(key_name, utf8) == 0,
{
    reveal_strlit("space");
}

/// The key event for a key press (or, with `is_repeat`, an auto-repeat) of the
/// key named `key_name` that produced the text `utf8`.
pub fn key_input(
    key_name: &str,
    utf8: &str,
    shift: bool,
    ctrl: bool,
    alt: bool,
    is_repeat: bool,
) -> (input: KeyInput)
    ensures
        input.key == key_for_name(key_name@),
        input.action == (if is_repeat { KEY_ACTION_REPEAT } else { KEY_ACTION_PRESS }),
        input.mods == mods_of(shift, ctrl, alt),
        input.unshifted_codepoint == unshifted_codepoint_of(key_name@, utf8@),
        utf8@.len() > 0 ==> input.unshifted_codepoint == utf8@[0] as u32,
        utf8@.len() == 0 && key_name@.len() == 1 && (key_name@[0] as u32) < 0x80
            ==> input.unshifted_codepoint == key_name@[0] as u32,
{
    proof {
        lemma_unshifted_codepoint(key_name@, utf8@);
    }
    let key = map_key_name(key_name);
    let action = if is_repeat {
        KEY_ACTION_REPEAT
    } else {
        KEY_ACTION_PRESS
    };
    let s: u16 = if shift { KEY_MOD_SHIFT } else { 0 };
    let c: u16 = if ctrl { KEY_MOD_CTRL } else { 0 };
    let a: u16 = if alt { KEY_MOD_ALT } else { 0 };
    let mods = s | c | a;
    assert(s | c | a == s + c + a) by (bit_vector)
        requires
            s == 0 || s == 1,
            c == 0 || c == 2,
            a == 0 || a == 4,
    ;
    let ucp: u32 = if !utf8.is_empty() {
        utf8.get_char(0) as u32
    } else if str_eq(key_name, "space") {
        ' ' as u32
    } else if key_name.as_bytes().len() == 1 {
        proof {
            lemma_single_byte_encoding(key_name@);
        }
        key_name.get_char(0) as u32
    } else {
        proof {
            lemma_single_byte_encoding(key_name@);
        }
        0
    };
    KeyInput { key, action, mods, unshifted_codepoint: ucp }
}

/// The cursor's cell, when the cursor is in the viewport.
pub open spec fn viewport_position(info: CursorInfo) -> Option<(u16, u16)> {
    if info.in_viewport {
        Some((info.x, info.y))
    } else {
        None
    }
}

/// The cursor's cell when it is in the viewport.
pub fn cursor_position(info: &CursorInfo) -> (pos: Option<(u16, u16)>)
    ensures
        pos == viewport_position(*info),
        info.in_viewport ==> pos == Some((info.x, info.y)),
        !info.in_viewport ==> pos is None,
{
    if info.in_viewport {
        Some((info.x, info.y))
    } else {
        None
    }
}

/// Each modifier key held down sets its own bit of the modifier set, and no
/// other bit (the super bit among them) is set.
pub proof fn lemma_mods_bits(shift: bool, ctrl: bool, alt: bool)
    ensures
        (mods_of(shift, ctrl, alt) & KEY_MOD_SHIFT != 0) == shift,
        (mods_of(shift, ctrl, alt) & KEY_MOD_CTRL != 0) == ctrl,
        (mods_of(shift, ctrl, alt) & KEY_MOD_ALT != 0) == alt,
        mods_of(shift, ctrl, alt) & !(KEY_MOD_SHIFT | KEY_MOD_CTRL | KEY_MOD_ALT) == 0,
{
    let m = mods_of(shift, ctrl, alt);
    let s: u16 = if shift { 1 } else { 0 };
    let c: u16 = if ctrl { 2 } else { 0 };
    let a: u16 = if alt { 4 } else { 0 };
    assert(m == s + c + a);
    assert((m & 1 != 0) == (s == 1) && (m & 2 != 0) == (c == 2) && (m & 4 != 0) == (a == 4)
        && m & !(1u16 | 2u16 | 4u16) == 0) by (bit_vector)
        requires
            m == s + c + a,
            s == 0 || s == 1,
            c == 0 || c == 2,
            a == 0 || a == 4,
    ;
}

/// The position a session reports for the cursor that the engine describes is
/// the engine's cursor cell when, and only when, the engine puts the cursor in
/// the viewport.
pub proof fn lemma_cursor_position_of_engine_cursor(
    in_viewport: bool,
    x: u16,
    y: u16,
    style: u32,
    visible: bool,
    blinking: bool,
)
    ensures
        viewport_position(cursor_info_of(in_viewport, x, y, style, visible, blinking)) == (if in_viewport {
            Some((x, y))
        } else {
            None
        }),
{
}

/// Consumes the "title changed" flag: says whether it was set, and clears it.
pub fn take_title_changed(flag: &mut bool) -> (was_set: bool)
    ensures
        was_set == *old(flag),
        !*final(flag),
{
    if *flag {
        *flag = false;
        true
    } else {
        false
    }
}

/// Fills in the answer to device attributes queries: a VT level 2 conformance
/// with the ANSI color feature, a VT220 with firmware 10, and unit id 0. The
/// feature slots after the first are left as they were.
pub fn fill_device_attributes(attrs: &mut GhosttyDeviceAttributes)
    ensures
        final(attrs).primary.conformance_level == 62,
        final(attrs).primary.features@ == old(attrs).primary.features@.update(0, 22u16),
        final(attrs).primary.num_features == 1,
        final(attrs).secondary.device_type == 1,
        final(attrs).secondary.firmware_version == 10,
        final(attrs).secondary.rom_cartridge == 0,
        final(attrs).tertiary.unit_id == 0,
{
    attrs.primary.conformance_level = 62;
    attrs.primary.features.set(0, 22);
    attrs.primary.num_features = 1;
    attrs.secondary.device_type = 1;
    attrs.secondary.firmware_version = 10;
    attrs.secondary.rom_cartridge = 0;
    attrs.tertiary.unit_id = 0;
}

} // verus!
