//! Plain-data models of the values that cross the boundary to the terminal
//! engine: result codes, option and data identifiers, and the records that the
//! engine fills in or reads.

use vstd::prelude::*;

verus! {

/// A status code returned by the engine.
pub type GhosttyResult = i32;

pub const GHOSTTY_SUCCESS: GhosttyResult = 0;
pub const GHOSTTY_OUT_OF_MEMORY: GhosttyResult = -1;
pub const GHOSTTY_INVALID_VALUE: GhosttyResult = -2;
pub const GHOSTTY_OUT_OF_SPACE: GhosttyResult = -3;

/// A bit set of keyboard modifiers.
pub type GhosttyMods = u16;

pub const GHOSTTY_MODS_SHIFT: GhosttyMods = 1;
pub const GHOSTTY_MODS_CTRL: GhosttyMods = 2;
pub const GHOSTTY_MODS_ALT: GhosttyMods = 4;
pub const GHOSTTY_MODS_SUPER: GhosttyMods = 8;

/// A focus change reported to the focus encoder.
pub type GhosttyFocusEvent = u32;

pub const GHOSTTY_FOCUS_GAINED: GhosttyFocusEvent = 0;
pub const GHOSTTY_FOCUS_LOST: GhosttyFocusEvent = 1;

/// Tags of a scroll request.
pub const GHOSTTY_SCROLL_VIEWPORT_TOP: u32 = 0;
pub const GHOSTTY_SCROLL_VIEWPORT_BOTTOM: u32 = 1;
pub const GHOSTTY_SCROLL_VIEWPORT_DELTA: u32 = 2;

/// Codes of the render state's dirty flag.
pub const GHOSTTY_RENDER_STATE_DIRTY_FALSE: u32 = 0;
pub const GHOSTTY_RENDER_STATE_DIRTY_PARTIAL: u32 = 1;
pub const GHOSTTY_RENDER_STATE_DIRTY_FULL: u32 = 2;

/// Codes of the cursor's visual style.
pub const GHOSTTY_RENDER_STATE_CURSOR_VISUAL_STYLE_BAR: u32 = 0;
pub const GHOSTTY_RENDER_STATE_CURSOR_VISUAL_STYLE_BLOCK: u32 = 1;
pub const GHOSTTY_RENDER_STATE_CURSOR_VISUAL_STYLE_UNDERLINE: u32 = 2;
pub const GHOSTTY_RENDER_STATE_CURSOR_VISUAL_STYLE_BLOCK_HOLLOW: u32 = 3;

/// Tags of a style color.
pub const GHOSTTY_STYLE_COLOR_NONE: u32 = 0;
pub const GHOSTTY_STYLE_COLOR_PALETTE: u32 = 1;
pub const GHOSTTY_STYLE_COLOR_RGB: u32 = 2;

/// An RGB color as the engine stores it.
#[derive(Clone, Copy, Debug)]
pub struct GhosttyColorRgb {
    pub r: u8,
    pub g: u8,
    pub b: u8,
}

impl GhosttyColorRgb {
    /// Black, the color a background read starts from.
    pub fn black() -> (c: Self)
        ensures
            c.r == 0 && c.g == 0 && c.b == 0,
    {
        GhosttyColorRgb { r: 0, g: 0, b: 0 }
    }

    /// White, the color a foreground read starts from.
    pub fn white() -> (c: Self)
        ensures
            c.r == 255 && c.g == 255 && c.b == 255,
    {
        GhosttyColorRgb { r: 255, g: 255, b: 255 }
    }
}

/// The options a terminal is created with.
#[derive(Clone, Copy, Debug)]
pub struct GhosttyTerminalOptions {
    pub cols: u16,
    pub rows: u16,
    pub max_scrollback: usize,
}

/// A request to move the viewport: to the top, to the bottom, or by a number of
/// rows held, as a two's-complement 64-bit word, in `value[0]`.
#[derive(Clone, Copy, Debug)]
pub struct GhosttyTerminalScrollViewport {
    pub tag: u32,
    pub value: [u64; 2],
}

impl GhosttyTerminalScrollViewport {
    /// The request to scroll to the top of the scrollback.
    pub fn top() -> (sv: Self)
        ensures
            sv.tag == GHOSTTY_SCROLL_VIEWPORT_TOP,
            sv.value@ == seq![0u64, 0u64],
    {
        GhosttyTerminalScrollViewport { tag: GHOSTTY_SCROLL_VIEWPORT_TOP, value: [0, 0] }
    }

    /// The request to scroll to the bottom (the active screen).
    pub fn bottom() -> (sv: Self)
        ensures
            sv.tag == GHOSTTY_SCROLL_VIEWPORT_BOTTOM,
            sv.value@ == seq![0u64, 0u64],
    {
        GhosttyTerminalScrollViewport { tag: GHOSTTY_SCROLL_VIEWPORT_BOTTOM, value: [0, 0] }
    }

    /// The request to scroll by `delta` rows (negative: towards the top).
    pub fn delta(delta: isize) -> (sv: Self)
        ensures
            sv.tag == GHOSTTY_SCROLL_VIEWPORT_DELTA,
            sv.value@ == seq![delta as u64, 0u64],
            sv.value[0] as int == (if delta < 0 { delta + 0x1_0000_0000_0000_0000 } else { delta as int }),
            sv.value[0] as i64 == delta,
    {
        let word = delta as u64;
        assert(word as int == (if delta < 0 { delta + 0x1_0000_0000_0000_0000 } else { delta as int })
            && word as i64 == delta) by (bit_vector)
            requires
                word == delta as u64,
        ;
        GhosttyTerminalScrollViewport { tag: GHOSTTY_SCROLL_VIEWPORT_DELTA, value: [word, 0] }
    }
}

/// The storage of a style color's value: eight bytes that hold a palette
/// index in the first byte, or an RGB color in the first three.
#[derive(Clone, Copy, Debug)]
pub struct GhosttyStyleColorValue {
    pub bytes: [u8; 8],
}

impl GhosttyStyleColorValue {
    /// Storage with every byte zero.
    pub fn zeroed() -> (v: Self)
        ensures
            forall|i: int| 0 <= i < 8 ==> v.bytes[i] == 0,
    {
        GhosttyStyleColorValue { bytes: [0; 8] }
    }

    /// The value read as a palette index.
    pub fn palette(&self) -> (p: u8)
        ensures
            p == self.bytes[0],
    {
        self.bytes[0]
    }

    /// The value read as an RGB color.
    pub fn rgb(&self) -> (c: GhosttyColorRgb)
        ensures
            c.r == self.bytes[0],
            c.g == self.bytes[1],
            c.b == self.bytes[2],
    {
        GhosttyColorRgb { r: self.bytes[0], g: self.bytes[1], b: self.bytes[2] }
    }
}

/// A color in a cell style: none, a palette index, or an RGB color, told apart by `tag`.
#[derive(Clone, Copy, Debug)]
pub struct GhosttyStyleColor {
    pub tag: u32,
    pub value: GhosttyStyleColorValue,
}

impl GhosttyStyleColor {
    /// No color: the tag says none and the storage is zero.
    pub fn unset() -> (c: Self)
        ensures
            c.tag == GHOSTTY_STYLE_COLOR_NONE,
            forall|i: int| 0 <= i < 8 ==> c.value.bytes[i] == 0,
    {
        GhosttyStyleColor { tag: GHOSTTY_STYLE_COLOR_NONE, value: GhosttyStyleColorValue::zeroed() }
    }
}

/// The style of a cell as the engine reports it.
#[derive(Clone, Copy, Debug)]
pub struct GhosttyStyle {
    pub size: usize,
    pub fg_color: GhosttyStyleColor,
    pub bg_color: GhosttyStyleColor,
    pub underline_color: GhosttyStyleColor,
    pub bold: bool,
    pub italic: bool,
    pub faint: bool,
    pub blink: bool,
    pub inverse: bool,
    pub invisible: bool,
    pub strikethrough: bool,
    pub overline: bool,
    pub underline: i32,
}

impl GhosttyStyle {
    /// The plain style a style read starts from: no colors, no attributes, no
    /// underline; `size` is the size of the record the engine is handed.
    pub fn unset(size: usize) -> (s: Self)
        ensures
            s.size == size,
            s.fg_color.tag == GHOSTTY_STYLE_COLOR_NONE,
            s.bg_color.tag == GHOSTTY_STYLE_COLOR_NONE,
            s.underline_color.tag == GHOSTTY_STYLE_COLOR_NONE,
            forall|i: int| 0 <= i < 8 ==> s.fg_color.value.bytes[i] == 0,
            forall|i: int| 0 <= i < 8 ==> s.bg_color.value.bytes[i] == 0,
            forall|i: int| 0 <= i < 8 ==> s.underline_color.value.bytes[i] == 0,
            !s.bold && !s.italic && !s.faint && !s.blink,
            !s.inverse && !s.invisible && !s.strikethrough && !s.overline,
            s.underline == 0,
    {
        GhosttyStyle {
            size,
            fg_color: GhosttyStyleColor::unset(),
            bg_color: GhosttyStyleColor::unset(),
            underline_color: GhosttyStyleColor::unset(),
            bold: false,
            italic: false,
            faint: false,
            blink: false,
            inverse: false,
            invisible: false,
            strikethrough: false,
            overline: false,
            underline: 0,
        }
    }
}

/// The reply to a primary device attributes query (DA1).
#[derive(Clone, Copy, Debug)]
pub struct GhosttyDeviceAttributesPrimary {
    pub conformance_level: u16,
    pub features: [u16; 64],
    pub num_features: usize,
}

/// The reply to a secondary device attributes query (DA2).
#[derive(Clone, Copy, Debug)]
pub struct GhosttyDeviceAttributesSecondary {
    pub device_type: u16,
    pub firmware_version: u16,
    pub rom_cartridge: u16,
}

/// The reply to a tertiary device attributes query (DA3).
#[derive(Clone, Copy, Debug)]
pub struct GhosttyDeviceAttributesTertiary {
    pub unit_id: u32,
}

/// The replies to the three device attributes queries.
#[derive(Clone, Copy, Debug)]
pub struct GhosttyDeviceAttributes {
    pub primary: GhosttyDeviceAttributesPrimary,
    pub secondary: GhosttyDeviceAttributesSecondary,
    pub tertiary: GhosttyDeviceAttributesTertiary,
}

/// The scrollbar geometry: rows in all, the first row shown, and rows shown.
#[derive(Clone, Copy, Debug)]
pub struct GhosttyTerminalScrollbar {
    pub total: u64,
    pub offset: u64,
    pub len: u64,
}

impl GhosttyTerminalScrollbar {
    /// The empty scrollbar a scrollbar read starts from.
    pub fn zero() -> (sb: Self)
        ensures
            sb.total == 0 && sb.offset == 0 && sb.len == 0,
    {
        GhosttyTerminalScrollbar { total: 0, offset: 0, len: 0 }
    }
}

/// The colors of a render state as the engine reports them.
#[derive(Clone, Copy, Debug)]
pub struct GhosttyRenderStateColors {
    pub size: usize,
    pub background: GhosttyColorRgb,
    pub foreground: GhosttyColorRgb,
    pub cursor: GhosttyColorRgb,
    pub cursor_has_value: bool,
    pub palette: [GhosttyColorRgb; 256],
}

impl GhosttyRenderStateColors {
    /// The colors a colors read starts from: white on black, no cursor color,
    /// an all-black palette; `size` is the size of the record the engine is handed.
    pub fn initial(size: usize) -> (c: Self)
        ensures
            c.size == size,
            c.background.r == 0 && c.background.g == 0 && c.background.b == 0,
            c.foreground.r == 255 && c.foreground.g == 255 && c.foreground.b == 255,
            c.cursor.r == 0 && c.cursor.g == 0 && c.cursor.b == 0,
            !c.cursor_has_value,
            forall|i: int| 0 <= i < 256 ==> c.palette[i].r == 0 && c.palette[i].g == 0 && c.palette[i].b == 0,
    {
        GhosttyRenderStateColors {
            size,
            background: GhosttyColorRgb::black(),
            foreground: GhosttyColorRgb::white(),
            cursor: GhosttyColorRgb::black(),
            cursor_has_value: false,
            palette: vstd::array::array_fill_for_copy_types(GhosttyColorRgb::black()),
        }
    }
}

} // verus!
