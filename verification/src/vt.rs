//! Terminal values as the library hands them out: colors, cursor, cell styles,
//! render-state colors and errors, made from what the engine reports.

use vstd::prelude::*;

use vstd::utf8::{decode_utf8, is_scalar, valid_utf8};

use crate::sys::{
    GhosttyColorRgb, GhosttyFocusEvent, GhosttyRenderStateColors, GhosttyResult, GhosttyStyle,
    GhosttyStyleColor, GHOSTTY_FOCUS_GAINED, GHOSTTY_FOCUS_LOST, GHOSTTY_OUT_OF_MEMORY,
    GHOSTTY_RENDER_STATE_CURSOR_VISUAL_STYLE_BAR, GHOSTTY_RENDER_STATE_CURSOR_VISUAL_STYLE_BLOCK,
    GHOSTTY_RENDER_STATE_CURSOR_VISUAL_STYLE_BLOCK_HOLLOW,
    GHOSTTY_RENDER_STATE_CURSOR_VISUAL_STYLE_UNDERLINE, GHOSTTY_RENDER_STATE_DIRTY_FULL,
    GHOSTTY_RENDER_STATE_DIRTY_PARTIAL, GHOSTTY_STYLE_COLOR_RGB, GHOSTTY_SUCCESS,
};

verus! {

/// A terminal mode identifier: the mode number in the low 15 bits and,
/// in the top bit, whether it is an ANSI mode (as opposed to a DEC private one).
pub type GhosttyMode = u16;

/// The packed mode for a mode number and an ANSI flag: the number's low 15
/// bits, plus the top bit when the mode is an ANSI mode.
pub open spec fn packed_mode(value: u16, ansi: bool) -> GhosttyMode {
    (value as int % 0x8000 + (if ansi { 0x8000int } else { 0int })) as u16
}

/// The mode number that a packed mode carries.
pub open spec fn mode_number(mode: GhosttyMode) -> int {
    mode as int % 0x8000
}

/// Whether a packed mode is an ANSI mode.
pub open spec fn mode_is_ansi(mode: GhosttyMode) -> bool {
    mode >= 0x8000
}

/// Packs a mode number and its ANSI flag into a `GhosttyMode`.
/// Bits of `value` above the low 15 are dropped.
pub fn mode_new(value: u16, ansi: bool) -> (mode: GhosttyMode)
    ensures
        mode == packed_mode(value, ansi),
        mode_number(mode) == value as int % 0x8000,
        mode_is_ansi(mode) == ansi,
{
    let flag: u16 = if ansi { 1 } else { 0 };
    let mode = (value & 0x7FFF) | (flag << 15);
    assert((value & 0x7FFF) | (flag << 15) == value % 0x8000 + flag * 0x8000) by (bit_vector)
        requires
            flag <= 1,
    ;
    mode
}

/// Two packed modes are the same exactly when their mode numbers (low 15 bits)
/// and their ANSI flags are the same: packing loses nothing else.
pub proof fn lemma_packed_mode_injective(v1: u16, a1: bool, v2: u16, a2: bool)
    ensures
        (packed_mode(v1, a1) == packed_mode(v2, a2)) <==> (v1 as int % 0x8000 == v2 as int
            % 0x8000 && a1 == a2),
{
}

/// The ways in which a call into the engine can fail.
#[derive(Debug)]
pub enum Error {
    CreateFailed,
    OutOfMemory,
    InvalidValue,
}

/// The message that describes an error.
pub open spec fn error_message(e: Error) -> Seq<char> {
    match e {
        Error::CreateFailed => "terminal create failed"@,
        Error::OutOfMemory => "out of memory"@,
        Error::InvalidValue => "invalid value"@,
    }
}

impl Error {
    /// The message that describes this error.
    pub fn to_string(&self) -> (s: String)
        ensures
            s@ == error_message(*self),
    {
        match self {
            Error::CreateFailed => "terminal create failed".to_owned(),
            Error::OutOfMemory => "out of memory".to_owned(),
            Error::InvalidValue => "invalid value".to_owned(),
        }
    }
}

/// What a status code of the engine means: success, or the error it reports.
pub open spec fn check_spec(result: GhosttyResult) -> Result<(), Error> {
    if result == GHOSTTY_SUCCESS {
        Ok(())
    } else if result == GHOSTTY_OUT_OF_MEMORY {
        Err(Error::OutOfMemory)
    } else {
        Err(Error::InvalidValue)
    }
}

/// Turns a status code into a `Result`: success is `Ok`, an allocation failure
/// is `OutOfMemory`, and every other code is `InvalidValue`.
pub fn check(result: GhosttyResult) -> (r: Result<(), Error>)
    ensures
        r == check_spec(result),
        r is Ok <==> result == 0,
        result == -1 ==> r == Err::<(), Error>(Error::OutOfMemory),
        result != 0 && result != -1 ==> r == Err::<(), Error>(Error::InvalidValue),
{
    if result == GHOSTTY_SUCCESS {
        Ok(())
    } else if result == GHOSTTY_OUT_OF_MEMORY {
        Err(Error::OutOfMemory)
    } else {
        Err(Error::InvalidValue)
    }
}

/// The outcome of creating an engine object: the status code must be success
/// and an object must have been handed back.
pub fn creation_status(result: GhosttyResult, created: bool) -> (r: Result<(), Error>)
    ensures
        result != GHOSTTY_SUCCESS ==> r == check_spec(result),
        result == GHOSTTY_SUCCESS && !created ==> r == Err::<(), Error>(Error::CreateFailed),
        r is Ok <==> (result == GHOSTTY_SUCCESS && created),
{
    check(result)?;
    if !created {
        return Err(Error::CreateFailed);
    }
    Ok(())
}

/// An RGB color.
#[derive(Clone, Copy, Debug, PartialEq, Eq, Structural)]
pub struct Rgb {
    pub r: u8,
    pub g: u8,
    pub b: u8,
}

/// The color that an engine color denotes.
pub open spec fn rgb_of(c: GhosttyColorRgb) -> Rgb {
    Rgb { r: c.r, g: c.g, b: c.b }
}

impl From<GhosttyColorRgb> for Rgb {
    fn from(c: GhosttyColorRgb) -> (rgb: Self)
        ensures
            rgb.r == c.r && rgb.g == c.g && rgb.b == c.b,
    {
        Rgb { r: c.r, g: c.g, b: c.b }
    }
}

impl vstd::std_specs::convert::FromSpecImpl<GhosttyColorRgb> for Rgb {
    open spec fn obeys_from_spec() -> bool {
        true
    }

    open spec fn from_spec(c: GhosttyColorRgb) -> Self {
        rgb_of(c)
    }
}

/// The shape in which the cursor is drawn.
#[derive(Clone, Copy, Debug, PartialEq, Eq, Structural)]
pub enum CursorVisualStyle {
    Bar,
    Block,
    Underline,
    BlockHollow,
}

/// The cursor style that an engine style code denotes; unknown codes are a bar.
pub open spec fn cursor_style_of(code: u32) -> CursorVisualStyle {
    if code == GHOSTTY_RENDER_STATE_CURSOR_VISUAL_STYLE_BLOCK {
        CursorVisualStyle::Block
    } else if code == GHOSTTY_RENDER_STATE_CURSOR_VISUAL_STYLE_UNDERLINE {
        CursorVisualStyle::Underline
    } else if code == GHOSTTY_RENDER_STATE_CURSOR_VISUAL_STYLE_BLOCK_HOLLOW {
        CursorVisualStyle::BlockHollow
    } else {
        CursorVisualStyle::Bar
    }
}

impl CursorVisualStyle {
    /// The style that an engine style code denotes; unknown codes are a bar.
    pub fn from_raw(code: u32) -> (style: Self)
        ensures
            style == cursor_style_of(code),
            code == 1 ==> style == CursorVisualStyle::Block,
            code == 2 ==> style == CursorVisualStyle::Underline,
            code == 3 ==> style == CursorVisualStyle::BlockHollow,
            !(1 <= code <= 3) ==> style == CursorVisualStyle::Bar,
    {
        if code == GHOSTTY_RENDER_STATE_CURSOR_VISUAL_STYLE_BLOCK {
            CursorVisualStyle::Block
        } else if code == GHOSTTY_RENDER_STATE_CURSOR_VISUAL_STYLE_UNDERLINE {
            CursorVisualStyle::Underline
        } else if code == GHOSTTY_RENDER_STATE_CURSOR_VISUAL_STYLE_BLOCK_HOLLOW {
            CursorVisualStyle::BlockHollow
        } else {
            CursorVisualStyle::Bar
        }
    }
}

/// How much of a render state changed since it was last drawn.
#[derive(Clone, Copy, Debug, PartialEq, Eq, Structural)]
pub enum DirtyState {
    Clean,
    Partial,
    Full,
}

/// The dirty state that an engine dirty code denotes; unknown codes are clean.
pub open spec fn dirty_state_of(code: u32) -> DirtyState {
    if code == GHOSTTY_RENDER_STATE_DIRTY_PARTIAL {
        DirtyState::Partial
    } else if code == GHOSTTY_RENDER_STATE_DIRTY_FULL {
        DirtyState::Full
    } else {
        DirtyState::Clean
    }
}

impl DirtyState {
    /// The state that an engine dirty code denotes; unknown codes are clean.
    pub fn from_raw(code: u32) -> (state: Self)
        ensures
            state == dirty_state_of(code),
            code == 1 ==> state == DirtyState::Partial,
            code == 2 ==> state == DirtyState::Full,
            !(1 <= code <= 2) ==> state == DirtyState::Clean,
    {
        if code == GHOSTTY_RENDER_STATE_DIRTY_PARTIAL {
            DirtyState::Partial
        } else if code == GHOSTTY_RENDER_STATE_DIRTY_FULL {
            DirtyState::Full
        } else {
            DirtyState::Clean
        }
    }
}

/// Where and how the cursor is drawn.
#[derive(Clone, Copy, Debug)]
pub struct CursorInfo {
    pub x: u16,
    pub y: u16,
    pub style: CursorVisualStyle,
    pub visible: bool,
    pub blinking: bool,
    pub in_viewport: bool,
}

/// The engine's answers about the cursor, as a cursor read collects them.
#[derive(Clone, Copy, Debug)]
pub struct CursorReadings {
    pub in_viewport: bool,
    pub x: u16,
    pub y: u16,
    pub style: u32,
    pub visible: bool,
    pub blinking: bool,
}

impl CursorReadings {
    /// What a cursor read starts from, and what stands where the engine does
    /// not answer: not in the viewport, at (0, 0), a bar, visible, not blinking.
    pub fn initial() -> (r: Self)
        ensures
            !r.in_viewport,
            r.x == 0,
            r.y == 0,
            r.style == GHOSTTY_RENDER_STATE_CURSOR_VISUAL_STYLE_BAR,
            r.visible,
            !r.blinking,
    {
        CursorReadings {
            in_viewport: false,
            x: 0,
            y: 0,
            style: GHOSTTY_RENDER_STATE_CURSOR_VISUAL_STYLE_BAR,
            visible: true,
            blinking: false,
        }
    }
}

/// The cursor that the engine's raw answers describe: the position counts only
/// when the cursor is in the viewport, and is (0, 0) otherwise.
pub open spec fn cursor_info_of(
    in_viewport: bool,
    x: u16,
    y: u16,
    style: u32,
    visible: bool,
    blinking: bool,
) -> CursorInfo {
    CursorInfo {
        x: if in_viewport { x } else { 0 },
        y: if in_viewport { y } else { 0 },
        style: cursor_style_of(style),
        visible,
        blinking,
        in_viewport,
    }
}

/// What the cursor's description keeps of the engine's answers: whether it is
/// in the viewport, whether it is visible and whether it blinks are exactly the
/// engine's flags, whatever the other answers; the position is the engine's
/// inside the viewport and (0, 0) outside; the style codes 1, 2 and 3 are a
/// block, an underline and a hollow block, and every other code a bar.
pub proof fn lemma_cursor_info_of(
    in_viewport: bool,
    x: u16,
    y: u16,
    style: u32,
    visible: bool,
    blinking: bool,
)
    ensures
        cursor_info_of(in_viewport, x, y, style, visible, blinking).in_viewport == in_viewport,
        cursor_info_of(in_viewport, x, y, style, visible, blinking).visible == visible,
        cursor_info_of(in_viewport, x, y, style, visible, blinking).blinking == blinking,
        in_viewport ==> cursor_info_of(in_viewport, x, y, style, visible, blinking).x == x
            && cursor_info_of(in_viewport, x, y, style, visible, blinking).y == y,
        !in_viewport ==> cursor_info_of(in_viewport, x, y, style, visible, blinking).x == 0
            && cursor_info_of(in_viewport, x, y, style, visible, blinking).y == 0,
        style == 1 ==> cursor_info_of(in_viewport, x, y, style, visible, blinking).style
            == CursorVisualStyle::Block,
        style == 2 ==> cursor_info_of(in_viewport, x, y, style, visible, blinking).style
            == CursorVisualStyle::Underline,
        style == 3 ==> cursor_info_of(in_viewport, x, y, style, visible, blinking).style
            == CursorVisualStyle::BlockHollow,
        !(1 <= style <= 3) ==> cursor_info_of(in_viewport, x, y, style, visible, blinking).style
            == CursorVisualStyle::Bar,
{
}

impl CursorInfo {
    /// Assembles the cursor from what the engine reports. The position counts
    /// only when the cursor is in the viewport; otherwise it is (0, 0).
    pub fn from_raw(
        in_viewport: bool,
        x: u16,
        y: u16,
        style: u32,
        visible: bool,
        blinking: bool,
    ) -> (info: Self)
        ensures
            info == cursor_info_of(in_viewport, x, y, style, visible, blinking),
            info.in_viewport == in_viewport,
            info.visible == visible,
            info.blinking == blinking,
            in_viewport ==> info.x == x && info.y == y,
            !in_viewport ==> info.x == 0 && info.y == 0,
            info.style == cursor_style_of(style),
    {
        proof {
            lemma_cursor_info_of(in_viewport, x, y, style, visible, blinking);
        }
        let (px, py) = if in_viewport { (x, y) } else { (0u16, 0u16) };
        CursorInfo {
            x: px,
            y: py,
            style: CursorVisualStyle::from_raw(style),
            visible,
            blinking,
            in_viewport,
        }
    }
}

/// The RGB color that a style color denotes: only RGB-tagged colors have one.
pub open spec fn style_color_rgb(sc: GhosttyStyleColor) -> Option<Rgb> {
    if sc.tag == GHOSTTY_STYLE_COLOR_RGB {
        Some(Rgb { r: sc.value.bytes[0], g: sc.value.bytes[1], b: sc.value.bytes[2] })
    } else {
        None
    }
}

/// The RGB color of a style color; palette and unset colors give `None`.
pub fn style_color_to_rgb(sc: &GhosttyStyleColor) -> (c: Option<Rgb>)
    ensures
        c == style_color_rgb(*sc),
        sc.tag == 2 ==> c == Some(Rgb { r: sc.value.bytes[0], g: sc.value.bytes[1], b: sc.value.bytes[2] }),
        sc.tag != 2 ==> c is None,
{
    if sc.tag == GHOSTTY_STYLE_COLOR_RGB {
        Some(Rgb::from(sc.value.rgb()))
    } else {
        None
    }
}

/// The style of a cell.
#[derive(Clone, Debug)]
pub struct CellStyle {
    pub bold: bool,
    pub italic: bool,
    pub faint: bool,
    pub blink: bool,
    pub inverse: bool,
    pub invisible: bool,
    pub strikethrough: bool,
    pub overline: bool,
    pub underline: i32,
    pub fg_color: Option<Rgb>,
    pub bg_color: Option<Rgb>,
    pub underline_color: Option<Rgb>,
}

impl CellStyle {
    /// The cell style that an engine style describes.
    pub fn from_raw(s: &GhosttyStyle) -> (style: Self)
        ensures
            style.bold == s.bold,
            style.italic == s.italic,
            style.faint == s.faint,
            style.blink == s.blink,
            style.inverse == s.inverse,
            style.invisible == s.invisible,
            style.strikethrough == s.strikethrough,
            style.overline == s.overline,
            style.underline == s.underline,
            style.fg_color == style_color_rgb(s.fg_color),
            style.bg_color == style_color_rgb(s.bg_color),
            style.underline_color == style_color_rgb(s.underline_color),
    {
        CellStyle {
            bold: s.bold,
            italic: s.italic,
            faint: s.faint,
            blink: s.blink,
            inverse: s.inverse,
            invisible: s.invisible,
            strikethrough: s.strikethrough,
            overline: s.overline,
            underline: s.underline,
            fg_color: style_color_to_rgb(&s.fg_color),
            bg_color: style_color_to_rgb(&s.bg_color),
            underline_color: style_color_to_rgb(&s.underline_color),
        }
    }
}

/// The colors of a render state.
#[derive(Clone, Copy, Debug, PartialEq, Eq)]
pub struct RenderStateColors {
    pub background: Rgb,
    pub foreground: Rgb,
    pub cursor: Option<Rgb>,
    pub palette: [Rgb; 256],
}

impl RenderStateColors {
    /// The colors that the engine reports; the cursor color counts only when the
    /// engine says that it has one.
    pub fn from_raw(raw: &GhosttyRenderStateColors) -> (colors: Self)
        ensures
            colors.background == rgb_of(raw.background),
            colors.foreground == rgb_of(raw.foreground),
            colors.cursor == (if raw.cursor_has_value { Some(rgb_of(raw.cursor)) } else { None }),
            forall|i: int| 0 <= i < 256 ==> colors.palette[i] == rgb_of(#[trigger] raw.palette[i]),
            forall|i: int|
                0 <= i < 256 ==> colors.palette[i].r == (#[trigger] raw.palette[i]).r && colors.palette[i].g
                    == raw.palette[i].g && colors.palette[i].b == raw.palette[i].b,
            colors.background.r == raw.background.r && colors.background.g == raw.background.g
                && colors.background.b == raw.background.b,
            colors.foreground.r == raw.foreground.r && colors.foreground.g == raw.foreground.g
                && colors.foreground.b == raw.foreground.b,
            raw.cursor_has_value ==> colors.cursor == Some(Rgb { r: raw.cursor.r, g: raw.cursor.g, b: raw.cursor.b }),
            !raw.cursor_has_value ==> colors.cursor is None,
    {
        let mut palette = [Rgb { r: 0, g: 0, b: 0 }; 256];
        let mut i: usize = 0;
        while i < 256
            invariant
                i <= 256,
                forall|j: int| 0 <= j < i ==> palette[j] == rgb_of(#[trigger] raw.palette[j]),
            decreases 256 - i,
        {
            palette.set(i, Rgb::from(raw.palette[i]));
            i = i + 1;
        }
        let cursor = if raw.cursor_has_value { Some(Rgb::from(raw.cursor)) } else { None };
        RenderStateColors {
            background: Rgb::from(raw.background),
            foreground: Rgb::from(raw.foreground),
            cursor,
            palette,
        }
    }
}

/// The color of a cell as the engine reports it: present only when the query succeeded.
pub fn cell_color(result: GhosttyResult, val: GhosttyColorRgb) -> (c: Option<Rgb>)
    ensures
        c == (if result == GHOSTTY_SUCCESS { Some(rgb_of(val)) } else { None }),
        result == 0 ==> c == Some(Rgb { r: val.r, g: val.g, b: val.b }),
        result != 0 ==> c is None,
{
    if result == GHOSTTY_SUCCESS {
        Some(Rgb::from(val))
    } else {
        None
    }
}

/// The bytes an encoder produced: the first `written` bytes of its buffer, or
/// `None` when it failed or wrote nothing.
pub fn encoded_bytes(result: GhosttyResult, buf: &[u8], written: usize) -> (out: Option<Vec<u8>>)
    requires
        result == GHOSTTY_SUCCESS && written > 0 ==> written <= buf@.len(),
    ensures
        out is Some <==> (result == GHOSTTY_SUCCESS && written > 0),
        out matches Some(v) ==> v@ == buf@.subrange(0, written as int),
{
    if result != GHOSTTY_SUCCESS || written == 0 {
        return None;
    }
    let mut v: Vec<u8> = Vec::with_capacity(written);
    let mut i: usize = 0;
    while i < written
        invariant
            i <= written,
            written <= buf@.len(),
            v@ == buf@.subrange(0, i as int),
        decreases written - i,
    {
        v.push(buf[i]);
        i = i + 1;
    }
    Some(v)
}

/// The focus event that a change of focus reports.
pub fn focus_event(focused: bool) -> (event: GhosttyFocusEvent)
    ensures
        event == (if focused { GHOSTTY_FOCUS_GAINED } else { GHOSTTY_FOCUS_LOST }),
{
    if focused {
        GHOSTTY_FOCUS_GAINED
    } else {
        GHOSTTY_FOCUS_LOST
    }
}

/// What `String::from_utf8_lossy` makes of a byte sequence.
pub uninterp spec fn utf8_lossy(bytes: Seq<u8>) -> Seq<char>;

/// Calls `String::from_utf8_lossy` and takes the text it returns. Its
/// documentation says that it decodes the bytes as UTF-8 and puts U+FFFD in
/// place of each invalid sequence; claimed here: the text is `utf8_lossy` of
/// the bytes, for valid UTF-8 it is the decoded text, and it is empty only
/// for empty bytes (each byte is decoded or replaced). How invalid sequences
/// are split into replacement characters is left unsaid.
#[verifier::external_body]
fn string_from_utf8_lossy(bytes: &[u8]) -> (s: String)
    ensures
        s@ == utf8_lossy(bytes@),
        valid_utf8(bytes@) ==> s@ == decode_utf8(bytes@),
        bytes@.len() > 0 ==> s@.len() > 0,
{
    String::from_utf8_lossy(bytes).into_owned()
}

/// The terminal title from the engine's answer: none when the query failed or
/// the title is absent or empty; otherwise its bytes decoded as UTF-8, with
/// invalid sequences replaced.
pub fn title_from_raw(result: GhosttyResult, text: Option<&[u8]>) -> (title: Option<String>)
    ensures
        title is Some <==> (result == GHOSTTY_SUCCESS && text is Some && text.unwrap()@.len() > 0),
        title matches Some(s) ==> s@ == utf8_lossy(text.unwrap()@),
        title matches Some(s) ==> s@.len() > 0,
        title matches Some(s) ==> (valid_utf8(text.unwrap()@) ==> s@ == decode_utf8(text.unwrap()@)),
{
    if result != GHOSTTY_SUCCESS {
        return None;
    }
    match text {
        None => None,
        Some(bytes) => {
            if bytes.len() == 0 {
                None
            } else {
                Some(string_from_utf8_lossy(bytes))
            }
        },
    }
}

/// Makes room for a cell's grapheme code points: a cell with none leaves the
/// buffer as it was; otherwise the buffer is resized to `len` entries (new
/// entries zero). Returns how many code points the cell has.
pub fn size_grapheme_buffer(buf: &mut Vec<u32>, len: u32) -> (n: usize)
    ensures
        n == len,
        len == 0 ==> final(buf)@ == old(buf)@,
        len > 0 ==> final(buf)@.len() == len,
        len > 0 && len <= old(buf)@.len() ==> final(buf)@ == old(buf)@.subrange(0, len as int),
        len > old(buf)@.len() ==> final(buf)@.subrange(0, old(buf)@.len() as int) == old(buf)@,
        len > old(buf)@.len() ==> forall|i: int| old(buf)@.len() <= i < len ==> final(buf)@[i] == 0,
{
    if len == 0 {
        return 0;
    }
    buf.resize(len as usize, 0);
    len as usize
}

/// The character a code point denotes, when it is a Unicode scalar value.
pub open spec fn char_of(cp: u32) -> Option<char> {
    if is_scalar(cp) {
        Some(cp as char)
    } else {
        None
    }
}

/// Calls `char::from_u32`, which the standard library documents as returning
/// the `char` with that value, or `None` when the value is not a `char` (above
/// U+10FFFF or a surrogate); claimed here: exactly `char_of`.
#[verifier::external_body]
fn char_from_u32(cp: u32) -> (c: Option<char>)
    ensures
        c == char_of(cp),
{
    char::from_u32(cp)
}

/// The character shown for a code point of a cell: the code point's character,
/// or a space for a value that is not a character.
pub open spec fn shown_char(cp: u32) -> char {
    match char_of(cp) {
        Some(c) => c,
        None => ' ',
    }
}

/// A code point that is a Unicode scalar value is shown as that very
/// character; only values that are not characters (surrogates, values above
/// U+10FFFF) are shown as a space.
pub proof fn lemma_shown_char(cp: u32)
    ensures
        is_scalar(cp) ==> shown_char(cp) == cp as char,
        !is_scalar(cp) ==> shown_char(cp) == ' ',
{
}

/// The text a screen dump shows for a cell: a space for an empty cell, and
/// otherwise one character for each code point.
pub fn cell_text(codepoints: &[u32]) -> (text: Vec<char>)
    ensures
        codepoints@.len() == 0 ==> text@ == seq![' '],
        codepoints@.len() > 0 ==> text@.len() == codepoints@.len(),
        codepoints@.len() > 0 ==> forall|i: int| 0 <= i < codepoints@.len() ==> text@[i] == shown_char(
            #[trigger] codepoints@[i],
        ),
        codepoints@.len() > 0 ==> forall|i: int|
            0 <= i < codepoints@.len() ==> (is_scalar(#[trigger] codepoints@[i]) ==> text@[i]
                == codepoints@[i] as char),
        codepoints@.len() > 0 ==> forall|i: int|
            0 <= i < codepoints@.len() ==> (!is_scalar(#[trigger] codepoints@[i]) ==> text@[i] == ' '),
{
    let mut text: Vec<char> = Vec::new();
    if codepoints.len() == 0 {
        text.push(' ');
        return text;
    }
    let mut i: usize = 0;
    while i < codepoints.len()
        invariant
            i <= codepoints@.len(),
            text@.len() == i,
            forall|j: int| 0 <= j < i ==> text@[j] == shown_char(#[trigger] codepoints@[j]),
        decreases codepoints@.len() - i,
    {
        let c = match char_from_u32(codepoints[i]) {
            Some(c) => c,
            None => ' ',
        };
        text.push(c);
        i = i + 1;
    }
    text
}

} // verus!
