use ghostty_vt::sys::{
    GhosttyColorRgb, GhosttyRenderStateColors, GhosttyStyle, GhosttyStyleColor,
    GhosttyStyleColorValue, GhosttyTerminalScrollViewport, GhosttyTerminalScrollbar, GHOSTTY_FOCUS_GAINED,
    GHOSTTY_FOCUS_LOST, GHOSTTY_INVALID_VALUE, GHOSTTY_OUT_OF_MEMORY, GHOSTTY_OUT_OF_SPACE,
    GHOSTTY_SCROLL_VIEWPORT_BOTTOM, GHOSTTY_SCROLL_VIEWPORT_DELTA, GHOSTTY_SCROLL_VIEWPORT_TOP,
    GHOSTTY_STYLE_COLOR_NONE, GHOSTTY_STYLE_COLOR_PALETTE, GHOSTTY_STYLE_COLOR_RGB,
    GHOSTTY_SUCCESS,
};
use ghostty_vt::vt::{
    cell_text, size_grapheme_buffer, CursorReadings,
    cell_color, check, creation_status, encoded_bytes, focus_event, mode_new, style_color_to_rgb,
    title_from_raw, CellStyle, CursorInfo, CursorVisualStyle, DirtyState, Error, RenderStateColors,
    Rgb,
};

fn rgb_value(r: u8, g: u8, b: u8) -> GhosttyStyleColorValue {
    GhosttyStyleColorValue { bytes: [r, g, b, 0, 0, 0, 0, 0] }
}

#[test]
fn mode_new_packs_number_and_flag() {
    assert_eq!(mode_new(2004, false), 2004);
    assert_eq!(mode_new(1006, false), 1006);
    assert_eq!(mode_new(4, true), 0x8004);
    assert_eq!(mode_new(0xFFFF, false), 0x7FFF);
    assert_eq!(mode_new(0xFFFF, true), 0xFFFF);
    assert_eq!(mode_new(0, true), 0x8000);
}

#[test]
fn check_maps_result_codes() {
    assert!(check(GHOSTTY_SUCCESS).is_ok());
    assert!(matches!(check(GHOSTTY_OUT_OF_MEMORY), Err(Error::OutOfMemory)));
    assert!(matches!(check(GHOSTTY_INVALID_VALUE), Err(Error::InvalidValue)));
    assert!(matches!(check(GHOSTTY_OUT_OF_SPACE), Err(Error::InvalidValue)));
    assert!(matches!(check(7), Err(Error::InvalidValue)));
}

#[test]
fn creation_status_needs_success_and_object() {
    assert!(creation_status(GHOSTTY_SUCCESS, true).is_ok());
    assert!(matches!(creation_status(GHOSTTY_SUCCESS, false), Err(Error::CreateFailed)));
    assert!(matches!(creation_status(GHOSTTY_OUT_OF_MEMORY, true), Err(Error::OutOfMemory)));
    assert!(matches!(creation_status(GHOSTTY_INVALID_VALUE, false), Err(Error::InvalidValue)));
}

#[test]
fn error_messages() {
    assert_eq!(Error::CreateFailed.to_string(), "terminal create failed");
    assert_eq!(Error::OutOfMemory.to_string(), "out of memory");
    assert_eq!(Error::InvalidValue.to_string(), "invalid value");
}

#[test]
fn rgb_from_engine_color() {
    let c = Rgb::from(GhosttyColorRgb { r: 1, g: 2, b: 3 });
    assert_eq!(c, Rgb { r: 1, g: 2, b: 3 });
}

#[test]
fn cursor_style_codes() {
    assert_eq!(CursorVisualStyle::from_raw(0), CursorVisualStyle::Bar);
    assert_eq!(CursorVisualStyle::from_raw(1), CursorVisualStyle::Block);
    assert_eq!(CursorVisualStyle::from_raw(2), CursorVisualStyle::Underline);
    assert_eq!(CursorVisualStyle::from_raw(3), CursorVisualStyle::BlockHollow);
    assert_eq!(CursorVisualStyle::from_raw(99), CursorVisualStyle::Bar);
}

#[test]
fn dirty_state_codes() {
    assert_eq!(DirtyState::from_raw(0), DirtyState::Clean);
    assert_eq!(DirtyState::from_raw(1), DirtyState::Partial);
    assert_eq!(DirtyState::from_raw(2), DirtyState::Full);
    assert_eq!(DirtyState::from_raw(7), DirtyState::Clean);
}

#[test]
fn cursor_info_position_only_in_viewport() {
    let inside = CursorInfo::from_raw(true, 5, 7, 1, true, false);
    assert_eq!((inside.x, inside.y), (5, 7));
    assert!(inside.in_viewport);
    assert_eq!(inside.style, CursorVisualStyle::Block);
    assert!(inside.visible);
    assert!(!inside.blinking);
    let outside = CursorInfo::from_raw(false, 5, 7, 3, false, true);
    assert_eq!((outside.x, outside.y), (0, 0));
    assert!(!outside.in_viewport);
    assert_eq!(outside.style, CursorVisualStyle::BlockHollow);
    assert!(outside.blinking);
}

#[test]
fn style_colors_only_rgb_has_color() {
    let rgb = GhosttyStyleColor { tag: GHOSTTY_STYLE_COLOR_RGB, value: rgb_value(10, 20, 30) };
    assert_eq!(style_color_to_rgb(&rgb), Some(Rgb { r: 10, g: 20, b: 30 }));
    let palette = GhosttyStyleColor { tag: GHOSTTY_STYLE_COLOR_PALETTE, value: rgb_value(4, 0, 0) };
    assert_eq!(style_color_to_rgb(&palette), None);
    assert_eq!(palette.value.palette(), 4);
    let none = GhosttyStyleColor { tag: GHOSTTY_STYLE_COLOR_NONE, value: GhosttyStyleColorValue::zeroed() };
    assert_eq!(style_color_to_rgb(&none), None);
}

#[test]
fn cell_style_from_engine_style() {
    let s = GhosttyStyle {
        size: 0,
        fg_color: GhosttyStyleColor { tag: GHOSTTY_STYLE_COLOR_RGB, value: rgb_value(1, 2, 3) },
        bg_color: GhosttyStyleColor { tag: GHOSTTY_STYLE_COLOR_PALETTE, value: rgb_value(9, 0, 0) },
        underline_color: GhosttyStyleColor { tag: GHOSTTY_STYLE_COLOR_RGB, value: rgb_value(7, 8, 9) },
        bold: true,
        italic: false,
        faint: true,
        blink: false,
        inverse: true,
        invisible: false,
        strikethrough: true,
        overline: false,
        underline: 2,
    };
    let c = CellStyle::from_raw(&s);
    assert!(c.bold && !c.italic && c.faint && !c.blink && c.inverse && !c.invisible);
    assert!(c.strikethrough && !c.overline);
    assert_eq!(c.underline, 2);
    assert_eq!(c.fg_color, Some(Rgb { r: 1, g: 2, b: 3 }));
    assert_eq!(c.bg_color, None);
    assert_eq!(c.underline_color, Some(Rgb { r: 7, g: 8, b: 9 }));
}

#[test]
fn render_state_colors_from_engine() {
    let mut palette = [GhosttyColorRgb { r: 0, g: 0, b: 0 }; 256];
    for (i, p) in palette.iter_mut().enumerate() {
        *p = GhosttyColorRgb { r: i as u8, g: 255 - i as u8, b: 1 };
    }
    let raw = GhosttyRenderStateColors {
        size: 0,
        background: GhosttyColorRgb { r: 0, g: 0, b: 0 },
        foreground: GhosttyColorRgb { r: 255, g: 255, b: 255 },
        cursor: GhosttyColorRgb { r: 9, g: 9, b: 9 },
        cursor_has_value: false,
        palette,
    };
    let colors = RenderStateColors::from_raw(&raw);
    assert_eq!(colors.background, Rgb { r: 0, g: 0, b: 0 });
    assert_eq!(colors.foreground, Rgb { r: 255, g: 255, b: 255 });
    assert_eq!(colors.cursor, None);
    assert_eq!(colors.palette[0], Rgb { r: 0, g: 255, b: 1 });
    assert_eq!(colors.palette[200], Rgb { r: 200, g: 55, b: 1 });
    assert_eq!(colors.palette[255], Rgb { r: 255, g: 0, b: 1 });
    let with_cursor = RenderStateColors::from_raw(&GhosttyRenderStateColors { cursor_has_value: true, ..raw });
    assert_eq!(with_cursor.cursor, Some(Rgb { r: 9, g: 9, b: 9 }));
}

#[test]
fn cell_color_needs_success() {
    let c = GhosttyColorRgb { r: 3, g: 4, b: 5 };
    assert_eq!(cell_color(GHOSTTY_SUCCESS, c), Some(Rgb { r: 3, g: 4, b: 5 }));
    assert_eq!(cell_color(GHOSTTY_INVALID_VALUE, c), None);
}

#[test]
fn encoded_bytes_prefix() {
    let buf = [0x1b, b'[', b'A', 0, 0, 0];
    assert_eq!(encoded_bytes(GHOSTTY_SUCCESS, &buf, 3), Some(vec![0x1b, b'[', b'A']));
    assert_eq!(encoded_bytes(GHOSTTY_SUCCESS, &buf, 0), None);
    assert_eq!(encoded_bytes(GHOSTTY_OUT_OF_SPACE, &buf, 3), None);
    assert_eq!(encoded_bytes(GHOSTTY_SUCCESS, &buf, 6), Some(buf.to_vec()));
}

#[test]
fn focus_events() {
    assert_eq!(focus_event(true), GHOSTTY_FOCUS_GAINED);
    assert_eq!(focus_event(false), GHOSTTY_FOCUS_LOST);
}

#[test]
fn title_decoding() {
    assert_eq!(title_from_raw(GHOSTTY_SUCCESS, Some(b"vim main.rs")), Some("vim main.rs".to_string()));
    assert_eq!(title_from_raw(GHOSTTY_SUCCESS, Some("héllo".as_bytes())), Some("héllo".to_string()));
    assert_eq!(title_from_raw(GHOSTTY_SUCCESS, Some(&[b'a', 0xFF, b'b'])), Some("a\u{FFFD}b".to_string()));
    assert_eq!(title_from_raw(GHOSTTY_SUCCESS, Some(b"")), None);
    assert_eq!(title_from_raw(GHOSTTY_SUCCESS, None), None);
    assert_eq!(title_from_raw(GHOSTTY_INVALID_VALUE, Some(b"x")), None);
}

#[test]
fn scroll_viewport_requests() {
    let top = GhosttyTerminalScrollViewport::top();
    assert_eq!((top.tag, top.value), (GHOSTTY_SCROLL_VIEWPORT_TOP, [0, 0]));
    let bottom = GhosttyTerminalScrollViewport::bottom();
    assert_eq!((bottom.tag, bottom.value), (GHOSTTY_SCROLL_VIEWPORT_BOTTOM, [0, 0]));
    let up = GhosttyTerminalScrollViewport::delta(-3);
    assert_eq!((up.tag, up.value), (GHOSTTY_SCROLL_VIEWPORT_DELTA, [u64::MAX - 2, 0]));
    assert_eq!(up.value[0] as i64, -3);
    let down = GhosttyTerminalScrollViewport::delta(5);
    assert_eq!(down.value, [5, 0]);
}

#[test]
fn style_color_value_views() {
    let v = rgb_value(0x11, 0x22, 0x33);
    let c = v.rgb();
    assert_eq!((c.r, c.g, c.b), (0x11, 0x22, 0x33));
    assert_eq!(v.palette(), 0x11);
    assert_eq!(GhosttyStyleColorValue::zeroed().bytes, [0; 8]);
}

#[test]
fn mode_new_keeps_only_number_and_flag() {
    assert_eq!(mode_new(0x8001, false), mode_new(1, false));
    assert_ne!(mode_new(1, false), mode_new(1, true));
    assert_ne!(mode_new(1, true), mode_new(2, true));
}

#[test]
fn read_defaults() {
    let black = GhosttyColorRgb::black();
    assert_eq!((black.r, black.g, black.b), (0, 0, 0));
    let white = GhosttyColorRgb::white();
    assert_eq!((white.r, white.g, white.b), (255, 255, 255));
    let sb = GhosttyTerminalScrollbar::zero();
    assert_eq!((sb.total, sb.offset, sb.len), (0, 0, 0));
    let r = CursorReadings::initial();
    assert!(!r.in_viewport && r.visible && !r.blinking);
    assert_eq!((r.x, r.y, r.style), (0, 0, 0));
    let info = CursorInfo::from_raw(r.in_viewport, r.x, r.y, r.style, r.visible, r.blinking);
    assert_eq!(info.style, CursorVisualStyle::Bar);
    let style = CellStyle::from_raw(&GhosttyStyle::unset(40));
    assert!(!style.bold && !style.italic && !style.faint && !style.blink);
    assert!(!style.inverse && !style.invisible && !style.strikethrough && !style.overline);
    assert_eq!(style.underline, 0);
    assert_eq!((style.fg_color, style.bg_color, style.underline_color), (None, None, None));
    assert_eq!(GhosttyStyle::unset(40).size, 40);
    let colors = GhosttyRenderStateColors::initial(12);
    assert_eq!(colors.size, 12);
    let c = RenderStateColors::from_raw(&colors);
    assert_eq!(c.background, Rgb { r: 0, g: 0, b: 0 });
    assert_eq!(c.foreground, Rgb { r: 255, g: 255, b: 255 });
    assert_eq!(c.cursor, None);
    assert!(c.palette.iter().all(|p| *p == Rgb { r: 0, g: 0, b: 0 }));
}

#[test]
fn grapheme_buffer_sizing() {
    let mut buf = vec![7u32, 8, 9];
    assert_eq!(size_grapheme_buffer(&mut buf, 0), 0);
    assert_eq!(buf, vec![7, 8, 9]);
    assert_eq!(size_grapheme_buffer(&mut buf, 2), 2);
    assert_eq!(buf, vec![7, 8]);
    assert_eq!(size_grapheme_buffer(&mut buf, 4), 4);
    assert_eq!(buf, vec![7, 8, 0, 0]);
}

#[test]
fn cell_text_for_dump() {
    assert_eq!(cell_text(&[]), vec![' ']);
    assert_eq!(cell_text(&['a' as u32]), vec!['a']);
    assert_eq!(cell_text(&['e' as u32, 0x301]), vec!['e', '\u{301}']);
    assert_eq!(cell_text(&[0xD800, 0x110000, 0x1F600]), vec![' ', ' ', '\u{1F600}']);
}

#[test]
fn title_is_never_empty() {
    assert_eq!(title_from_raw(GHOSTTY_SUCCESS, Some(&[0xC3])), Some("\u{FFFD}".to_string()));
}

#[test]
fn encoded_bytes_failure_ignores_written() {
    let buf = [1u8, 2, 3];
    assert_eq!(encoded_bytes(GHOSTTY_OUT_OF_SPACE, &buf, 300), None);
    assert_eq!(encoded_bytes(GHOSTTY_INVALID_VALUE, &buf, 4), None);
}
