use ghostty_vt::config::{TerminalConfig, TerminalTheme};
use ghostty_vt::vt::Rgb;

fn ansi_colors(base: u8) -> [Rgb; 16] {
    let mut colors = [Rgb { r: 0, g: 0, b: 0 }; 16];
    for (i, c) in colors.iter_mut().enumerate() {
        *c = Rgb { r: base + i as u8, g: i as u8, b: 0 };
    }
    colors
}

#[test]
fn default_theme_overrides_nothing() {
    let theme = TerminalTheme::default();
    assert!(theme.foreground.is_none());
    assert!(theme.background.is_none());
    assert!(theme.cursor.is_none());
    assert!(theme.selection_background.is_none());
    assert!(theme.selection_foreground.is_none());
    assert!(theme.palette.iter().all(|c| c.is_none()));
}

#[test]
fn ansi_palette_sets_first_sixteen() {
    let mut theme = TerminalTheme::default();
    theme.foreground = Some(Rgb { r: 1, g: 1, b: 1 });
    theme.palette[200] = Some(Rgb { r: 2, g: 2, b: 2 });
    let colors = ansi_colors(100);
    let themed = theme.with_ansi_palette(colors);
    for i in 0..16 {
        assert_eq!(themed.palette[i], Some(colors[i]));
    }
    assert!(themed.palette[16].is_none());
    assert_eq!(themed.palette[200], Some(Rgb { r: 2, g: 2, b: 2 }));
    assert_eq!(themed.foreground, Some(Rgb { r: 1, g: 1, b: 1 }));
    assert!(themed.background.is_none());
}

#[test]
fn ansi_palette_last_setting_wins() {
    let theme = TerminalTheme::default();
    let twice = theme.with_ansi_palette(ansi_colors(10)).with_ansi_palette(ansi_colors(50));
    let direct = theme.with_ansi_palette(ansi_colors(50));
    assert_eq!(twice.palette, direct.palette);
}

#[test]
fn default_config() {
    let config = TerminalConfig::default();
    assert_eq!((config.cols, config.rows), (80, 24));
    assert_eq!(config.default_fg, Rgb { r: 0xFF, g: 0xFF, b: 0xFF });
    assert_eq!(config.default_bg, Rgb { r: 0, g: 0, b: 0 });
    assert!(config.update_window_title);
    assert!(config.theme.palette.iter().all(|c| c.is_none()));
}
