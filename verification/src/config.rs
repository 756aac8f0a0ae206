//! Configuration of a terminal view: its size, its default colors and a theme
//! that may override colors of the engine.

use vstd::prelude::*;

use crate::vt::Rgb;

verus! {

/// Colors that override those of the engine; `None` keeps the engine's own.
#[derive(Clone, Copy, Debug)]
pub struct TerminalTheme {
    pub foreground: Option<Rgb>,
    pub background: Option<Rgb>,
    pub cursor: Option<Rgb>,
    pub selection_background: Option<Rgb>,
    pub selection_foreground: Option<Rgb>,
    pub palette: [Option<Rgb>; 256],
}

impl TerminalTheme {
    /// Whether the theme overrides no color at all.
    pub open spec fn overrides_nothing(self) -> bool {
        &&& self.foreground is None
        &&& self.background is None
        &&& self.cursor is None
        &&& self.selection_background is None
        &&& self.selection_foreground is None
        &&& forall|i: int| 0 <= i < 256 ==> self.palette[i] is None
    }
}

impl Default for TerminalTheme {
    /// The theme that overrides nothing.
    fn default() -> (theme: Self)
        ensures
            theme.overrides_nothing(),
    {
        let palette: [Option<Rgb>; 256] = vstd::array::array_fill_for_copy_types(None);
        TerminalTheme {
            foreground: None,
            background: None,
            cursor: None,
            selection_background: None,
            selection_foreground: None,
            palette,
        }
    }
}

/// Whether `result` is `theme` with its sixteen ANSI colors set to `colors`.
pub open spec fn with_ansi_colors(theme: TerminalTheme, colors: [Rgb; 16], result: TerminalTheme) -> bool {
    &&& forall|i: int| 0 <= i < 16 ==> result.palette[i] == Some(#[trigger] colors[i])
    &&& forall|i: int| 16 <= i < 256 ==> result.palette[i] == theme.palette[i]
    &&& result.foreground == theme.foreground
    &&& result.background == theme.background
    &&& result.cursor == theme.cursor
    &&& result.selection_background == theme.selection_background
    &&& result.selection_foreground == theme.selection_foreground
}

/// Setting the ANSI colors has one outcome, and setting them again replaces
/// the first setting entirely: the theme is as if only the second had been made.
pub proof fn lemma_ansi_palette_last_wins(
    theme: TerminalTheme,
    first: [Rgb; 16],
    second: [Rgb; 16],
    once: TerminalTheme,
    twice: TerminalTheme,
    direct: TerminalTheme,
)
    requires
        with_ansi_colors(theme, first, once),
        with_ansi_colors(once, second, twice),
        with_ansi_colors(theme, second, direct),
    ensures
        twice == direct,
{
    broadcast use vstd::array::axiom_array_ext_equal;

    assert forall|i: int| 0 <= i < 256 implies twice.palette[i] == direct.palette[i] by {
        if i < 16 {
            assert(twice.palette[i] == Some(second[i]));
            assert(direct.palette[i] == Some(second[i]));
        }
    }
    assert(twice.palette =~= direct.palette);
}

impl TerminalTheme {
    /// Sets the sixteen ANSI colors, the first sixteen palette entries, to
    /// `colors`; the rest of the theme is kept.
    pub fn with_ansi_palette(self, colors: [Rgb; 16]) -> (theme: Self)
        ensures
            with_ansi_colors(self, colors, theme),
    {
        let mut theme = self;
        let mut index: usize = 0;
        while index < 16
            invariant
                index <= 16,
                forall|i: int| 0 <= i < index ==> theme.palette[i] == Some(#[trigger] colors[i]),
                forall|i: int| index <= i < 256 ==> theme.palette[i] == self.palette[i],
                theme.foreground == self.foreground,
                theme.background == self.background,
                theme.cursor == self.cursor,
                theme.selection_background == self.selection_background,
                theme.selection_foreground == self.selection_foreground,
            decreases 16 - index,
        {
            theme.palette.set(index, Some(colors[index]));
            index = index + 1;
        }
        theme
    }
}

/// The configuration a terminal view starts with.
#[derive(Clone, Copy, Debug)]
pub struct TerminalConfig {
    pub cols: u16,
    pub rows: u16,
    pub default_fg: Rgb,
    pub default_bg: Rgb,
    pub theme: TerminalTheme,
    pub update_window_title: bool,
}

impl Default for TerminalConfig {
    /// An 80 by 24 terminal, white on black, with no theme overrides, that
    /// forwards title changes to the window.
    fn default() -> (config: Self)
        ensures
            config.cols == 80,
            config.rows == 24,
            config.default_fg == (Rgb { r: 0xFF, g: 0xFF, b: 0xFF }),
            config.default_bg == (Rgb { r: 0x00, g: 0x00, b: 0x00 }),
            config.theme.overrides_nothing(),
            config.update_window_title,
    {
        TerminalConfig {
            cols: 80,
            rows: 24,
            default_fg: Rgb { r: 0xFF, g: 0xFF, b: 0xFF },
            default_bg: Rgb { r: 0x00, g: 0x00, b: 0x00 },
            theme: TerminalTheme::default(),
            update_window_title: true,
        }
    }
}

} // verus!
