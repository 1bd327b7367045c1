//! Colors and text effects of the widget toolkit, and the terminal colors
//! they are drawn with.
use vstd::prelude::*;

verus! {

/// One of the eight base colors.
#[derive(Clone, Copy, Debug, PartialEq, Eq, Structural, Hash)]
pub enum BaseColor {
    Black,
    Red,
    Green,
    Yellow,
    Blue,
    Magenta,
    Cyan,
    White,
}

/// A color as the widget toolkit names it.
#[derive(Clone, Copy, Debug, PartialEq, Eq, Structural, Hash)]
pub enum Color {
    /// The terminal's own default color.
    TerminalDefault,
    /// One of the eight dark base colors.
    Dark(BaseColor),
    /// One of the eight light base colors.
    Light(BaseColor),
    /// True color.
    Rgb(u8, u8, u8),
    /// A color of the 6x6x6 cube; each component lies in `0..=5`.
    RgbLowRes(u8, u8, u8),
}

/// Foreground and background color.
#[derive(Clone, Copy, Debug, PartialEq, Eq, Structural, Hash)]
pub struct ColorPair {
    pub front: Color,
    pub back: Color,
}

/// A text effect.
#[derive(Clone, Copy, Debug, PartialEq, Eq, Structural, Hash)]
pub enum Effect {
    Simple,
    Reverse,
    Dim,
    Bold,
    Italic,
    Strikethrough,
    Underline,
    Blink,
}

/// A color as the terminal is told it: the default, a palette index, or RGB.
#[derive(Clone, Copy, Debug, PartialEq, Eq, Structural, Hash)]
pub enum TermColor {
    Reset,
    Ansi(u8),
    Rgb(u8, u8, u8),
}

impl Color {
    /// The components of a low-resolution color lie in the cube.
    pub open spec fn wf(self) -> bool {
        match self {
            Color::RgbLowRes(r, g, b) => r <= 5 && g <= 5 && b <= 5,
            _ => true,
        }
    }
}

impl ColorPair {
    pub open spec fn wf(self) -> bool {
        self.front.wf() && self.back.wf()
    }

    /// Both colors the same.
    pub fn uniform(color: Color) -> (r: ColorPair)
        ensures
            r == (ColorPair { front: color, back: color }),
    {
        ColorPair { front: color, back: color }
    }
}

/// Position of a base color in the palette's first eight entries.
pub open spec fn base_index(b: BaseColor) -> u8 {
    match b {
        BaseColor::Black => 0,
        BaseColor::Red => 1,
        BaseColor::Green => 2,
        BaseColor::Yellow => 3,
        BaseColor::Blue => 4,
        BaseColor::Magenta => 5,
        BaseColor::Cyan => 6,
        BaseColor::White => 7,
    }
}

/// The terminal color that draws `c`: dark colors are palette entries 0 to 7,
/// light ones 8 to 15, and the cube starts at entry 16.
pub open spec fn term_color(c: Color) -> TermColor
    recommends
        c.wf(),
{
    match c {
        Color::TerminalDefault => TermColor::Reset,
        Color::Dark(b) => TermColor::Ansi(base_index(b)),
        Color::Light(b) => TermColor::Ansi((8 + base_index(b)) as u8),
        Color::Rgb(r, g, b) => TermColor::Rgb(r, g, b),
        Color::RgbLowRes(r, g, b) => TermColor::Ansi((16 + 36 * r + 6 * g + b) as u8),
    }
}

fn base_color_index(b: BaseColor) -> (r: u8)
    ensures
        r == base_index(b),
{
    match b {
        BaseColor::Black => 0,
        BaseColor::Red => 1,
        BaseColor::Green => 2,
        BaseColor::Yellow => 3,
        BaseColor::Blue => 4,
        BaseColor::Magenta => 5,
        BaseColor::Cyan => 6,
        BaseColor::White => 7,
    }
}

/// Picks the terminal color that draws `clr`.
pub fn with_color(clr: Color) -> (r: TermColor)
    requires
        clr.wf(),
    ensures
        r == term_color(clr),
{
    match clr {
        Color::TerminalDefault => TermColor::Reset,
        Color::Dark(b) => TermColor::Ansi(base_color_index(b)),
        Color::Light(b) => TermColor::Ansi(8 + base_color_index(b)),
        Color::Rgb(r, g, b) => TermColor::Rgb(r, g, b),
        Color::RgbLowRes(r, g, b) => TermColor::Ansi(16 + 36 * r + 6 * g + b),
    }
}

} // verus!
