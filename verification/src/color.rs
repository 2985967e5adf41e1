//! The colours of a terminal cell: which colour of the theme or the palette its text
//! and its ground take, after bold, inverse, hidden and dim.

use vstd::prelude::*;

verus! {

/// A colour that has a name.
#[derive(Debug, Clone, Copy, PartialEq, Eq, Structural)]
pub enum NamedColor {
    Black,
    Red,
    Green,
    Yellow,
    Blue,
    Magenta,
    Cyan,
    White,
    BrightBlack,
    BrightRed,
    BrightGreen,
    BrightYellow,
    BrightBlue,
    BrightMagenta,
    BrightCyan,
    BrightWhite,
    Foreground,
    Background,
    Cursor,
    DimBlack,
    DimRed,
    DimGreen,
    DimYellow,
    DimBlue,
    DimMagenta,
    DimCyan,
    DimWhite,
    BrightForeground,
    DimForeground,
}

/// A colour of its own.
#[derive(Debug, Clone, Copy, PartialEq, Eq, Structural)]
pub struct Rgb {
    pub r: u8,
    pub g: u8,
    pub b: u8,
}

/// A colour as a program asked for it.
#[derive(Debug, Clone, Copy, PartialEq, Eq, Structural)]
pub enum Color {
    Named(NamedColor),
    Spec(Rgb),
    Indexed(u8),
}

/// How a cell is shown.
#[derive(Debug, Clone, Copy, PartialEq, Eq, Structural)]
pub struct CellFlags {
    pub bold: bool,
    pub inverse: bool,
    pub hidden: bool,
    pub dim: bool,
}

/// Where a colour comes from.
#[derive(Debug, Clone, Copy, PartialEq, Eq, Structural)]
pub enum ColorSource {
    /// The theme's text.
    Foreground,
    /// The theme's text, made brighter.
    BrightForeground,
    /// The theme's text, made dimmer.
    DimForeground,
    /// The theme's ground.
    Background,
    /// The palette.
    Palette(Color),
}

/// The colours of a cell.
#[derive(Debug, Clone, Copy, PartialEq, Eq, Structural)]
pub struct CellColors {
    pub fg: ColorSource,
    pub bg: ColorSource,
    /// Whether the text is dimmed on top of that.
    pub dim_fg: bool,
}

/// The bright variant of a colour that has a name.
pub open spec fn bright_name(named: NamedColor) -> NamedColor {
    match named {
        NamedColor::Black => NamedColor::BrightBlack,
        NamedColor::Red => NamedColor::BrightRed,
        NamedColor::Green => NamedColor::BrightGreen,
        NamedColor::Yellow => NamedColor::BrightYellow,
        NamedColor::Blue => NamedColor::BrightBlue,
        NamedColor::Magenta => NamedColor::BrightMagenta,
        NamedColor::Cyan => NamedColor::BrightCyan,
        NamedColor::White => NamedColor::BrightWhite,
        NamedColor::Foreground => NamedColor::BrightForeground,
        other => other,
    }
}

/// The bright variant of a colour: the eight standard ones and the text's have one.
pub open spec fn bright(color: Color) -> Color {
    match color {
        Color::Named(named) => Color::Named(bright_name(named)),
        Color::Indexed(index) => if index < 8 {
            Color::Indexed((index + 8) as u8)
        } else {
            color
        },
        Color::Spec(_) => color,
    }
}

/// The bright variant of a colour, which bold text takes.
pub fn bold_to_bright(color: Color) -> (r: Color)
    ensures
        r == bright(color),
{
    match color {
        Color::Named(named) => Color::Named(match named {
            NamedColor::Black => NamedColor::BrightBlack,
            NamedColor::Red => NamedColor::BrightRed,
            NamedColor::Green => NamedColor::BrightGreen,
            NamedColor::Yellow => NamedColor::BrightYellow,
            NamedColor::Blue => NamedColor::BrightBlue,
            NamedColor::Magenta => NamedColor::BrightMagenta,
            NamedColor::Cyan => NamedColor::BrightCyan,
            NamedColor::White => NamedColor::BrightWhite,
            NamedColor::Foreground => NamedColor::BrightForeground,
            other => other,
        }),
        Color::Indexed(index) => {
            if index < 8 {
                Color::Indexed(index + 8)
            } else {
                color
            }
        },
        Color::Spec(_) => color,
    }
}

/// Where a colour comes from.
pub open spec fn source(color: Color) -> ColorSource {
    match color {
        Color::Named(NamedColor::Foreground) => ColorSource::Foreground,
        Color::Named(NamedColor::Cursor) => ColorSource::Foreground,
        Color::Named(NamedColor::BrightForeground) => ColorSource::BrightForeground,
        Color::Named(NamedColor::Background) => ColorSource::Background,
        Color::Named(NamedColor::DimForeground) => ColorSource::DimForeground,
        other => ColorSource::Palette(other),
    }
}

/// Where a colour comes from.
pub fn resolve_color(color: Color) -> (r: ColorSource)
    ensures
        r == source(color),
{
    match color {
        Color::Named(NamedColor::Foreground) => ColorSource::Foreground,
        Color::Named(NamedColor::Cursor) => ColorSource::Foreground,
        Color::Named(NamedColor::BrightForeground) => ColorSource::BrightForeground,
        Color::Named(NamedColor::Background) => ColorSource::Background,
        Color::Named(NamedColor::DimForeground) => ColorSource::DimForeground,
        other => ColorSource::Palette(other),
    }
}

/// The colours of a cell: bold text is bright; inverse exchanges text and ground; a
/// hidden text takes its ground; and dim comes last, for the text alone.
pub open spec fn cell_colors(fg: Color, bg: Color, flags: CellFlags) -> CellColors {
    let text = source(
        if flags.bold {
            bright(fg)
        } else {
            fg
        },
    );
    let ground = source(bg);
    let (front, back) = if flags.inverse {
        (ground, text)
    } else {
        (text, ground)
    };
    CellColors {
        fg: if flags.hidden {
            back
        } else {
            front
        },
        bg: back,
        dim_fg: flags.dim,
    }
}

/// The colours of a cell.
pub fn resolve_cell_colors(fg_color: Color, bg_color: Color, flags: CellFlags) -> (r: CellColors)
    ensures
        r == cell_colors(fg_color, bg_color, flags),
{
    let effective = if flags.bold {
        bold_to_bright(fg_color)
    } else {
        fg_color
    };
    let mut fg = resolve_color(effective);
    let mut bg = resolve_color(bg_color);
    if flags.inverse {
        core::mem::swap(&mut fg, &mut bg);
    }
    if flags.hidden {
        fg = bg;
    }
    CellColors { fg, bg, dim_fg: flags.dim }
}

/// A colour that is bright stays as it is.
pub proof fn brightening_is_idempotent(color: Color)
    ensures
        bright(bright(color)) == bright(color),
{
}

/// Text that is hidden cannot be told from its ground but by being dimmed.
pub proof fn hidden_text_takes_its_ground(fg: Color, bg: Color, flags: CellFlags)
    requires
        flags.hidden,
    ensures
        cell_colors(fg, bg, flags).fg == cell_colors(fg, bg, flags).bg,
{
}

/// Dimming changes nothing but that the text is dimmed.
pub proof fn dimming_comes_last(fg: Color, bg: Color, flags: CellFlags)
    ensures
        cell_colors(fg, bg, CellFlags { dim: true, ..flags }) == (CellColors {
            dim_fg: true,
            ..cell_colors(fg, bg, CellFlags { dim: false, ..flags })
        }),
{
}

/// Bold text takes the bright half of the palette: by name, and by number from 0 to 7. A
/// colour of its own, and one that is bright or dim already, stays as it is.
pub proof fn bold_text_is_bright(index: u8, rgb: Rgb)
    ensures
        index < 8 ==> bright(Color::Indexed(index)) == Color::Indexed((index + 8) as u8),
        index >= 8 ==> bright(Color::Indexed(index)) == Color::Indexed(index),
        bright(Color::Spec(rgb)) == Color::Spec(rgb),
        bright(Color::Named(NamedColor::Black)) == Color::Named(NamedColor::BrightBlack),
        bright(Color::Named(NamedColor::Red)) == Color::Named(NamedColor::BrightRed),
        bright(Color::Named(NamedColor::Green)) == Color::Named(NamedColor::BrightGreen),
        bright(Color::Named(NamedColor::Yellow)) == Color::Named(NamedColor::BrightYellow),
        bright(Color::Named(NamedColor::Blue)) == Color::Named(NamedColor::BrightBlue),
        bright(Color::Named(NamedColor::Magenta)) == Color::Named(NamedColor::BrightMagenta),
        bright(Color::Named(NamedColor::Cyan)) == Color::Named(NamedColor::BrightCyan),
        bright(Color::Named(NamedColor::White)) == Color::Named(NamedColor::BrightWhite),
        bright(Color::Named(NamedColor::Foreground)) == Color::Named(NamedColor::BrightForeground),
        bright(Color::Named(NamedColor::Background)) == Color::Named(NamedColor::Background),
        bright(Color::Named(NamedColor::DimRed)) == Color::Named(NamedColor::DimRed),
{
}

/// Inverse video swaps text and ground.
pub proof fn inverse_swaps_text_and_ground(fg: Color, bg: Color, flags: CellFlags)
    requires
        !flags.hidden,
    ensures
        ({
            let plain = cell_colors(fg, bg, CellFlags { inverse: false, ..flags });
            let swapped = cell_colors(fg, bg, CellFlags { inverse: true, ..flags });
            swapped.fg == plain.bg && swapped.bg == plain.fg
        }),
{
}

/// Without flags a cell has its own colours; bold touches the text alone, and hiding it
/// leaves the ground as it is.
pub proof fn plain_cells_keep_their_colours(fg: Color, bg: Color, flags: CellFlags)
    requires
        !flags.inverse,
    ensures
        cell_colors(fg, bg, flags).bg == source(bg),
        !flags.hidden && !flags.bold ==> cell_colors(fg, bg, flags).fg == source(fg),
        !flags.hidden && flags.bold ==> cell_colors(fg, bg, flags).fg == source(bright(fg)),
        cell_colors(fg, bg, flags).dim_fg == flags.dim,
{
}

/// The theme's own colours are taken from the theme, and all others from the palette.
pub proof fn themes_have_their_own_colours(color: Color)
    ensures
        source(Color::Named(NamedColor::Foreground)) == ColorSource::Foreground,
        source(Color::Named(NamedColor::Cursor)) == ColorSource::Foreground,
        source(Color::Named(NamedColor::BrightForeground)) == ColorSource::BrightForeground,
        source(Color::Named(NamedColor::DimForeground)) == ColorSource::DimForeground,
        source(Color::Named(NamedColor::Background)) == ColorSource::Background,
        source(color) matches ColorSource::Palette(other) ==> other == color,
        !(color is Named) ==> source(color) == ColorSource::Palette(color),
        color matches Color::Named(named) ==> (source(color) is Palette <==> named
            != NamedColor::Foreground && named != NamedColor::Cursor && named
            != NamedColor::BrightForeground && named != NamedColor::DimForeground && named
            != NamedColor::Background),
{
}

/// The functions resolve what the laws speak of.
pub proof fn color_functions(
    text: Color,
    ground: Color,
    flags: CellFlags,
    bright_text: Color,
    resolved: ColorSource,
    cell: CellColors,
)
    requires
        call_ensures(bold_to_bright, (text,), bright_text),
        call_ensures(resolve_color, (text,), resolved),
        call_ensures(resolve_cell_colors, (text, ground, flags), cell),
    ensures
        bright_text == bright(text),
        resolved == source(text),
        cell == cell_colors(text, ground, flags),
{
}

} // verus!
