use vstd::prelude::*;
use crate::text::{decimal, push_decimal};

verus! {

/// crossterm's terminal color, whose `Rgb` variant `to_rgb` builds.
#[verifier::external_type_specification]
pub struct ExTermColor(crossterm::style::Color);

/// The fixed palette: sixteen opaque colors and a transparent sentinel.
#[derive(Debug, Clone, Copy, PartialEq, Eq, Hash, Structural)]
pub enum PaletteColor {
    Black,
    DarkBlue,
    DarkPurple,
    DarkGreen,
    Brown,
    DarkGray,
    LightGray,
    White,
    Red,
    Orange,
    Yellow,
    Green,
    Blue,
    Indigo,
    Pink,
    Peach,
    Transparent,
}

/// The RGB triple of each palette entry; transparent maps to black.
pub open spec fn rgb_of(c: PaletteColor) -> (u8, u8, u8) {
    match c {
        PaletteColor::Black => (0x00, 0x00, 0x00),
        PaletteColor::DarkBlue => (0x1D, 0x2B, 0x53),
        PaletteColor::DarkPurple => (0x7E, 0x25, 0x53),
        PaletteColor::DarkGreen => (0x00, 0x87, 0x51),
        PaletteColor::Brown => (0xAB, 0x52, 0x36),
        PaletteColor::DarkGray => (0x5F, 0x57, 0x4F),
        PaletteColor::LightGray => (0xC2, 0xC3, 0xC7),
        PaletteColor::White => (0xFF, 0xF1, 0xE8),
        PaletteColor::Red => (0xFF, 0x00, 0x4D),
        PaletteColor::Orange => (0xFF, 0xA3, 0x00),
        PaletteColor::Yellow => (0xFF, 0xEC, 0x27),
        PaletteColor::Green => (0x00, 0xE4, 0x36),
        PaletteColor::Blue => (0x29, 0xAD, 0xFF),
        PaletteColor::Indigo => (0x83, 0x76, 0x9C),
        PaletteColor::Pink => (0xFF, 0x77, 0xA8),
        PaletteColor::Peach => (0xFF, 0xCC, 0xAA),
        PaletteColor::Transparent => (0x00, 0x00, 0x00),
    }
}

impl PaletteColor {
    /// The RGB triple of this palette entry.
    pub fn rgb(self) -> (r: (u8, u8, u8))
        ensures
            r == rgb_of(self),
    {
        match self {
            PaletteColor::Black => (0x00, 0x00, 0x00),
            PaletteColor::DarkBlue => (0x1D, 0x2B, 0x53),
            PaletteColor::DarkPurple => (0x7E, 0x25, 0x53),
            PaletteColor::DarkGreen => (0x00, 0x87, 0x51),
            PaletteColor::Brown => (0xAB, 0x52, 0x36),
            PaletteColor::DarkGray => (0x5F, 0x57, 0x4F),
            PaletteColor::LightGray => (0xC2, 0xC3, 0xC7),
            PaletteColor::White => (0xFF, 0xF1, 0xE8),
            PaletteColor::Red => (0xFF, 0x00, 0x4D),
            PaletteColor::Orange => (0xFF, 0xA3, 0x00),
            PaletteColor::Yellow => (0xFF, 0xEC, 0x27),
            PaletteColor::Green => (0x00, 0xE4, 0x36),
            PaletteColor::Blue => (0x29, 0xAD, 0xFF),
            PaletteColor::Indigo => (0x83, 0x76, 0x9C),
            PaletteColor::Pink => (0xFF, 0x77, 0xA8),
            PaletteColor::Peach => (0xFF, 0xCC, 0xAA),
            PaletteColor::Transparent => (0x00, 0x00, 0x00),
        }
    }

    /// The terminal color of this palette entry, as an RGB color of crossterm.
    pub fn to_rgb(self) -> (r: crossterm::style::Color)
        ensures
            r == (crossterm::style::Color::Rgb {
                r: rgb_of(self).0,
                g: rgb_of(self).1,
                b: rgb_of(self).2,
            }),
    {
        let (r, g, b) = self.rgb();
        crossterm::style::Color::Rgb { r, g, b }
    }

    /// Whether this is the transparent sentinel.
    pub fn is_transparent(self) -> (r: bool)
        ensures
            r == (self == PaletteColor::Transparent),
    {
        match self {
            PaletteColor::Transparent => true,
            _ => false,
        }
    }
}

/// The reset sequence that ends every colored run.
pub open spec fn reset_seq() -> Seq<char> {
    "\x1b[0m"@
}

/// `ESC[<sel>;2;R;G;Bm` for the given RGB triple and selector prefix.
pub open spec fn truecolor_seq(prefix: Seq<char>, c: PaletteColor) -> Seq<char> {
    prefix + decimal(rgb_of(c).0 as nat) + ";"@ + decimal(rgb_of(c).1 as nat) + ";"@ + decimal(
        rgb_of(c).2 as nat,
    ) + "m"@
}

/// Foreground escape: `ESC[38;2;R;G;Bm`.
pub open spec fn fg_seq(c: PaletteColor) -> Seq<char> {
    truecolor_seq("\x1b[38;2;"@, c)
}

/// Background escape: `ESC[48;2;R;G;Bm`.
pub open spec fn bg_seq(c: PaletteColor) -> Seq<char> {
    truecolor_seq("\x1b[48;2;"@, c)
}

fn push_truecolor(s: &mut String, prefix: &str, c: PaletteColor)
    ensures
        final(s)@ == old(s)@ + truecolor_seq(prefix@, c),
{
    let (r, g, b) = c.rgb();
    s.append(prefix);
    push_decimal(s, r);
    s.append(";");
    push_decimal(s, g);
    s.append(";");
    push_decimal(s, b);
    s.append("m");
    assert(s@ =~= old(s)@ + truecolor_seq(prefix@, c));
}

pub(crate) fn push_fg(s: &mut String, c: PaletteColor)
    ensures
        final(s)@ == old(s)@ + fg_seq(c),
{
    push_truecolor(s, "\x1b[38;2;", c);
}

pub(crate) fn push_bg(s: &mut String, c: PaletteColor)
    ensures
        final(s)@ == old(s)@ + bg_seq(c),
{
    push_truecolor(s, "\x1b[48;2;", c);
}

pub(crate) fn push_reset(s: &mut String)
    ensures
        final(s)@ == old(s)@ + reset_seq(),
{
    s.append("\x1b[0m");
}

impl PaletteColor {
    /// The truecolor escape that sets this color as foreground.
    pub fn ansi_fg(self) -> (r: String)
        ensures
            r@ == fg_seq(self),
    {
        let mut s = String::new();
        push_fg(&mut s, self);
        assert(s@ =~= fg_seq(self));
        s
    }

    /// The truecolor escape that sets this color as background.
    pub fn ansi_bg(self) -> (r: String)
        ensures
            r@ == bg_seq(self),
    {
        let mut s = String::new();
        push_bg(&mut s, self);
        assert(s@ =~= bg_seq(self));
        s
    }
}

} // verus!
