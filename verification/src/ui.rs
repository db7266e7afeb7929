//! Colours: the palette that the host hands over, and text wrapped in the
//! escape sequences that make a terminal draw it in one of its colours.

use crate::text::{decimal, push_decimal};
use vstd::prelude::*;
use vstd::string::StringExecFns;

verus! {

/// A colour of the palette: one of the 256 indexed colours, or red, green and
/// blue.
#[derive(Debug, Clone, Copy, PartialEq, Eq)]
pub enum PaletteColor {
    Rgb((u8, u8, u8)),
    EightBit(u8),
}

impl Default for PaletteColor {
    /// The indexed colour 0.
    fn default() -> (color: PaletteColor)
        ensures
            color == PaletteColor::EightBit(0),
    {
        PaletteColor::EightBit(0)
    }
}

/// The colours of the host's theme that the picker draws with.
#[derive(Debug, Clone, Copy, PartialEq, Eq)]
pub struct Palette {
    pub bg: PaletteColor,
    pub red: PaletteColor,
    pub green: PaletteColor,
    pub magenta: PaletteColor,
    pub cyan: PaletteColor,
    pub orange: PaletteColor,
}

/// The palette before the host has handed one over: every colour the
/// indexed colour 0.
pub open spec fn default_palette() -> Palette {
    Palette {
        bg: PaletteColor::EightBit(0),
        red: PaletteColor::EightBit(0),
        green: PaletteColor::EightBit(0),
        magenta: PaletteColor::EightBit(0),
        cyan: PaletteColor::EightBit(0),
        orange: PaletteColor::EightBit(0),
    }
}

impl Default for Palette {
    fn default() -> (palette: Palette)
        ensures
            palette == default_palette(),
    {
        Palette {
            bg: PaletteColor::EightBit(0),
            red: PaletteColor::EightBit(0),
            green: PaletteColor::EightBit(0),
            magenta: PaletteColor::EightBit(0),
            cyan: PaletteColor::EightBit(0),
            orange: PaletteColor::EightBit(0),
        }
    }
}

/// Draws text in the colours of a palette.
#[derive(Debug, Clone, Copy)]
pub struct Colors {
    pub palette: Palette,
}

impl Default for Colors {
    fn default() -> (colors: Colors)
        ensures
            colors.palette == default_palette(),
    {
        Colors { palette: Palette::default() }
    }
}

/// A text between the sequences that switch bold on and off.
pub open spec fn bold_text(text: Seq<char>) -> Seq<char> {
    "\u{1b}[1m"@ + text + "\u{1b}[22m"@
}

/// The sequence that selects a colour for the text that follows and switches
/// bold on.
pub open spec fn color_start(color: PaletteColor) -> Seq<char> {
    match color {
        PaletteColor::EightBit(byte) => "\u{1b}[38;5;"@ + decimal(byte as nat) + ";1m"@,
        PaletteColor::Rgb((r, g, b)) => "\u{1b}[38;2;"@ + decimal(r as nat) + ";"@ + decimal(
            g as nat,
        ) + ";"@ + decimal(b as nat) + ";1m"@,
    }
}

/// A text between the sequence that selects a colour and the one that goes
/// back to the default colour and switches bold off.
pub open spec fn colored_text(color: PaletteColor, text: Seq<char>) -> Seq<char> {
    color_start(color) + text + "\u{1b}[39;22m"@
}

impl Colors {
    pub fn new(palette: Palette) -> (colors: Colors)
        ensures
            colors.palette == palette,
    {
        Colors { palette }
    }

    /// The text in bold.
    pub fn bold(&self, text: &str) -> (out: String)
        ensures
            out@ == bold_text(text@),
    {
        let mut out = String::from_str("\u{1b}[1m");
        out.append(text);
        out.append("\u{1b}[22m");
        out
    }

    /// The text in a colour, in bold.
    pub fn color(&self, color: &PaletteColor, text: &str) -> (out: String)
        ensures
            out@ == colored_text(*color, text@),
    {
        let mut out: String;
        match color {
            PaletteColor::EightBit(byte) => {
                out = String::from_str("\u{1b}[38;5;");
                push_decimal(&mut out, *byte as usize);
                out.append(";1m");
            },
            PaletteColor::Rgb((r, g, b)) => {
                out = String::from_str("\u{1b}[38;2;");
                push_decimal(&mut out, *r as usize);
                out.append(";");
                push_decimal(&mut out, *g as usize);
                out.append(";");
                push_decimal(&mut out, *b as usize);
                out.append(";1m");
            },
        }
        out.append(text);
        out.append("\u{1b}[39;22m");
        out
    }

    /// The text in the palette's orange.
    pub fn orange(&self, text: &str) -> (out: String)
        ensures
            out@ == colored_text(self.palette.orange, text@),
    {
        self.color(&self.palette.orange, text)
    }

    /// The text in the palette's green.
    pub fn green(&self, text: &str) -> (out: String)
        ensures
            out@ == colored_text(self.palette.green, text@),
    {
        self.color(&self.palette.green, text)
    }

    /// The text in the palette's red.
    pub fn red(&self, text: &str) -> (out: String)
        ensures
            out@ == colored_text(self.palette.red, text@),
    {
        self.color(&self.palette.red, text)
    }

    /// The text in the palette's cyan.
    pub fn cyan(&self, text: &str) -> (out: String)
        ensures
            out@ == colored_text(self.palette.cyan, text@),
    {
        self.color(&self.palette.cyan, text)
    }

    /// The text in the palette's magenta.
    pub fn magenta(&self, text: &str) -> (out: String)
        ensures
            out@ == colored_text(self.palette.magenta, text@),
    {
        self.color(&self.palette.magenta, text)
    }
}

} // verus!
