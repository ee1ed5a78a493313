//! The output model: everything the game wants drawn is expressed as a list
//! of positioned, colored text lines. An unverified shell turns these into
//! terminal escape sequences; nothing here performs I/O.

use vstd::prelude::*;

verus! {

/// The named terminal colors the game uses.
#[derive(Copy, Clone, PartialEq, Eq, Structural, Debug)]
pub enum ColorName {
    White,
    Black,
    Green,
    Magenta,
    Yellow,
    Cyan,
    Red,
}

/// A foreground/background pair.
#[derive(Copy, Clone, PartialEq, Eq, Structural, Debug)]
pub struct Colors {
    pub foreground: ColorName,
    pub background: ColorName,
}

/// White on black, the default for structural parts of the drawing.
pub open spec fn spec_plain_colors() -> Colors {
    Colors { foreground: ColorName::White, background: ColorName::Black }
}

/// White on black, the default for structural parts of the drawing.
pub fn plain_colors() -> (r: Colors)
    ensures
        r == spec_plain_colors(),
{
    Colors { foreground: ColorName::White, background: ColorName::Black }
}

/// One line of text to draw at a fixed screen cell, in a fixed color pair.
/// `row` counts down from the top of the window, `col` from the left.
#[derive(Debug)]
pub struct ScreenLine {
    pub col: u16,
    pub row: u16,
    pub colors: Colors,
    pub text: String,
}

} // verus!
