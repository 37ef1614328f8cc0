//! Console colours.
use vstd::prelude::*;

verus! {

/// ANSI colours for console output.
#[derive(Debug, PartialEq, Eq, Structural, Clone, Copy)]
pub enum Color {
    Default,
    BlueDark,
    BlueLight,
    Green,
    Red,
}

/// The ANSI code that selects colour `c`.
pub open spec fn color_code(c: Color) -> Seq<char> {
    match c {
        Color::Default => "0"@,
        Color::BlueDark => "34"@,
        Color::BlueLight => "96"@,
        Color::Green => "32"@,
        Color::Red => "31"@,
    }
}

impl Color {
    /// The ANSI code that selects this colour.
    pub fn to_string(&self) -> (r: &'static str)
        ensures
            r@ == color_code(*self),
    {
        match *self {
            Color::Default => "0",
            Color::BlueDark => "34",
            Color::BlueLight => "96",
            Color::Green => "32",
            Color::Red => "31",
        }
    }
}

} // verus!
