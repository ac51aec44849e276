//! Colours, as style values.

use vstd::prelude::*;
use vstd::string::StringExecFns;

verus! {

/// A colour: one of a few named ones, or any text the platform understands.
#[derive(Clone, Copy, Debug, PartialEq, Eq)]
pub enum Colors {
    NoColor,
    White,
    Black,
    RoyalBlue,
    Lightgray,
    Transparent,
    Custom(&'static str),
}

impl Colors {
    /// The text by which the platform knows this colour. Every named colour has
    /// one text of its own; a custom colour is its own text.
    pub open spec fn text(&self) -> Seq<char> {
        match *self {
            Colors::NoColor => "none"@,
            Colors::White => "white"@,
            Colors::Black => "black"@,
            Colors::RoyalBlue => "royalBlue"@,
            Colors::Lightgray => "lightgray"@,
            Colors::Transparent => "transparent"@,
            Colors::Custom(s) => s@,
        }
    }

    /// The colour as text.
    pub fn to_string(&self) -> (r: String)
        ensures
            r@ == self.text(),
    {
        match *self {
            Colors::NoColor => String::from_str("none"),
            Colors::White => String::from_str("white"),
            Colors::Black => String::from_str("black"),
            Colors::RoyalBlue => String::from_str("royalBlue"),
            Colors::Lightgray => String::from_str("lightgray"),
            Colors::Transparent => String::from_str("transparent"),
            Colors::Custom(s) => String::from_str(s),
        }
    }
}

} // verus!
