//! Font families, as style values.

use vstd::prelude::*;
use vstd::string::StringExecFns;

verus! {

/// A font family: the generic sans-serif one, or a named one.
#[derive(Clone, Copy, Debug, PartialEq, Eq)]
pub enum Font {
    SansSerif,
    Custom(&'static str),
}

impl Font {
    /// The text by which the platform knows this font. A named font is written
    /// with a percent sign behind its name.
    pub open spec fn text(&self) -> Seq<char> {
        match *self {
            Font::SansSerif => "sans-serif"@,
            Font::Custom(s) => s@ + "%"@,
        }
    }

    /// The font as text.
    pub fn to_string(&self) -> (r: String)
        ensures
            r@ == self.text(),
    {
        match *self {
            Font::SansSerif => String::from_str("sans-serif"),
            Font::Custom(s) => String::from_str(s).concat("%"),
        }
    }
}

} // verus!
