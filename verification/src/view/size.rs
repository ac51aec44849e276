//! Dimensions and four-sided insets, as style values.

use vstd::prelude::*;
use vstd::string::StringExecFns;
use crate::view::decimal::{decimal, format_decimal};

verus! {

/// A dimension of an element.
#[derive(Clone, Copy, Debug, PartialEq, Eq)]
pub enum Size {
    /// As large as the parent.
    MatchParent,
    /// As large as the content needs.
    WrapContent,
    /// A number of whole pixels.
    Pixel(i32),
    /// A share of the parent, in percent.
    Percent(i32),
}

impl Size {
    /// The text by which the platform knows this dimension.
    pub open spec fn text(&self) -> Seq<char> {
        match *self {
            Size::MatchParent => "100%"@,
            Size::WrapContent => "fit-content"@,
            Size::Pixel(p) => decimal(p as int) + "px"@,
            Size::Percent(p) => decimal(p as int) + "%"@,
        }
    }

    /// The dimension as text.
    pub fn to_string(&self) -> (r: String)
        ensures
            r@ == self.text(),
    {
        match *self {
            Size::MatchParent => String::from_str("100%"),
            Size::WrapContent => String::from_str("fit-content"),
            Size::Pixel(p) => format_decimal(p).concat("px"),
            Size::Percent(p) => format_decimal(p).concat("%"),
        }
    }
}

/// An inset on the four sides of an element.
#[derive(Clone, Copy, Debug, PartialEq, Eq)]
pub struct Edge {
    pub top: Size,
    pub right: Size,
    pub left: Size,
    pub bottom: Size,
}

impl Edge {
    /// The text by which the platform knows this inset: the four sides, from the
    /// top clockwise, with a blank between them.
    pub open spec fn text(&self) -> Seq<char> {
        self.top.text() + " "@ + self.right.text() + " "@ + self.bottom.text() + " "@
            + self.left.text()
    }

    /// The inset as text.
    pub fn to_string(&self) -> (r: String)
        ensures
            r@ == self.text(),
    {
        let mut out = self.top.to_string();
        out.append(" ");
        out.append(self.right.to_string().as_str());
        out.append(" ");
        out.append(self.bottom.to_string().as_str());
        out.append(" ");
        out.append(self.left.to_string().as_str());
        out
    }

    /// The inset of no pixels on every side.
    pub fn new() -> (r: Edge)
        ensures
            r.top == Size::Pixel(0),
            r.right == Size::Pixel(0),
            r.left == Size::Pixel(0),
            r.bottom == Size::Pixel(0),
    {
        Edge {
            top: Size::Pixel(0),
            right: Size::Pixel(0),
            left: Size::Pixel(0),
            bottom: Size::Pixel(0),
        }
    }
}

} // verus!
