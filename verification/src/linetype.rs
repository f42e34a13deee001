//! Line styles.

use vstd::prelude::*;

verus! {

/// The dash pattern of a curve.
#[derive(Clone, Copy, Debug, PartialEq, Eq, Structural)]
pub enum LineType {
    Dash,
    Dot,
    DotDash,
    DotDotDash,
    SmallDot,
    Solid,
}

impl LineType {
    /// The number by which the plotting program knows this pattern.
    pub open spec fn spec_code(self) -> u8 {
        match self {
            LineType::Dash => 2,
            LineType::Dot => 3,
            LineType::DotDash => 4,
            LineType::DotDotDash => 5,
            LineType::SmallDot => 0,
            LineType::Solid => 1,
        }
    }

    /// The number by which the plotting program knows this pattern.
    #[verifier::when_used_as_spec(spec_code)]
    pub fn code(self) -> (c: u8)
        ensures
            c == self.spec_code(),
    {
        match self {
            LineType::Dash => 2,
            LineType::Dot => 3,
            LineType::DotDash => 4,
            LineType::DotDotDash => 5,
            LineType::SmallDot => 0,
            LineType::Solid => 1,
        }
    }
}

} // verus!
