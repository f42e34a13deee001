//! Point symbols.

use vstd::prelude::*;

verus! {

/// The symbol drawn at each sample.
#[derive(Clone, Copy, Debug, PartialEq, Eq, Structural)]
pub enum PointType {
    Circle,
    Square,
    Triangle,
}

impl PointType {
    /// The number by which the plotting program knows this symbol.
    pub open spec fn spec_code(self) -> u8 {
        match self {
            PointType::Circle => 7,
            PointType::Square => 5,
            PointType::Triangle => 9,
        }
    }

    /// The number by which the plotting program knows this symbol.
    #[verifier::when_used_as_spec(spec_code)]
    pub fn code(self) -> (c: u8)
        ensures
            c == self.spec_code(),
    {
        match self {
            PointType::Circle => 7,
            PointType::Square => 5,
            PointType::Triangle => 9,
        }
    }
}

} // verus!
