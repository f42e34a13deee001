//! Plot styles.

use vstd::prelude::*;

verus! {

/// How the samples of a plain series are drawn.
#[derive(Clone, Copy, Debug, PartialEq, Eq, Structural)]
pub enum PlotType {
    Lines,
    Points,
}

impl PlotType {
    /// The word that follows `with` in the series' clause.
    pub open spec fn spec_keyword(self) -> &'static str {
        match self {
            PlotType::Lines => "lines",
            PlotType::Points => "points",
        }
    }

    /// The word that follows `with` in the series' clause.
    #[verifier::when_used_as_spec(spec_keyword)]
    pub fn keyword(self) -> (word: &'static str)
        ensures
            word == self.spec_keyword(),
    {
        match self {
            PlotType::Lines => "lines",
            PlotType::Points => "points",
        }
    }
}

} // verus!
