//! Output devices.

use vstd::prelude::*;

verus! {

/// The device that the plotting program draws on.
#[derive(Clone, Copy, Debug, PartialEq, Eq, Structural)]
pub enum Terminal {
    /// A raster image.
    Png,
    /// A vector image.
    Svg,
}

impl Terminal {
    /// The words that follow `set terminal`.
    pub open spec fn spec_keyword(self) -> &'static str {
        match self {
            Terminal::Png => "pngcairo",
            Terminal::Svg => "svg dynamic",
        }
    }

    /// The words that follow `set terminal`.
    #[verifier::when_used_as_spec(spec_keyword)]
    pub fn keyword(self) -> (word: &'static str)
        ensures
            word == self.spec_keyword(),
    {
        match self {
            Terminal::Png => "pngcairo",
            Terminal::Svg => "svg dynamic",
        }
    }
}

} // verus!
