//! Failures.

use vstd::prelude::*;
use vstd::string::StringExecFns;

verus! {

/// Why a figure could not be rendered, saved or drawn.
#[derive(Debug, PartialEq, Eq)]
pub enum FigureError {
    /// No output file was set before rendering.
    Configuration,
    /// No series was added before rendering.
    EmptyPlot,
    /// The script could not be written where it was to go; holds the reason.
    Io(String),
    /// The plotting program could not be started; holds the reason.
    Spawn(String),
    /// The plotting program ran and reported failure; holds what it wrote to
    /// its error stream.
    Runtime(String),
}

impl FigureError {
    /// The failure in words.
    pub open spec fn spec_message(&self) -> Seq<char> {
        match self {
            FigureError::Configuration => "No output file specified"@,
            FigureError::EmptyPlot => "Nothing to plot!"@,
            FigureError::Io(reason) => reason@,
            FigureError::Spawn(reason) => "`gnuplot`: "@ + reason@,
            FigureError::Runtime(_) => "runtime error"@,
        }
    }

    /// The failure to create the file at `path`, for the reason given.
    pub fn creation(path: &str, reason: &str) -> (error: FigureError)
        ensures
            error matches FigureError::Io(words) && words@ == "Couldn't create "@ + path@ + ": "@
                + reason@,
    {
        let words = String::from_str("Couldn't create ").concat(path).concat(": ").concat(reason);
        FigureError::Io(words)
    }

    /// The failure in words.
    pub fn message(&self) -> (words: String)
        ensures
            words@ == self.spec_message(),
    {
        match self {
            FigureError::Configuration => String::from_str("No output file specified"),
            FigureError::EmptyPlot => String::from_str("Nothing to plot!"),
            FigureError::Io(reason) => reason.clone(),
            FigureError::Spawn(reason) => String::from_str("`gnuplot`: ").concat(reason.as_str()),
            FigureError::Runtime(_) => String::from_str("runtime error"),
        }
    }
}

/// What a finished run of the plotting program amounts to: nothing to report
/// where it exited with success, else a `Runtime` failure that carries what it
/// wrote to its error stream.
pub fn check_exit(success: bool, stderr: String) -> (r: Result<(), FigureError>)
    ensures
        success ==> r == Ok::<(), FigureError>(()),
        !success ==> r == Err::<(), FigureError>(FigureError::Runtime(stderr)),
{
    if success {
        Ok(())
    } else {
        Err(FigureError::Runtime(stderr))
    }
}

} // verus!
