//! Figures for an external plotting program.
//!
//! A [`Figure`] collects global settings and data series and renders them as
//! the script that the plotting program reads on its input: a list of `set`
//! directives, one `plot` statement, and one block of packed samples for each
//! series.  Every number is taken as the bit pattern of a double, so that the
//! library itself works on integers and bytes alone.

pub mod error;
pub mod figure;
pub mod line;
pub mod linetype;
pub mod number;
pub mod option;
pub mod plottype;
pub mod pointtype;
mod render;
pub mod script;
pub mod terminal;
pub mod text;

pub use error::FigureError;
pub use figure::Figure;
pub use line::Line;
pub use linetype::LineType;
pub use number::Number;
pub use option::PlotOption;
pub use plottype::PlotType;
pub use pointtype::PointType;
pub use terminal::Terminal;
