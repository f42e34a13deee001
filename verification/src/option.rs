//! Per-series styling.

use vstd::prelude::*;
use crate::linetype::LineType;
use crate::pointtype::PointType;

verus! {

/// One styling choice for one series.
#[derive(Clone, Copy, Debug, PartialEq, Eq)]
pub enum PlotOption<'a> {
    /// The dash pattern of the curve.
    LineType(LineType),
    /// The symbol drawn at each sample.
    PointType(PointType),
    /// The name under which the series appears in the key.
    Title(&'a str),
}

/// A styling choice as contracts see it: a title stands as its characters.
pub enum PlotOptionView {
    LineType(LineType),
    PointType(PointType),
    Title(Seq<char>),
}

impl<'a> View for PlotOption<'a> {
    type V = PlotOptionView;

    open spec fn view(&self) -> PlotOptionView {
        match *self {
            PlotOption::LineType(lt) => PlotOptionView::LineType(lt),
            PlotOption::PointType(pt) => PlotOptionView::PointType(pt),
            PlotOption::Title(s) => PlotOptionView::Title(s@),
        }
    }
}

} // verus!
