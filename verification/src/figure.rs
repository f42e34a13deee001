//! Figures.

use vstd::prelude::*;
use crate::error::FigureError;
use crate::line::Line;
use crate::line::LineView;
use crate::number::Number;
use crate::number::NumberView;
use crate::option::PlotOption;
use crate::plottype::PlotType;
use crate::render::pack_pairs;
use crate::render::pack_quads;
use crate::render::put_data_blocks;
use crate::render::render_label;
use crate::render::render_logscale;
use crate::render::render_output;
use crate::render::render_plot_statement;
use crate::render::render_range;
use crate::render::render_series_args;
use crate::render::render_terminal;
use crate::render::render_tics;
use crate::render::render_title;
use crate::script::Axis;
use crate::script::errorbar_series;
use crate::script::options_view;
use crate::script::plain_series;
use crate::script::rendering;
use crate::script::script;
use crate::script::shorter;
use crate::script::tics_table;
use crate::terminal::Terminal;
use crate::text::put_bytes;

verus! {

/// A figure in the making: the global settings, each of them set or not, and
/// the series in the order in which they were added.
#[derive(Debug, PartialEq, Eq)]
pub struct Figure {
    font: Option<String>,
    lines: Vec<Line>,
    logscale: Option<(bool, bool)>,
    output: Option<String>,
    size: Option<(usize, usize)>,
    terminal: Option<Terminal>,
    title: Option<String>,
    xlabel: Option<String>,
    xrange: Option<(Number, Number)>,
    xtics: Option<Vec<(String, String)>>,
    ylabel: Option<String>,
    yrange: Option<(Number, Number)>,
    ytics: Option<Vec<(String, String)>>,
}

/// A `Figure` as contracts see it.  A range is its lower and upper bound as
/// they were given; a tick table is its entries in order, each a label and the
/// text of a position.
pub struct FigureView {
    pub font: Option<Seq<char>>,
    pub lines: Seq<LineView>,
    pub logscale: Option<(bool, bool)>,
    pub output: Option<Seq<char>>,
    pub size: Option<(usize, usize)>,
    pub terminal: Option<Terminal>,
    pub title: Option<Seq<char>>,
    pub xlabel: Option<Seq<char>>,
    pub xrange: Option<(NumberView, NumberView)>,
    pub xtics: Option<Seq<(Seq<char>, Seq<char>)>>,
    pub ylabel: Option<Seq<char>>,
    pub yrange: Option<(NumberView, NumberView)>,
    pub ytics: Option<Seq<(Seq<char>, Seq<char>)>>,
}

impl FigureView {
    /// The figure in which nothing is set and nothing is plotted.
    pub open spec fn empty() -> FigureView {
        FigureView {
            font: None,
            lines: Seq::empty(),
            logscale: None,
            output: None,
            size: None,
            terminal: None,
            title: None,
            xlabel: None,
            xrange: None,
            xtics: None,
            ylabel: None,
            yrange: None,
            ytics: None,
        }
    }
}

/// An optional text as contracts see it.
pub open spec fn text_view(text: Option<String>) -> Option<Seq<char>> {
    match text {
        Some(s) => Some(s@),
        None => None,
    }
}

/// An optional range as contracts see it.
pub open spec fn range_view(range: Option<(Number, Number)>) -> Option<(NumberView, NumberView)> {
    match range {
        Some((low, high)) => Some((low@, high@)),
        None => None,
    }
}

/// The entries of a tick table as contracts see them.
pub open spec fn entries_view(entries: Seq<(String, String)>) -> Seq<(Seq<char>, Seq<char>)> {
    entries.map_values(|entry: (String, String)| (entry.0@, entry.1@))
}

/// An optional tick table as contracts see it.
pub open spec fn tics_view(tics: Option<Vec<(String, String)>>) -> Option<
    Seq<(Seq<char>, Seq<char>)>,
> {
    match tics {
        Some(entries) => Some(entries_view(entries@)),
        None => None,
    }
}

/// The series of a figure as contracts see them.
pub open spec fn lines_view(lines: Seq<Line>) -> Seq<LineView> {
    lines.map_values(|line: Line| line@)
}

impl View for Figure {
    type V = FigureView;

    closed spec fn view(&self) -> FigureView {
        FigureView {
            font: text_view(self.font),
            lines: lines_view(self.lines@),
            logscale: self.logscale,
            output: text_view(self.output),
            size: self.size,
            terminal: self.terminal,
            title: text_view(self.title),
            xlabel: text_view(self.xlabel),
            xrange: range_view(self.xrange),
            xtics: tics_view(self.xtics),
            ylabel: text_view(self.ylabel),
            yrange: range_view(self.yrange),
            ytics: tics_view(self.ytics),
        }
    }
}

impl Figure {
    /// The figure in which nothing is set and nothing is plotted.
    pub fn new() -> (figure: Figure)
        ensures
            figure@ == FigureView::empty(),
    {
        let figure = Figure {
            font: None,
            lines: Vec::new(),
            logscale: None,
            output: None,
            size: None,
            terminal: None,
            title: None,
            xlabel: None,
            xrange: None,
            xtics: None,
            ylabel: None,
            yrange: None,
            ytics: None,
        };
        assert(figure@.lines =~= Seq::empty());
        figure
    }

    /// Sets the font of the terminal; an earlier font is forgotten.
    pub fn set_font(&mut self, font: &str) -> (figure: &mut Figure)
        ensures
            figure@ == (FigureView { font: Some(font@), ..old(self)@ }),
            *final(self) == *final(figure),
    {
        self.font = Some(font.to_owned());
        self
    }

    /// Sets for each axis, `x` first, whether its scale is logarithmic.
    pub fn set_logscale(&mut self, axes: (bool, bool)) -> (figure: &mut Figure)
        ensures
            figure@ == (FigureView { logscale: Some(axes), ..old(self)@ }),
            *final(self) == *final(figure),
    {
        self.logscale = Some(axes);
        self
    }

    /// Sets the file that the plotting program draws into.
    pub fn set_output_file(&mut self, path: &str) -> (figure: &mut Figure)
        ensures
            figure@ == (FigureView { output: Some(path@), ..old(self)@ }),
            *final(self) == *final(figure),
    {
        self.output = Some(path.to_owned());
        self
    }

    /// Sets the width and height of the canvas.
    pub fn set_size(&mut self, size: (usize, usize)) -> (figure: &mut Figure)
        ensures
            figure@ == (FigureView { size: Some(size), ..old(self)@ }),
            *final(self) == *final(figure),
    {
        self.size = Some(size);
        self
    }

    /// Sets the device that the plotting program draws on.
    pub fn set_terminal(&mut self, terminal: Terminal) -> (figure: &mut Figure)
        ensures
            figure@ == (FigureView { terminal: Some(terminal), ..old(self)@ }),
            *final(self) == *final(figure),
    {
        self.terminal = Some(terminal);
        self
    }

    /// Sets the title of the figure.
    pub fn set_title(&mut self, title: &str) -> (figure: &mut Figure)
        ensures
            figure@ == (FigureView { title: Some(title@), ..old(self)@ }),
            *final(self) == *final(figure),
    {
        self.title = Some(title.to_owned());
        self
    }

    /// Sets the label of the `x` axis.
    pub fn set_xlabel(&mut self, label: &str) -> (figure: &mut Figure)
        ensures
            figure@ == (FigureView { xlabel: Some(label@), ..old(self)@ }),
            *final(self) == *final(figure),
    {
        self.xlabel = Some(label.to_owned());
        self
    }

    /// Sets the range of the `x` axis, lower bound first as the caller sees
    /// it; the bounds are kept as given.
    pub fn set_xrange(&mut self, range: (Number, Number)) -> (figure: &mut Figure)
        ensures
            figure@ == (FigureView { xrange: Some((range.0@, range.1@)), ..old(self)@ }),
            *final(self) == *final(figure),
    {
        self.xrange = Some(range);
        self
    }

    /// Sets the label of the `y` axis.
    pub fn set_ylabel(&mut self, label: &str) -> (figure: &mut Figure)
        ensures
            figure@ == (FigureView { ylabel: Some(label@), ..old(self)@ }),
            *final(self) == *final(figure),
    {
        self.ylabel = Some(label.to_owned());
        self
    }

    /// Sets the range of the `y` axis, lower bound first as the caller sees
    /// it; the bounds are kept as given.
    pub fn set_yrange(&mut self, range: (Number, Number)) -> (figure: &mut Figure)
        ensures
            figure@ == (FigureView { yrange: Some((range.0@, range.1@)), ..old(self)@ }),
            *final(self) == *final(figure),
    {
        self.yrange = Some(range);
        self
    }

    /// Sets the tick table of the `x` axis: the labels, each at the position
    /// that stands at its place among the positions.  Labels and positions
    /// are paired off from the front; what the longer input holds beyond the
    /// shorter one is left out.
    pub fn set_xtics(&mut self, labels: &[&str], positions: &[Number]) -> (figure: &mut Figure)
        ensures
            figure@ == (FigureView {
                xtics: Some(tics_table(labels@, positions@)),
                ..old(self)@
            }),
            *final(self) == *final(figure),
    {
        self.xtics = Some(make_tics(labels, positions));
        self
    }

    /// Sets the tick table of the `y` axis, as `set_xtics` does for `x`.
    pub fn set_ytics(&mut self, labels: &[&str], positions: &[Number]) -> (figure: &mut Figure)
        ensures
            figure@ == (FigureView {
                ytics: Some(tics_table(labels@, positions@)),
                ..old(self)@
            }),
            *final(self) == *final(figure),
    {
        self.ytics = Some(make_tics(labels, positions));
        self
    }

    /// Adds a series that plots `ys` against `xs`, each a list of doubles
    /// given by their bit patterns.  The inputs are paired off from the
    /// front, so the series holds as many records as the shorter input has
    /// doubles.  The styling choices apply in the order given; a series
    /// without a title says so in its clause.
    pub fn plot(
        &mut self,
        plot_type: PlotType,
        xs: &[u64],
        ys: &[u64],
        options: &[PlotOption],
    ) -> (figure: &mut Figure)
        ensures
            figure@ == (FigureView {
                lines: old(self)@.lines.push(
                    plain_series(plot_type, xs@, ys@, options_view(options@)),
                ),
                ..old(self)@
            }),
            figure@.lines.last().records == shorter(xs@.len(), ys@.len()),
            figure@.lines.last().balanced(),
            *final(self) == *final(figure),
    {
        let (data, records) = pack_pairs(xs, ys);
        let args = render_series_args(records, " using 1:2", plot_type.keyword(), options);
        self.lines.push(Line::from_parts(args, data, records, 2));
        assert(self@.lines =~= old(self)@.lines.push(
            plain_series(plot_type, xs@, ys@, options_view(options@)),
        ));
        self
    }

    /// Adds a series that plots `ys` against `xs` with a horizontal error bar
    /// from `lows` to `highs` at each sample.  The four inputs are lined up
    /// from the front, so the series holds as many records as the shortest
    /// input has doubles.
    pub fn xerrorbars(
        &mut self,
        xs: &[u64],
        ys: &[u64],
        lows: &[u64],
        highs: &[u64],
        options: &[PlotOption],
    ) -> (figure: &mut Figure)
        ensures
            figure@ == (FigureView {
                lines: old(self)@.lines.push(
                    errorbar_series(
                        "xerrorbars",
                        xs@,
                        ys@,
                        lows@,
                        highs@,
                        options_view(options@),
                    ),
                ),
                ..old(self)@
            }),
            figure@.lines.last().records == shorter(
                shorter(xs@.len(), ys@.len()),
                shorter(lows@.len(), highs@.len()),
            ),
            figure@.lines.last().balanced(),
            *final(self) == *final(figure),
    {
        self.errorbars("xerrorbars", xs, ys, lows, highs, options)
    }

    /// Adds a series that plots `ys` against `xs` with a vertical error bar
    /// from `lows` to `highs` at each sample.  The four inputs are lined up
    /// from the front, so the series holds as many records as the shortest
    /// input has doubles.
    pub fn yerrorbars(
        &mut self,
        xs: &[u64],
        ys: &[u64],
        lows: &[u64],
        highs: &[u64],
        options: &[PlotOption],
    ) -> (figure: &mut Figure)
        ensures
            figure@ == (FigureView {
                lines: old(self)@.lines.push(
                    errorbar_series(
                        "yerrorbars",
                        xs@,
                        ys@,
                        lows@,
                        highs@,
                        options_view(options@),
                    ),
                ),
                ..old(self)@
            }),
            figure@.lines.last().records == shorter(
                shorter(xs@.len(), ys@.len()),
                shorter(lows@.len(), highs@.len()),
            ),
            figure@.lines.last().balanced(),
            *final(self) == *final(figure),
    {
        self.errorbars("yerrorbars", xs, ys, lows, highs, options)
    }

    fn errorbars(
        &mut self,
        kind: &str,
        xs: &[u64],
        ys: &[u64],
        lows: &[u64],
        highs: &[u64],
        options: &[PlotOption],
    ) -> (figure: &mut Figure)
        ensures
            figure@ == (FigureView {
                lines: old(self)@.lines.push(
                    errorbar_series(kind, xs@, ys@, lows@, highs@, options_view(options@)),
                ),
                ..old(self)@
            }),
            figure@.lines.last().records == shorter(
                shorter(xs@.len(), ys@.len()),
                shorter(lows@.len(), highs@.len()),
            ),
            figure@.lines.last().balanced(),
            *final(self) == *final(figure),
    {
        let (data, records) = pack_quads(xs, ys, lows, highs);
        let args = render_series_args(records, " using 1:2:3:4", kind, options);
        self.lines.push(Line::from_parts(args, data, records, 4));
        assert(self@.lines =~= old(self)@.lines.push(
            errorbar_series(kind, xs@, ys@, lows@, highs@, options_view(options@)),
        ));
        self
    }

    /// Renders the figure as a script.  A figure without an output file has
    /// no script, and neither has one without series; the missing output file
    /// is reported first.  The figure is left as it is, so rendering it again
    /// gives the same bytes.
    pub fn echo(&self) -> (rendered: Result<Vec<u8>, FigureError>)
        ensures
            self@.output is None ==> rendered == Err::<Vec<u8>, FigureError>(
                FigureError::Configuration,
            ),
            self@.output is Some && self@.lines.len() == 0 ==> rendered == Err::<
                Vec<u8>,
                FigureError,
            >(FigureError::EmptyPlot),
            self@.output is Some && self@.lines.len() > 0 ==> rendered is Ok && rendered->Ok_0@
                == script(self@),
            rendering(self@) == match rendered {
                Ok(bytes) => Ok::<Seq<u8>, FigureError>(bytes@),
                Err(error) => Err::<Seq<u8>, FigureError>(error),
            },
    {
        if self.output.is_none() {
            return Err(FigureError::Configuration);
        }
        if self.lines.len() == 0 {
            return Err(FigureError::EmptyPlot);
        }
        let mut out = render_logscale(self.logscale);
        put_bytes(&mut out, render_output(&self.output).as_slice());
        put_bytes(&mut out, render_terminal(self.terminal, self.size, &self.font).as_slice());
        put_bytes(&mut out, render_title(&self.title).as_slice());
        put_bytes(&mut out, render_label(Axis::X, &self.xlabel).as_slice());
        put_bytes(&mut out, render_range(Axis::X, &self.xrange).as_slice());
        put_bytes(&mut out, render_tics(Axis::X, &self.xtics).as_slice());
        put_bytes(&mut out, render_label(Axis::Y, &self.ylabel).as_slice());
        put_bytes(&mut out, render_range(Axis::Y, &self.yrange).as_slice());
        put_bytes(&mut out, render_tics(Axis::Y, &self.ytics).as_slice());
        put_bytes(&mut out, render_plot_statement(&self.lines).as_slice());
        put_data_blocks(&mut out, &self.lines);
        Ok(out)
    }

    /// The series in the order in which they were added.
    pub fn lines(&self) -> (lines: &Vec<Line>)
        ensures
            lines_view(lines@) == self@.lines,
    {
        &self.lines
    }
}

/// Pairs labels and positions off into a tick table.
fn make_tics(labels: &[&str], positions: &[Number]) -> (table: Vec<(String, String)>)
    ensures
        entries_view(table@) == tics_table(labels@, positions@),
{
    let count = if labels.len() <= positions.len() {
        labels.len()
    } else {
        positions.len()
    };
    let mut table: Vec<(String, String)> = Vec::new();
    let mut i: usize = 0;
    while i < count
        invariant
            i <= count,
            count == shorter(labels@.len(), positions@.len()),
            table@.len() == i,
            forall|j: int|
                0 <= j < i ==> (#[trigger] table@[j]).0@ == labels@[j]@ && table@[j].1@
                    == positions@[j]@.text,
        decreases count - i,
    {
        table.push((labels[i].to_owned(), positions[i].text.clone()));
        i += 1;
    }
    table
}

} // verus!
