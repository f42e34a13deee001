//! The script format.
//!
//! A script is a list of `set` directives, each on a line of its own and each
//! written only for a setting that was made, then one `plot` statement with a
//! clause for each series, then the blocks of the series in the same order.

use vstd::prelude::*;
use crate::error::FigureError;
use crate::figure::FigureView;
use crate::line::LineView;
use crate::number::le_bytes;
use crate::number::less;
use crate::number::Number;
use crate::number::NumberView;
use crate::option::PlotOption;
use crate::option::PlotOptionView;
use crate::plottype::PlotType;
use crate::terminal::Terminal;
use crate::text::decimal;
use crate::text::text;
use crate::text::utf8;

verus! {

/// One of the two axes of a figure.
#[derive(Clone, Copy, Debug, PartialEq, Eq, Structural)]
pub enum Axis {
    X,
    Y,
}

/// The parts with `separator` between each two neighbours.
pub open spec fn joined(parts: Seq<Seq<u8>>, separator: Seq<u8>) -> Seq<u8>
    decreases parts.len(),
{
    if parts.len() == 0 {
        Seq::empty()
    } else if parts.len() == 1 {
        parts[0]
    } else {
        joined(parts.drop_last(), separator) + separator + parts.last()
    }
}

/// The directive for logarithmic scales: it names the axes that ask for one,
/// and is missing where none does.
pub open spec fn logscale_directive(axes: Option<(bool, bool)>) -> Seq<u8> {
    match axes {
        Some((true, true)) => text("set logscale xy\n"),
        Some((true, false)) => text("set logscale x\n"),
        Some((false, true)) => text("set logscale y\n"),
        _ => Seq::empty(),
    }
}

/// The directive for the output file.
pub open spec fn output_directive(output: Option<Seq<char>>) -> Seq<u8> {
    match output {
        Some(path) => text("set output \"") + utf8(path) + text("\"\n"),
        None => Seq::empty(),
    }
}

/// The device that is drawn on: the one chosen, or a raster image.
pub open spec fn terminal_or_default(terminal: Option<Terminal>) -> Terminal {
    match terminal {
        Some(chosen) => chosen,
        None => Terminal::Png,
    }
}

/// The part of the terminal directive that gives the canvas its size.
pub open spec fn size_clause(size: Option<(usize, usize)>) -> Seq<u8> {
    match size {
        Some((width, height)) => text(" dashed size ") + decimal(width as nat) + text(", ")
            + decimal(height as nat),
        None => Seq::empty(),
    }
}

/// The part of the terminal directive that names the font.
pub open spec fn font_clause(font: Option<Seq<char>>) -> Seq<u8> {
    match font {
        Some(name) => text(" font '") + utf8(name) + text("'"),
        None => Seq::empty(),
    }
}

/// The directive for the terminal, which is always written.
pub open spec fn terminal_directive(
    terminal: Option<Terminal>,
    size: Option<(usize, usize)>,
    font: Option<Seq<char>>,
) -> Seq<u8> {
    text("set terminal ") + text(terminal_or_default(terminal).keyword()) + size_clause(size)
        + font_clause(font) + text("\n")
}

/// The directive for the figure's title.
pub open spec fn title_directive(title: Option<Seq<char>>) -> Seq<u8> {
    match title {
        Some(words) => text("set title \"") + utf8(words) + text("\"\n"),
        None => Seq::empty(),
    }
}

/// The words that open the directive for an axis' label.
pub open spec fn label_opening(axis: Axis) -> &'static str {
    match axis {
        Axis::X => "set xlabel \"",
        Axis::Y => "set ylabel \"",
    }
}

/// The directive for an axis' label.
pub open spec fn label_directive(axis: Axis, label: Option<Seq<char>>) -> Seq<u8> {
    match label {
        Some(words) => text(label_opening(axis)) + utf8(words) + text("\"\n"),
        None => Seq::empty(),
    }
}

/// Whether a range runs downwards: its lower bound, as given, is greater than
/// its upper bound.
pub open spec fn reversed(range: (NumberView, NumberView)) -> bool {
    less(range.1.bits, range.0.bits)
}

/// The bounds of a range in the order in which its directive lists them: the
/// given order, or the opposite one for a range that runs downwards.
pub open spec fn listed(range: (NumberView, NumberView)) -> (NumberView, NumberView) {
    if reversed(range) {
        (range.1, range.0)
    } else {
        range
    }
}

/// The words that open the directive for an axis' range.
pub open spec fn range_opening(axis: Axis) -> &'static str {
    match axis {
        Axis::X => "set xrange [",
        Axis::Y => "set yrange [",
    }
}

/// The words that close the directive for a range.
pub open spec fn range_closing(range: (NumberView, NumberView)) -> &'static str {
    if reversed(range) {
        "] reverse\n"
    } else {
        "]\n"
    }
}

/// The directive for an axis' range.  It lists the bounds in ascending order
/// and marks a range that runs downwards as reversed.  A range whose bounds
/// are equal, or one with a bound that is not a number, is written as given
/// and without the mark.
pub open spec fn range_directive(axis: Axis, range: Option<(NumberView, NumberView)>) -> Seq<u8> {
    match range {
        Some(bounds) => text(range_opening(axis)) + utf8(listed(bounds).0.text) + text(":")
            + utf8(listed(bounds).1.text) + text(range_closing(bounds)),
        None => Seq::empty(),
    }
}

/// One entry of a tick table: the label in quotes, then the position.
pub open spec fn tic_entry(tic: (Seq<char>, Seq<char>)) -> Seq<u8> {
    text("\"") + utf8(tic.0) + text("\" ") + utf8(tic.1)
}

/// The entries of a tick table, each as it is written.
pub open spec fn tic_entries(tics: Seq<(Seq<char>, Seq<char>)>) -> Seq<Seq<u8>> {
    tics.map_values(|tic: (Seq<char>, Seq<char>)| tic_entry(tic))
}

/// The words that open the directive for an axis' tick table.
pub open spec fn tics_opening(axis: Axis) -> &'static str {
    match axis {
        Axis::X => "set xtics (",
        Axis::Y => "set ytics (",
    }
}

/// The directive for an axis' tick table: its entries in order, in round
/// brackets, with a comma and a blank between each two.
pub open spec fn tics_directive(axis: Axis, tics: Option<Seq<(Seq<char>, Seq<char>)>>) -> Seq<u8> {
    match tics {
        Some(table) => text(tics_opening(axis)) + joined(tic_entries(table), text(", ")) + text(
            ")\n",
        ),
        None => Seq::empty(),
    }
}

/// What stands for a series' samples in the `plot` statement: the mark that
/// they follow inline.
pub open spec fn placeholder() -> Seq<u8> {
    text(" '-'")
}

/// The clauses of the `plot` statement, one for each series in order: the
/// placeholder, then the series' own clause.
pub open spec fn plot_clauses(lines: Seq<LineView>) -> Seq<Seq<u8>> {
    lines.map_values(|line: LineView| placeholder() + line.args)
}

/// The `plot` statement.
pub open spec fn plot_statement(lines: Seq<LineView>) -> Seq<u8> {
    text("plot") + plot_clauses(lines).flatten() + text("\n")
}

/// The blocks of all series, in the order of their clauses.
pub open spec fn data_blocks(lines: Seq<LineView>) -> Seq<u8> {
    lines.map_values(|line: LineView| line.data).flatten()
}

/// The directives of a figure, in the order in which they are written.
pub open spec fn directives(figure: FigureView) -> Seq<u8> {
    logscale_directive(figure.logscale) + output_directive(figure.output) + terminal_directive(
        figure.terminal,
        figure.size,
        figure.font,
    ) + title_directive(figure.title) + label_directive(Axis::X, figure.xlabel) + range_directive(
        Axis::X,
        figure.xrange,
    ) + tics_directive(Axis::X, figure.xtics) + label_directive(Axis::Y, figure.ylabel)
        + range_directive(Axis::Y, figure.yrange) + tics_directive(Axis::Y, figure.ytics)
}

/// The script of a figure: its directives, its `plot` statement, its blocks.
pub open spec fn script(figure: FigureView) -> Seq<u8> {
    directives(figure) + plot_statement(figure.lines) + data_blocks(figure.lines)
}

/// What rendering a figure gives: its script, or the reason why it has none.
/// A figure without an output file has none, and neither has one without
/// series; the missing output file is reported first.
pub open spec fn rendering(figure: FigureView) -> Result<Seq<u8>, FigureError> {
    if figure.output is None {
        Err(FigureError::Configuration)
    } else if figure.lines.len() == 0 {
        Err(FigureError::EmptyPlot)
    } else {
        Ok(script(figure))
    }
}

/// The clause that one styling choice adds to its series.
pub open spec fn option_clause(option: PlotOptionView) -> Seq<u8> {
    match option {
        PlotOptionView::LineType(pattern) => text(" lt ") + decimal(pattern.code() as nat),
        PlotOptionView::PointType(symbol) => text(" pt ") + decimal(symbol.code() as nat),
        PlotOptionView::Title(words) => text(" title \"") + utf8(words) + text("\""),
    }
}

/// The clauses of a series' styling choices, in the order of the choices.
pub open spec fn option_clauses(options: Seq<PlotOptionView>) -> Seq<u8> {
    options.map_values(|option: PlotOptionView| option_clause(option)).flatten()
}

/// Whether one of the styling choices is a title.
pub open spec fn has_title(options: Seq<PlotOptionView>) -> bool {
    exists|i: int| 0 <= i < options.len() && options[i] is Title
}

/// What a series says of its title where no choice gives it one.
pub open spec fn title_marker(options: Seq<PlotOptionView>) -> Seq<u8> {
    if has_title(options) {
        Seq::empty()
    } else {
        text(" notitle")
    }
}

/// The part of a series' clause that describes its block: the byte order,
/// the number of records, the format of a value, the columns used, and the
/// kind of plot.
pub open spec fn series_layout(records: nat, using: &str, kind: &str) -> Seq<u8> {
    text(" binary endian=little") + text(" record=") + decimal(records) + text(
        " format=\"%float64\"",
    ) + text(using) + text(" with ") + text(kind)
}

/// The clause of a series: the layout of its block, the styling choices, the
/// title marker, and the comma that ends the clause.
pub open spec fn series_args(
    records: nat,
    using: &str,
    kind: &str,
    options: Seq<PlotOptionView>,
) -> Seq<u8> {
    series_layout(records, using, kind) + option_clauses(options) + title_marker(options) + text(
        ",",
    )
}

/// The smaller of two lengths.
pub open spec fn shorter(a: nat, b: nat) -> nat {
    if a <= b {
        a
    } else {
        b
    }
}

/// The records of a plain series: for each position that both inputs reach,
/// the two doubles there, packed.  What the longer input holds beyond the
/// shorter one is left out.
pub open spec fn pair_records(xs: Seq<u64>, ys: Seq<u64>) -> Seq<Seq<u8>> {
    Seq::new(shorter(xs.len(), ys.len()), |i: int| le_bytes(xs[i]) + le_bytes(ys[i]))
}

/// The records of a series with error bars: for each position that all four
/// inputs reach, the four doubles there, packed.
pub open spec fn quad_records(
    xs: Seq<u64>,
    ys: Seq<u64>,
    lows: Seq<u64>,
    highs: Seq<u64>,
) -> Seq<Seq<u8>> {
    Seq::new(
        shorter(shorter(xs.len(), ys.len()), shorter(lows.len(), highs.len())),
        |i: int| le_bytes(xs[i]) + le_bytes(ys[i]) + le_bytes(lows[i]) + le_bytes(highs[i]),
    )
}

/// The series that holds the given records of `columns` doubles each.
pub open spec fn series(
    records: Seq<Seq<u8>>,
    columns: nat,
    using: &str,
    kind: &str,
    options: Seq<PlotOptionView>,
) -> LineView {
    LineView {
        args: series_args(records.len(), using, kind, options),
        data: records.flatten(),
        records: records.len(),
        columns,
    }
}

/// The series that a plain plot of `xs` against `ys` adds.
pub open spec fn plain_series(
    plot_type: PlotType,
    xs: Seq<u64>,
    ys: Seq<u64>,
    options: Seq<PlotOptionView>,
) -> LineView {
    series(pair_records(xs, ys), 2, " using 1:2", plot_type.keyword(), options)
}

/// The series that a plot with error bars of the given kind adds.
pub open spec fn errorbar_series(
    kind: &str,
    xs: Seq<u64>,
    ys: Seq<u64>,
    lows: Seq<u64>,
    highs: Seq<u64>,
    options: Seq<PlotOptionView>,
) -> LineView {
    series(quad_records(xs, ys, lows, highs), 4, " using 1:2:3:4", kind, options)
}

/// The tick table made of labels and positions: for each place that both
/// inputs reach, the label there and the text of the position there.
pub open spec fn tics_table(labels: Seq<&str>, positions: Seq<Number>) -> Seq<
    (Seq<char>, Seq<char>),
> {
    Seq::new(shorter(labels.len(), positions.len()), |i: int| (labels[i]@, positions[i]@.text))
}

/// Styling choices as contracts see them.
pub open spec fn options_view(options: Seq<PlotOption>) -> Seq<PlotOptionView> {
    options.map_values(|option: PlotOption| option@)
}

/// A figure with an output file and at least one series has a script, and the
/// `plot` statement of that script holds one clause for each series: there
/// are as many clauses as series, and the clause at each place is the
/// placeholder followed by the clause of the series at that place.
pub proof fn lemma_one_clause_per_series(figure: FigureView)
    requires
        figure.output is Some,
        figure.lines.len() >= 1,
    ensures
        rendering(figure) == Ok::<Seq<u8>, FigureError>(script(figure)),
        script(figure) == directives(figure) + (text("plot") + plot_clauses(figure.lines).flatten()
            + text("\n")) + data_blocks(figure.lines),
        plot_clauses(figure.lines).len() == figure.lines.len(),
        forall|i: int|
            0 <= i < figure.lines.len() ==> #[trigger] plot_clauses(figure.lines)[i]
                == placeholder() + figure.lines[i].args,
{
}

/// A figure without an output file has no script, whatever else it holds, and
/// one with an output file and without series has none either.
pub proof fn lemma_nothing_to_render(figure: FigureView)
    ensures
        figure.output is None ==> rendering(figure) == Err::<Seq<u8>, FigureError>(
            FigureError::Configuration,
        ),
        figure.output is Some && figure.lines.len() == 0 ==> rendering(figure) == Err::<
            Seq<u8>,
            FigureError,
        >(FigureError::EmptyPlot),
{
}

/// A range whose lower bound is less than its upper bound is written with
/// the bounds as given and without the mark; one whose lower bound is greater
/// than its upper bound is written with the bounds exchanged and with the
/// mark.  Either way, and for every other range too, the bound written second
/// is not less than the bound written first.
pub proof fn lemma_range_ascending(axis: Axis, low: NumberView, high: NumberView)
    ensures
        less(low.bits, high.bits) ==> range_directive(axis, Some((low, high))) == text(
            range_opening(axis),
        ) + utf8(low.text) + text(":") + utf8(high.text) + text("]\n"),
        less(high.bits, low.bits) ==> range_directive(axis, Some((low, high))) == text(
            range_opening(axis),
        ) + utf8(high.text) + text(":") + utf8(low.text) + text("] reverse\n"),
        !less(listed((low, high)).1.bits, listed((low, high)).0.bits),
{
    crate::number::lemma_less_strict_order(low.bits, high.bits, low.bits);
}

/// A plain series holds as many records as the shorter of its two inputs has
/// doubles; each record is the two doubles at its place, eight bytes each,
/// `x` first; and the block is as long as its records together.
pub proof fn lemma_pair_records(xs: Seq<u64>, ys: Seq<u64>)
    ensures
        pair_records(xs, ys).len() == shorter(xs.len(), ys.len()),
        pair_records(xs, ys).len() <= xs.len() && pair_records(xs, ys).len() <= ys.len(),
        forall|i: int|
            0 <= i < pair_records(xs, ys).len() ==> #[trigger] pair_records(xs, ys)[i] == le_bytes(
                xs[i],
            ) + le_bytes(ys[i]),
        pair_records(xs, ys).flatten().len() == 16 * pair_records(xs, ys).len(),
{
    let records = pair_records(xs, ys);
    assert forall|i: int| 0 <= i < records.len() implies (#[trigger] records[i]).len() == 16 by {
        assert(le_bytes(xs[i]).len() == 8 && le_bytes(ys[i]).len() == 8);
    }
    lemma_flatten_uniform(records, 16);
}

/// A series with error bars holds as many records as the shortest of its
/// four inputs has doubles; each record is the four doubles at its place,
/// eight bytes each, in the order of the inputs; and the block is as long as
/// its records together.
pub proof fn lemma_quad_records(xs: Seq<u64>, ys: Seq<u64>, lows: Seq<u64>, highs: Seq<u64>)
    ensures
        quad_records(xs, ys, lows, highs).len() == shorter(
            shorter(xs.len(), ys.len()),
            shorter(lows.len(), highs.len()),
        ),
        forall|i: int|
            0 <= i < quad_records(xs, ys, lows, highs).len() ==> #[trigger] quad_records(
                xs,
                ys,
                lows,
                highs,
            )[i] == le_bytes(xs[i]) + le_bytes(ys[i]) + le_bytes(lows[i]) + le_bytes(highs[i]),
        quad_records(xs, ys, lows, highs).flatten().len() == 32 * quad_records(
            xs,
            ys,
            lows,
            highs,
        ).len(),
{
    let records = quad_records(xs, ys, lows, highs);
    assert forall|i: int| 0 <= i < records.len() implies (#[trigger] records[i]).len() == 32 by {
        assert(le_bytes(xs[i]).len() == 8 && le_bytes(ys[i]).len() == 8);
        assert(le_bytes(lows[i]).len() == 8 && le_bytes(highs[i]).len() == 8);
    }
    lemma_flatten_uniform(records, 32);
}

/// A series without a title among its styling choices ends its clause with
/// the no-title marker and the closing comma.  A series with a title has no
/// such marker: after the clauses of its choices comes the comma.  And each
/// choice of a title stands among those clauses with the title's text in
/// quotes, after the clauses of the choices before it and before the clauses
/// of the choices after it.
pub proof fn lemma_title_marker(
    records: nat,
    using: &str,
    kind: &str,
    options: Seq<PlotOptionView>,
)
    ensures
        !has_title(options) ==> series_args(records, using, kind, options) == series_layout(
            records,
            using,
            kind,
        ) + option_clauses(options) + text(" notitle") + text(","),
        has_title(options) ==> series_args(records, using, kind, options) == series_layout(
            records,
            using,
            kind,
        ) + option_clauses(options) + text(","),
        forall|i: int|
            0 <= i < options.len() && (#[trigger] options[i]) is Title ==> option_clauses(options)
                == option_clauses(options.take(i)) + (text(" title \"") + utf8(
                options[i]->Title_0,
            ) + text("\"")) + option_clauses(options.skip(i + 1)),
{
    assert forall|i: int| 0 <= i < options.len() && (#[trigger] options[i]) is Title implies
        option_clauses(options) == option_clauses(options.take(i)) + (text(" title \"") + utf8(
        options[i]->Title_0,
    ) + text("\"")) + option_clauses(options.skip(i + 1)) by {
        let clause = |option: PlotOptionView| option_clause(option);
        let before = options.take(i).map_values(clause);
        let one = seq![option_clause(options[i])];
        let after = options.skip(i + 1).map_values(clause);
        assert(options.map_values(clause) =~= before + one + after);
        vstd::seq_lib::lemma_flatten_concat(before + one, after);
        vstd::seq_lib::lemma_flatten_concat(before, one);
        one.lemma_flatten_singleton();
    }
}

/// Records of one length flatten to as many bytes as their number times
/// that length.
proof fn lemma_flatten_uniform(parts: Seq<Seq<u8>>, width: nat)
    requires
        forall|i: int| 0 <= i < parts.len() ==> (#[trigger] parts[i]).len() == width,
    ensures
        parts.flatten().len() == width * parts.len(),
    decreases parts.len(),
{
    if parts.len() == 0 {
    } else {
        let rest = parts.drop_last();
        lemma_flatten_uniform(rest, width);
        assert(parts =~= rest.push(parts.last()));
        rest.lemma_flatten_push(parts.last());
        assert(width * parts.len() == width * rest.len() + width) by (nonlinear_arith)
            requires
                parts.len() == rest.len() + 1,
        ;
    }
}

} // verus!
