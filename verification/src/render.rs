//! Writing a script.
//!
//! Each part of a script is written into a buffer of its own, piece after
//! piece in the order in which the format names the pieces, and the parts are
//! then put together in the same way.

use vstd::prelude::*;
use vstd::seq_lib::lemma_concat_associative;
use crate::figure::entries_view;
use crate::figure::lines_view;
use crate::figure::range_view;
use crate::figure::text_view;
use crate::figure::tics_view;
use crate::line::Line;
use crate::line::LineView;
use crate::number::Number;
use crate::number::le_bytes;
use crate::number::put_le;
use crate::option::PlotOption;
use crate::option::PlotOptionView;
use crate::script::Axis;
use crate::script::data_blocks;
use crate::script::font_clause;
use crate::script::has_title;
use crate::script::joined;
use crate::script::label_directive;
use crate::script::lemma_pair_records;
use crate::script::lemma_quad_records;
use crate::script::logscale_directive;
use crate::script::option_clause;
use crate::script::options_view;
use crate::script::output_directive;
use crate::script::pair_records;
use crate::script::plot_clauses;
use crate::script::plot_statement;
use crate::script::quad_records;
use crate::script::range_directive;
use crate::script::series_args;
use crate::script::size_clause;
use crate::script::terminal_directive;
use crate::script::tic_entries;
use crate::script::tic_entry;
use crate::script::tics_directive;
use crate::script::title_directive;
use crate::script::title_marker;
use crate::terminal::Terminal;
use crate::text::put_bytes;
use crate::text::put_decimal;
use crate::text::put_str;
use crate::text::put_string;
use crate::text::str_bytes;
use crate::text::text;

verus! {

/// Flattening one part more appends that part.
proof fn lemma_flatten_step(parts: Seq<Seq<u8>>, i: int)
    requires
        0 <= i < parts.len(),
    ensures
        parts.take(i + 1).flatten() == parts.take(i).flatten() + parts[i],
{
    assert(parts.take(i + 1) =~= parts.take(i).push(parts[i]));
    parts.take(i).lemma_flatten_push(parts[i]);
}

/// Nothing flattens to nothing, and all parts are all parts.
proof fn lemma_flatten_ends(parts: Seq<Seq<u8>>)
    ensures
        parts.take(0).flatten() == Seq::<u8>::empty(),
        parts.take(parts.len() as int) == parts,
{
    assert(parts.take(0) =~= Seq::<Seq<u8>>::empty());
    assert(parts.take(parts.len() as int) =~= parts);
}

/// After a part has been appended to what was flattened before it, one part
/// more is flattened.
proof fn lemma_flatten_appended(base: Seq<u8>, parts: Seq<Seq<u8>>, i: int)
    requires
        0 <= i < parts.len(),
    ensures
        (base + parts.take(i).flatten()) + parts[i] == base + parts.take(i + 1).flatten(),
{
    lemma_flatten_step(parts, i);
    lemma_concat_associative(base, parts.take(i).flatten(), parts[i]);
}

/// Joining one part more, which is not the first, appends the separator and
/// the part.
proof fn lemma_joined_step(parts: Seq<Seq<u8>>, separator: Seq<u8>, i: int)
    requires
        1 <= i < parts.len(),
    ensures
        joined(parts.take(i + 1), separator) == joined(parts.take(i), separator) + separator
            + parts[i],
{
    assert(parts.take(i + 1).drop_last() =~= parts.take(i));
}

/// The directive for logarithmic scales.
pub(crate) fn render_logscale(axes: Option<(bool, bool)>) -> (bytes: Vec<u8>)
    ensures
        bytes@ == logscale_directive(axes),
{
    match axes {
        Some((true, true)) => str_bytes("set logscale xy\n"),
        Some((true, false)) => str_bytes("set logscale x\n"),
        Some((false, true)) => str_bytes("set logscale y\n"),
        _ => Vec::new(),
    }
}

/// The directive for the output file.
pub(crate) fn render_output(output: &Option<String>) -> (bytes: Vec<u8>)
    ensures
        bytes@ == output_directive(text_view(*output)),
{
    match output {
        Some(path) => {
            let mut bytes = str_bytes("set output \"");
            put_string(&mut bytes, path);
            put_str(&mut bytes, "\"\n");
            bytes
        },
        None => Vec::new(),
    }
}

/// The part of the terminal directive that gives the canvas its size.
pub(crate) fn render_size(size: Option<(usize, usize)>) -> (bytes: Vec<u8>)
    ensures
        bytes@ == size_clause(size),
{
    match size {
        Some((width, height)) => {
            let mut bytes = str_bytes(" dashed size ");
            put_decimal(&mut bytes, width);
            put_str(&mut bytes, ", ");
            put_decimal(&mut bytes, height);
            bytes
        },
        None => Vec::new(),
    }
}

/// The part of the terminal directive that names the font.
pub(crate) fn render_font(font: &Option<String>) -> (bytes: Vec<u8>)
    ensures
        bytes@ == font_clause(text_view(*font)),
{
    match font {
        Some(name) => {
            let mut bytes = str_bytes(" font '");
            put_string(&mut bytes, name);
            put_str(&mut bytes, "'");
            bytes
        },
        None => Vec::new(),
    }
}

/// The directive for the terminal.
pub(crate) fn render_terminal(
    terminal: Option<Terminal>,
    size: Option<(usize, usize)>,
    font: &Option<String>,
) -> (bytes: Vec<u8>)
    ensures
        bytes@ == terminal_directive(terminal, size, text_view(*font)),
{
    let device = match terminal {
        Some(chosen) => chosen,
        None => Terminal::Png,
    };
    let size_part = render_size(size);
    let font_part = render_font(font);
    let mut bytes = str_bytes("set terminal ");
    put_str(&mut bytes, device.keyword());
    put_bytes(&mut bytes, size_part.as_slice());
    put_bytes(&mut bytes, font_part.as_slice());
    put_str(&mut bytes, "\n");
    bytes
}

/// The directive for the figure's title.
pub(crate) fn render_title(title: &Option<String>) -> (bytes: Vec<u8>)
    ensures
        bytes@ == title_directive(text_view(*title)),
{
    match title {
        Some(words) => {
            let mut bytes = str_bytes("set title \"");
            put_string(&mut bytes, words);
            put_str(&mut bytes, "\"\n");
            bytes
        },
        None => Vec::new(),
    }
}

/// The directive for an axis' label.
pub(crate) fn render_label(axis: Axis, label: &Option<String>) -> (bytes: Vec<u8>)
    ensures
        bytes@ == label_directive(axis, text_view(*label)),
{
    match label {
        Some(words) => {
            let mut bytes = match axis {
                Axis::X => str_bytes("set xlabel \""),
                Axis::Y => str_bytes("set ylabel \""),
            };
            put_string(&mut bytes, words);
            put_str(&mut bytes, "\"\n");
            bytes
        },
        None => Vec::new(),
    }
}

/// The directive for an axis' range.
pub(crate) fn render_range(axis: Axis, range: &Option<(Number, Number)>) -> (bytes: Vec<u8>)
    ensures
        bytes@ == range_directive(axis, range_view(*range)),
{
    match range {
        Some((low, high)) => {
            let mut bytes = match axis {
                Axis::X => str_bytes("set xrange ["),
                Axis::Y => str_bytes("set yrange ["),
            };
            if high.less_than(low) {
                put_string(&mut bytes, &high.text);
                put_str(&mut bytes, ":");
                put_string(&mut bytes, &low.text);
                put_str(&mut bytes, "] reverse\n");
            } else {
                put_string(&mut bytes, &low.text);
                put_str(&mut bytes, ":");
                put_string(&mut bytes, &high.text);
                put_str(&mut bytes, "]\n");
            }
            bytes
        },
        None => Vec::new(),
    }
}

/// One entry of a tick table.
pub(crate) fn render_tic(tic: &(String, String)) -> (bytes: Vec<u8>)
    ensures
        bytes@ == tic_entry((tic.0@, tic.1@)),
{
    let mut bytes = str_bytes("\"");
    put_string(&mut bytes, &tic.0);
    put_str(&mut bytes, "\" ");
    put_string(&mut bytes, &tic.1);
    bytes
}

/// The entries of a tick table with a comma and a blank between each two.
pub(crate) fn render_tic_list(table: &Vec<(String, String)>) -> (bytes: Vec<u8>)
    ensures
        bytes@ == joined(tic_entries(entries_view(table@)), text(", ")),
{
    let ghost entries = tic_entries(entries_view(table@));
    if table.len() == 0 {
        return Vec::new();
    }
    let mut bytes = render_tic(&table[0]);
    let mut i: usize = 1;
    proof {
        assert(entries.take(1).len() == 1);
        assert(entries.take(1)[0] == entries[0]);
    }
    while i < table.len()
        invariant
            1 <= i <= table.len(),
            entries == tic_entries(entries_view(table@)),
            bytes@ == joined(entries.take(i as int), text(", ")),
        decreases table.len() - i,
    {
        let entry = render_tic(&table[i]);
        put_str(&mut bytes, ", ");
        put_bytes(&mut bytes, entry.as_slice());
        proof {
            lemma_joined_step(entries, text(", "), i as int);
        }
        i += 1;
    }
    proof {
        assert(entries.take(table.len() as int) =~= entries);
    }
    bytes
}

/// The directive for an axis' tick table.
pub(crate) fn render_tics(axis: Axis, tics: &Option<Vec<(String, String)>>) -> (bytes: Vec<u8>)
    ensures
        bytes@ == tics_directive(axis, tics_view(*tics)),
{
    match tics {
        Some(table) => {
            let list = render_tic_list(table);
            let mut bytes = match axis {
                Axis::X => str_bytes("set xtics ("),
                Axis::Y => str_bytes("set ytics ("),
            };
            put_bytes(&mut bytes, list.as_slice());
            put_str(&mut bytes, ")\n");
            bytes
        },
        None => Vec::new(),
    }
}

/// The `plot` statement.
pub(crate) fn render_plot_statement(lines: &Vec<Line>) -> (bytes: Vec<u8>)
    ensures
        bytes@ == plot_statement(lines_view(lines@)),
{
    let ghost clauses = plot_clauses(lines_view(lines@));
    let mut bytes = str_bytes("plot");
    let mut i: usize = 0;
    proof {
        lemma_flatten_ends(clauses);
        assert(text("plot") + Seq::<u8>::empty() =~= text("plot"));
    }
    while i < lines.len()
        invariant
            i <= lines.len(),
            clauses == plot_clauses(lines_view(lines@)),
            bytes@ == text("plot") + clauses.take(i as int).flatten(),
        decreases lines.len() - i,
    {
        let mut clause = str_bytes(" '-'");
        put_bytes(&mut clause, lines[i].args().as_slice());
        put_bytes(&mut bytes, clause.as_slice());
        proof {
            lemma_flatten_appended(text("plot"), clauses, i as int);
        }
        i += 1;
    }
    proof {
        lemma_flatten_ends(clauses);
    }
    put_str(&mut bytes, "\n");
    bytes
}

/// Appends the blocks of all series.
pub(crate) fn put_data_blocks(out: &mut Vec<u8>, lines: &Vec<Line>)
    ensures
        final(out)@ == old(out)@ + data_blocks(lines_view(lines@)),
{
    let ghost blocks = lines_view(lines@).map_values(|line: LineView| line.data);
    let mut i: usize = 0;
    proof {
        lemma_flatten_ends(blocks);
        assert(out@ + Seq::<u8>::empty() =~= out@);
    }
    while i < lines.len()
        invariant
            i <= lines.len(),
            blocks == lines_view(lines@).map_values(|line: LineView| line.data),
            out@ == old(out)@ + blocks.take(i as int).flatten(),
        decreases lines.len() - i,
    {
        put_bytes(out, lines[i].data().as_slice());
        proof {
            lemma_flatten_appended(old(out)@, blocks, i as int);
        }
        i += 1;
    }
    proof {
        lemma_flatten_ends(blocks);
    }
}

/// Packs the records of a plain series and counts them.
pub(crate) fn pack_pairs(xs: &[u64], ys: &[u64]) -> (packed: (Vec<u8>, usize))
    ensures
        packed.0@ == pair_records(xs@, ys@).flatten(),
        packed.1 == pair_records(xs@, ys@).len(),
        packed.0@.len() == 8 * 2 * packed.1,
{
    let count = if xs.len() <= ys.len() {
        xs.len()
    } else {
        ys.len()
    };
    let ghost records = pair_records(xs@, ys@);
    let mut data: Vec<u8> = Vec::new();
    let mut i: usize = 0;
    proof {
        lemma_flatten_ends(records);
    }
    while i < count
        invariant
            i <= count,
            count == records.len(),
            count <= xs.len(),
            count <= ys.len(),
            records == pair_records(xs@, ys@),
            data@ == records.take(i as int).flatten(),
        decreases count - i,
    {
        put_le(&mut data, xs[i]);
        put_le(&mut data, ys[i]);
        proof {
            let (x, y) = (le_bytes(xs@[i as int]), le_bytes(ys@[i as int]));
            lemma_concat_associative(records.take(i as int).flatten(), x, y);
            lemma_flatten_step(records, i as int);
        }
        i += 1;
    }
    proof {
        lemma_flatten_ends(records);
        lemma_pair_records(xs@, ys@);
    }
    (data, count)
}

/// Packs the records of a series with error bars and counts them.
pub(crate) fn pack_quads(xs: &[u64], ys: &[u64], lows: &[u64], highs: &[u64]) -> (packed: (
    Vec<u8>,
    usize,
))
    ensures
        packed.0@ == quad_records(xs@, ys@, lows@, highs@).flatten(),
        packed.1 == quad_records(xs@, ys@, lows@, highs@).len(),
        packed.0@.len() == 8 * 4 * packed.1,
{
    let first = if xs.len() <= ys.len() {
        xs.len()
    } else {
        ys.len()
    };
    let second = if lows.len() <= highs.len() {
        lows.len()
    } else {
        highs.len()
    };
    let count = if first <= second {
        first
    } else {
        second
    };
    let ghost records = quad_records(xs@, ys@, lows@, highs@);
    let mut data: Vec<u8> = Vec::new();
    let mut i: usize = 0;
    proof {
        lemma_flatten_ends(records);
    }
    while i < count
        invariant
            i <= count,
            count == records.len(),
            count <= xs.len(),
            count <= ys.len(),
            count <= lows.len(),
            count <= highs.len(),
            records == quad_records(xs@, ys@, lows@, highs@),
            data@ == records.take(i as int).flatten(),
        decreases count - i,
    {
        put_le(&mut data, xs[i]);
        put_le(&mut data, ys[i]);
        put_le(&mut data, lows[i]);
        put_le(&mut data, highs[i]);
        proof {
            let (x, y) = (le_bytes(xs@[i as int]), le_bytes(ys@[i as int]));
            let (low, high) = (le_bytes(lows@[i as int]), le_bytes(highs@[i as int]));
            let packed = records.take(i as int).flatten();
            lemma_concat_associative(packed, x, y);
            lemma_concat_associative(packed, x + y, low);
            lemma_concat_associative(packed, x + y + low, high);
            lemma_flatten_step(records, i as int);
        }
        i += 1;
    }
    proof {
        lemma_flatten_ends(records);
        lemma_quad_records(xs@, ys@, lows@, highs@);
    }
    (data, count)
}

/// The clause that one styling choice adds to its series.
pub(crate) fn render_option(option: &PlotOption) -> (bytes: Vec<u8>)
    ensures
        bytes@ == option_clause(option@),
{
    match option {
        PlotOption::LineType(pattern) => {
            let mut bytes = str_bytes(" lt ");
            put_decimal(&mut bytes, pattern.code() as usize);
            bytes
        },
        PlotOption::PointType(symbol) => {
            let mut bytes = str_bytes(" pt ");
            put_decimal(&mut bytes, symbol.code() as usize);
            bytes
        },
        PlotOption::Title(words) => {
            let mut bytes = str_bytes(" title \"");
            put_str(&mut bytes, words);
            put_str(&mut bytes, "\"");
            bytes
        },
    }
}

/// Whether a styling choice is a title.
pub(crate) fn is_title(option: &PlotOption) -> (r: bool)
    ensures
        r == (option@ is Title),
{
    match option {
        PlotOption::Title(_) => true,
        _ => false,
    }
}

/// The clause of a series.
pub(crate) fn render_series_args(
    records: usize,
    using: &str,
    kind: &str,
    options: &[PlotOption],
) -> (args: Vec<u8>)
    ensures
        args@ == series_args(records as nat, using, kind, options_view(options@)),
{
    let mut args = str_bytes(" binary endian=little");
    put_str(&mut args, " record=");
    put_decimal(&mut args, records);
    put_str(&mut args, " format=\"%float64\"");
    put_str(&mut args, using);
    put_str(&mut args, " with ");
    put_str(&mut args, kind);
    let ghost layout = args@;
    let ghost choices = options_view(options@);
    let ghost clauses = choices.map_values(|option: PlotOptionView| option_clause(option));
    let mut titled = false;
    let mut i: usize = 0;
    proof {
        lemma_flatten_ends(clauses);
        assert(layout + Seq::<u8>::empty() =~= layout);
        assert(choices.take(0) =~= Seq::<PlotOptionView>::empty());
    }
    while i < options.len()
        invariant
            i <= options.len(),
            choices == options_view(options@),
            clauses == choices.map_values(|option: PlotOptionView| option_clause(option)),
            args@ == layout + clauses.take(i as int).flatten(),
            titled == has_title(choices.take(i as int)),
        decreases options.len() - i,
    {
        let clause = render_option(&options[i]);
        put_bytes(&mut args, clause.as_slice());
        if is_title(&options[i]) {
            titled = true;
        }
        proof {
            lemma_flatten_appended(layout, clauses, i as int);
            lemma_has_title_step(choices, i as int);
        }
        i += 1;
    }
    proof {
        lemma_flatten_ends(clauses);
        assert(choices.take(options.len() as int) =~= choices);
    }
    let marker = if titled {
        Vec::new()
    } else {
        str_bytes(" notitle")
    };
    assert(marker@ == title_marker(choices));
    put_bytes(&mut args, marker.as_slice());
    put_str(&mut args, ",");
    args
}

/// A title is among the first choices and one more exactly if it is among
/// the first or is that one.
proof fn lemma_has_title_step(options: Seq<PlotOptionView>, i: int)
    requires
        0 <= i < options.len(),
    ensures
        has_title(options.take(i + 1)) == (has_title(options.take(i)) || options[i] is Title),
{
    let longer = options.take(i + 1);
    let prefix = options.take(i);
    if has_title(prefix) {
        let j = choose|j: int| 0 <= j < prefix.len() && prefix[j] is Title;
        assert(longer[j] is Title);
    }
    if options[i] is Title {
        assert(longer[i] is Title);
    }
    if has_title(longer) {
        let j = choose|j: int| 0 <= j < longer.len() && longer[j] is Title;
        assert(j < i ==> prefix[j] is Title);
    }
}

} // verus!
