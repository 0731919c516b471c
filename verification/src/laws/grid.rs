//! What the paint plan of a grid shows: each glyph where its cell stands, in its
//! cell's own looks.
use vstd::prelude::*;
use vstd::utf8::encode_utf8;

use crate::terminal::view::{
    background_runs, background_runs_tile_the_row, bg_runs_from, cell_style, cells_runs, cells_text,
    color_paint, grid_size, indexed_rgb, indexed_rgb_for_theme, is_pinned, next_pinned, prepaint,
    resolve_color, segment_of, segment_views, segments_from, shape_row, shown_char, utf8_len, BgRun,
    Cell, CellColor, GridSnapshot, Segment, StyleRun, TerminalPrepaint, ANSI16_DARK, ANSI16_LIGHT,
    CUBE_LEVELS,
};
use crate::theme::{ColorScheme, Paint, Rgb, Theme};

verus! {

/// The level of a step of the color cube.
pub open spec fn cube_level(step: int) -> int {
    if step == 0 {
        0
    } else {
        55 + 40 * step
    }
}

/// Whether a color is the one of an index: a named color of the scheme, a corner
/// of the cube by its three digits, or a grey.
pub open spec fn is_indexed(ix: u8, scheme: ColorScheme, c: (u8, u8, u8)) -> bool {
    &&& ix < 16 && scheme is Dark ==> c == ANSI16_DARK[ix as int]
    &&& ix < 16 && scheme is Light ==> c == ANSI16_LIGHT[ix as int]
    &&& 16 <= ix < 232 ==> {
        let n = ix - 16;
        c.0 == cube_level(n / 36) && c.1 == cube_level(n / 6 % 6) && c.2 == cube_level(n % 6)
    }
    &&& ix >= 232 ==> c.0 == 8 + 10 * (ix - 232) && c.1 == c.0 && c.2 == c.0
}

/// Whether a paint is the one of a cell color under a theme.
pub open spec fn painted(color: CellColor, theme: Theme, p: Paint) -> bool {
    match color {
        CellColor::Rgb(r, g, b) => p == Paint::Solid(Rgb { r, g, b }),
        CellColor::Foreground => p == theme.text,
        CellColor::Background => match theme.scheme {
            ColorScheme::Dark => p == Paint::Solid(Rgb { r: 9, g: 9, b: 9 }),
            ColorScheme::Light => p == theme.bg,
        },
        CellColor::Indexed(ix) => p matches Paint::Solid(c) && is_indexed(
            ix,
            theme.scheme,
            (c.r, c.g, c.b),
        ),
    }
}

proof fn the_cube_has_six_levels()
    ensures
        forall|k: int| 0 <= k < 6 ==> #[trigger] CUBE_LEVELS[k] == cube_level(k),
{
    assert(CUBE_LEVELS[0] == 0 && CUBE_LEVELS[1] == 95 && CUBE_LEVELS[2] == 135 && CUBE_LEVELS[3]
        == 175 && CUBE_LEVELS[4] == 215 && CUBE_LEVELS[5] == 255);
}

proof fn the_color_of_an_index(ix: u8, scheme: ColorScheme)
    ensures
        is_indexed(ix, scheme, crate::terminal::view::indexed_color_for(ix, scheme)),
{
    the_cube_has_six_levels();
}

/// What a cell color is painted with.
pub proof fn colors_are_painted(color: CellColor, theme: &Theme, p: Paint)
    requires
        call_ensures(resolve_color, (color, theme), p),
    ensures
        painted(color, *theme, p),
{
    if let CellColor::Indexed(ix) = color {
        the_color_of_an_index(ix, theme.scheme);
    }
}

proof fn a_color_has_its_paint(color: CellColor, theme: Theme)
    ensures
        painted(color, theme, color_paint(color, theme)),
{
    if let CellColor::Indexed(ix) = color {
        the_color_of_an_index(ix, theme.scheme);
    }
}

/// The color of an index, with and without a theme: only the sixteen named
/// colors follow it.
pub proof fn indexed_colors(ix: u8, theme: &Theme, a: (u8, u8, u8), b: (u8, u8, u8))
    requires
        call_ensures(indexed_rgb, (ix,), a),
        call_ensures(indexed_rgb_for_theme, (ix, theme), b),
    ensures
        is_indexed(ix, ColorScheme::Dark, a),
        is_indexed(ix, theme.scheme, b),
        ix >= 16 || theme.scheme is Dark ==> a == b,
{
    the_color_of_an_index(ix, ColorScheme::Dark);
    the_color_of_an_index(ix, theme.scheme);
}

/// The number of glyphs in the columns `from..to`.
pub open spec fn glyphs_between(row: Seq<Cell>, from: int, to: int) -> int
    decreases to - from,
{
    if to <= from {
        0
    } else {
        glyphs_between(row, from, to - 1) + (if row[to - 1].wide_spacer {
            0int
        } else {
            1int
        })
    }
}

/// The number of bytes that the first `j` runs span.
pub open spec fn bytes_before(runs: Seq<StyleRun>, j: int) -> int
    decreases j,
{
    if j <= 0 {
        0
    } else {
        bytes_before(runs, j - 1) + runs[j - 1].len
    }
}

/// Whether a run spans the bytes of a character.
pub open spec fn spans(text: Seq<char>, runs: Seq<StyleRun>, c: int, j: int) -> bool {
    &&& 0 <= j < runs.len()
    &&& 0 <= c < text.len()
    &&& bytes_before(runs, j) <= encode_utf8(text.take(c)).len()
    &&& encode_utf8(text.take(c + 1)).len() <= bytes_before(runs, j + 1)
}

/// Whether a run has the looks of a cell.
pub open spec fn looks_like(run: StyleRun, cell: Cell, theme: Theme) -> bool {
    &&& painted(cell.fg, theme, run.style.paint)
    &&& run.style.dim == cell.dim
    &&& run.style.bold == cell.bold
    &&& run.style.italic == cell.italic
    &&& run.style.underline == cell.underline
}

/// Whether a segment shows the cell of a column: its glyph stands behind the
/// glyphs of the columns between, a run spans its bytes, and what spans them has
/// the looks of the cell. A glyph whose advance need not be one column stands
/// alone at its own.
pub open spec fn shows(s: Segment, row: Seq<Cell>, theme: Theme, i: int) -> bool {
    let c = glyphs_between(row, s.column as int, i);
    &&& s.column <= i
    &&& 0 <= c < s.text@.len()
    &&& s.text@[c] == (if row[i].hidden {
        ' '
    } else {
        row[i].ch
    })
    &&& exists|j: int| #[trigger] spans(s.text@, s.runs@, c, j)
    &&& forall|j: int| #[trigger]
        spans(s.text@, s.runs@, c, j) ==> looks_like(s.runs@[j], row[i], theme)
    &&& row[i].wide || s.text@[c] as int >= 0x80 ==> s.column == i && s.text@.len() == 1
}

proof fn one_more_character(s: Seq<char>, c: char)
    ensures
        encode_utf8(s.push(c)).len() == encode_utf8(s).len() + utf8_len(c),
    decreases s.len(),
{
    let t = s.push(c);
    if s.len() == 0 {
        assert(t.drop_first() =~= Seq::<char>::empty());
        assert(t[0] == c);
        assert(encode_utf8(t.drop_first()).len() == 0);
        vstd::utf8::char_is_scalar(c);
    } else {
        assert(t.drop_first() =~= s.drop_first().push(c));
        assert(t[0] == s[0]);
        one_more_character(s.drop_first(), c);
    }
}

proof fn same_bytes_before(a: Seq<StyleRun>, b: Seq<StyleRun>, j: int)
    requires
        forall|k: int| 0 <= k < j ==> a[k] == b[k],
    ensures
        bytes_before(a, j) == bytes_before(b, j),
    decreases j,
{
    if j > 0 {
        same_bytes_before(a, b, j - 1);
        assert(a[j - 1] == b[j - 1]);
    }
}

proof fn bytes_grow(runs: Seq<StyleRun>, i: int, j: int)
    requires
        0 <= i <= j,
    ensures
        0 <= bytes_before(runs, i) <= bytes_before(runs, j),
    decreases j,
{
    if j > i {
        bytes_grow(runs, i, j - 1);
    } else if i > 0 {
        bytes_grow(runs, i - 1, j - 1);
    }
}

/// The runs of some cells span their text.
proof fn runs_span_the_text(cells: Seq<Cell>, theme: Theme)
    requires
        4 * cells.len() <= usize::MAX,
    ensures
        ({
            let text = cells_text(cells);
            let runs = cells_runs(cells, theme);
            &&& bytes_before(runs, runs.len() as int) == encode_utf8(text).len()
            &&& encode_utf8(text).len() <= 4 * cells.len()
            &&& text.len() == glyphs_between(cells, 0, cells.len() as int)
        }),
    decreases cells.len(),
{
    if cells.len() > 0 {
        let rest = cells.drop_last();
        runs_span_the_text(rest, theme);
        same_glyphs(rest, cells, 0, rest.len() as int, 0);
        let before = cells_runs(rest, theme);
        let runs = cells_runs(cells, theme);
        if !cells.last().wide_spacer {
            let ch = shown_char(cells.last());
            one_more_character(cells_text(rest), ch);
            let n = before.len() as int;
            if n > 0 && before.last().style == cell_style(cells.last(), theme) {
                bytes_grow(before, 0, n - 1);
                assert(before.last().len <= encode_utf8(cells_text(rest)).len());
                same_bytes_before(before, runs, n - 1);
            } else {
                same_bytes_before(before, runs, n);
            }
        }
    }
}

proof fn same_glyphs(a: Seq<Cell>, b: Seq<Cell>, from: int, to: int, shift: int)
    requires
        forall|k: int| from <= k < to ==> a[k] == b[k + shift],
    ensures
        glyphs_between(a, from, to) == glyphs_between(b, from + shift, to + shift),
    decreases to - from,
{
    if from < to {
        same_glyphs(a, b, from, to - 1, shift);
        assert(a[to - 1] == b[to - 1 + shift]);
    }
}

proof fn glyphs_grow(row: Seq<Cell>, from: int, mid: int, to: int)
    requires
        from <= mid <= to,
    ensures
        0 <= glyphs_between(row, from, mid) <= glyphs_between(row, from, to),
    decreases to - from,
{
    if mid < to {
        glyphs_grow(row, from, mid, to - 1);
    } else if from < to {
        glyphs_grow(row, from, mid - 1, to - 1);
    }
}

/// A run spans each glyph of some cells, in the cell's style.
proof fn a_run_spans_each_glyph(cells: Seq<Cell>, theme: Theme, i: int) -> (j: int)
    requires
        4 * cells.len() <= usize::MAX,
        0 <= i < cells.len(),
        !cells[i].wide_spacer,
    ensures
        ({
            let text = cells_text(cells);
            let runs = cells_runs(cells, theme);
            let c = glyphs_between(cells, 0, i);
            &&& spans(text, runs, c, j)
            &&& text[c] == shown_char(cells[i])
            &&& runs[j].style == cell_style(cells[i], theme)
        }),
    decreases cells.len(),
{
    let rest = cells.drop_last();
    let before = cells_runs(rest, theme);
    let runs = cells_runs(cells, theme);
    let had = cells_text(rest);
    let text = cells_text(cells);
    let n = before.len() as int;
    let last = cells.last();
    runs_span_the_text(rest, theme);
    runs_span_the_text(cells, theme);
    same_glyphs(rest, cells, 0, i, 0);
    same_glyphs(rest, cells, 0, rest.len() as int, 0);
    let joins = n > 0 && before.last().style == cell_style(last, theme);
    if !last.wide_spacer {
        one_more_character(had, shown_char(last));
        if joins {
            bytes_grow(before, 0, n - 1);
            same_bytes_before(before, runs, n - 1);
        } else {
            same_bytes_before(before, runs, n);
        }
    }
    if i == rest.len() {
        let c = had.len() as int;
        assert(text.take(c) =~= had);
        assert(text.take(c + 1) =~= text);
        if joins {
            n - 1
        } else {
            n
        }
    } else {
        let j = a_run_spans_each_glyph(rest, theme, i);
        let c = glyphs_between(rest, 0, i);
        if last.wide_spacer {
        } else {
            assert(text.take(c) =~= had.take(c));
            assert(text.take(c + 1) =~= had.take(c + 1));
            if joins && j == n - 1 {
            } else if joins {
                same_bytes_before(before, runs, j);
                same_bytes_before(before, runs, j + 1);
            } else {
                same_bytes_before(before, runs, j);
                same_bytes_before(before, runs, j + 1);
            }
        }
        j
    }
}

/// No two runs span the same character.
proof fn one_run_spans_a_character(text: Seq<char>, runs: Seq<StyleRun>, c: int, j: int, k: int)
    requires
        spans(text, runs, c, j),
        spans(text, runs, c, k),
    ensures
        j == k,
{
    assert(text.take(c + 1) =~= text.take(c).push(text[c]));
    one_more_character(text.take(c), text[c]);
    if j < k {
        bytes_grow(runs, j + 1, k);
    } else if k < j {
        bytes_grow(runs, k + 1, j);
    }
}

proof fn pinned_stops(row: Seq<Cell>, at: int)
    requires
        0 <= at <= row.len(),
    ensures
        at <= next_pinned(row, at) <= row.len(),
        forall|i: int|
            at <= i < next_pinned(row, at) ==> (#[trigger] row[i]).wide_spacer || !is_pinned(row[i]),
    decreases row.len() - at,
{
    if at < row.len() && (row[at].wide_spacer || !is_pinned(row[at])) {
        pinned_stops(row, at + 1);
    }
}

/// Each glyph of a row lies in one of its segments.
proof fn a_segment_holds_each_glyph(row: Seq<Cell>, theme: Theme, at: int, i: int) -> (r: (
    int,
    int,
    int,
))
    requires
        0 <= at <= i < row.len(),
        !row[i].wide_spacer,
    ensures
        0 <= r.0 < segments_from(row, theme, at).len(),
        segments_from(row, theme, at)[r.0] == segment_of(row, theme, r.1, r.2),
        0 <= r.1 <= i < r.2 <= row.len(),
        is_pinned(row[i]) ==> r.1 == i && r.2 == i + 1,
    decreases row.len() - at,
{
    if row[at].wide_spacer {
        a_segment_holds_each_glyph(row, theme, at + 1, i)
    } else if is_pinned(row[at]) {
        if i == at {
            (0, at, at + 1)
        } else {
            let r = a_segment_holds_each_glyph(row, theme, at + 1, i);
            (r.0 + 1, r.1, r.2)
        }
    } else {
        pinned_stops(row, at + 1);
        let end = next_pinned(row, at + 1);
        if i < end {
            (0, at, end)
        } else {
            let r = a_segment_holds_each_glyph(row, theme, end, i);
            (r.0 + 1, r.1, r.2)
        }
    }
}

proof fn segments_show_the_row(row: Seq<Cell>, theme: Theme, segments: Seq<Segment>, i: int)
    requires
        segment_views(segments) == segments_from(row, theme, 0),
        4 * row.len() <= usize::MAX,
        0 <= i < row.len(),
        !row[i].wide_spacer,
    ensures
        exists|k: int| 0 <= k < segments.len() && shows(#[trigger] segments[k], row, theme, i),
{
    let (k, from, to) = a_segment_holds_each_glyph(row, theme, 0, i);
    let cells = row.subrange(from, to);
    let j = a_run_spans_each_glyph(cells, theme, i - from);
    let s = segments[k];
    assert(segment_views(segments)[k] == s@);
    assert(segment_views(segments).len() == segments.len());
    same_glyphs(cells, row, 0, i - from, from);
    let c = glyphs_between(cells, 0, i - from);
    assert(cells[i - from] == row[i]);
    assert(spans(s.text@, s.runs@, c, j));
    a_color_has_its_paint(row[i].fg, theme);
    assert forall|m: int| #[trigger] spans(s.text@, s.runs@, c, m) implies looks_like(
        s.runs@[m],
        row[i],
        theme,
    ) by {
        one_run_spans_a_character(s.text@, s.runs@, c, j, m);
    }
    if is_pinned(row[i]) {
        runs_span_the_text(cells, theme);
        assert(glyphs_between(cells, 0, 1) == glyphs_between(cells, 0, 0) + 1);
    }
    assert(shows(segments[k], row, theme, i));
}

/// Each glyph of a row is drawn in the paint of its own cell, and dim, bold,
/// italic and underlined just as its cell is: the run that spans it has these
/// looks, so glyphs that look different never share a run.
pub proof fn every_glyph_keeps_its_looks(
    row: &Vec<Cell>,
    theme: &Theme,
    segments: Vec<Segment>,
    i: int,
)
    requires
        4 * row@.len() <= usize::MAX,
        call_ensures(shape_row, (row, theme), segments),
        0 <= i < row@.len(),
        !row@[i].wide_spacer,
    ensures
        exists|k: int|
            0 <= k < segments@.len() && shows(#[trigger] segments@[k], row@, *theme, i),
{
    segments_show_the_row(row@, *theme, segments@, i);
}

/// Whether a row's background stretches paint it: a column of the default
/// background lies in none, and any other in one, whose paint is its own.
pub open spec fn backs(runs: Seq<BgRun>, row: Seq<Cell>, theme: Theme, c: int) -> bool {
    &&& row[c].bg is Background ==> forall|k: int|
        0 <= k < runs.len() ==> !((#[trigger] runs[k]).start <= c < runs[k].start + runs[k].len)
    &&& !(row[c].bg is Background) ==> exists|k: int|
        0 <= k < runs.len() && (#[trigger] runs[k]).start <= c < runs[k].start + runs[k].len
    &&& forall|k: int|
        0 <= k < runs.len() && (#[trigger] runs[k]).start <= c < runs[k].start + runs[k].len
            ==> painted(row[c].bg, theme, runs[k].paint)
}

proof fn stretches_back_the_row(row: Seq<Cell>, theme: Theme, c: int)
    requires
        0 <= c < row.len() <= usize::MAX,
    ensures
        backs(bg_runs_from(row, theme, 0), row, theme, c),
{
    background_runs_tile_the_row(row, theme, 0);
    a_color_has_its_paint(row[c].bg, theme);
    let runs = bg_runs_from(row, theme, 0);
    assert forall|k: int|
        0 <= k < runs.len() && (#[trigger] runs[k]).start <= c < runs[k].start
            + runs[k].len implies !(row[c].bg is Background) && runs[k].paint == color_paint(
        row[c].bg,
        theme,
    ) by {
        assert(crate::terminal::view::cell_bg(row[c], theme) == Some(runs[k].paint));
    }
}

/// Each cell's background is painted in its own color, or left to the plane.
pub proof fn every_cell_keeps_its_background(
    row: &Vec<Cell>,
    theme: &Theme,
    runs: Vec<BgRun>,
    c: int,
)
    requires
        call_ensures(background_runs, (row, theme), runs),
        0 <= c < row@.len(),
    ensures
        backs(runs@, row@, *theme, c),
{
    vstd::std_specs::vec::axiom_spec_len(row);
    stretches_back_the_row(row@, *theme, c);
}

/// The plan of a grid shows every glyph of every line and every background, and
/// the cursor where it is: filled when the terminal has the focus, else as an
/// outline, in the color of text.
pub proof fn the_plan_shows_the_grid(
    g: &GridSnapshot,
    theme: &Theme,
    focused: bool,
    plan: TerminalPrepaint,
    line: int,
    i: int,
)
    requires
        forall|n: int|
            0 <= n < g.lines@.len() ==> 4 * (#[trigger] g.lines@[n])@.len() <= usize::MAX,
        call_ensures(prepaint, (Some(g), theme, focused), plan),
        0 <= line < g.lines@.len(),
        0 <= i < g.lines@[line]@.len(),
    ensures
        plan.lines@.len() == g.lines@.len(),
        plan.backgrounds@.len() == g.lines@.len(),
        !g.lines@[line]@[i].wide_spacer ==> exists|k: int|
            0 <= k < plan.lines@[line]@.len() && shows(
                #[trigger] plan.lines@[line]@[k],
                g.lines@[line]@,
                *theme,
                i,
            ),
        backs(plan.backgrounds@[line]@, g.lines@[line]@, *theme, i),
        plan.cursor is Some <==> g.cursor is Some,
        g.cursor is Some ==> plan.cursor->0.at == g.cursor->0 && plan.cursor->0.filled == focused
            && plan.cursor->0.paint == theme.text,
{
    let row = g.lines@[line]@;
    assert(plan.lines@[line]@ == plan.lines@[line]@);
    assert(plan.backgrounds@[line]@ == bg_runs_from(row, *theme, 0));
    if !row[i].wide_spacer {
        segments_show_the_row(row, *theme, plan.lines@[line]@, i);
    }
    stretches_back_the_row(row, *theme, i);
}

/// The grid has the size that was measured, as long as that is between two
/// columns by one row and five hundred each way.
pub proof fn the_grid_fits(cols: i64, rows: i64, g: (u16, u16))
    requires
        call_ensures(grid_size, (cols, rows), g),
    ensures
        2 <= g.0 <= 500 && 1 <= g.1 <= 500,
        2 <= cols <= 500 ==> g.0 == cols,
        1 <= rows <= 500 ==> g.1 == rows,
        cols < 2 ==> g.0 == 2,
        cols > 500 ==> g.0 == 500,
        rows < 1 ==> g.1 == 1,
        rows > 500 ==> g.1 == 500,
{
}

}
