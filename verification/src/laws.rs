//! What holds of every population and of every run of the engines.
use vstd::prelude::*;
use crate::board::{ConwayBoard, ConwayBoardDoubleBuf};
use crate::render::{
    cell_start, cell_text, cells_text, glyph, line_start, population_text, row_text, rows_text,
};
use crate::population::{
    alive_at, candidate_neighbors, generation, has_shape, in_grid, live_neighbors, on_border,
    span_end, span_start, step, Population,
};

verus! {

/// A transition keeps the number of rows and the length of every row.
pub proof fn lemma_step_keeps_shape(g: Population, h: nat, w: nat)
    requires
        has_shape(g, h, w),
    ensures
        has_shape(step(g), h, w),
{
}

/// Underpopulation: a cell with fewer than two live neighbors is dead in
/// the next generation, whatever it was before.
pub proof fn lemma_fewer_than_two_neighbors_dies(g: Population, r: int, c: int)
    requires
        in_grid(g, r, c),
        live_neighbors(g, r, c) < 2,
    ensures
        !step(g)[r][c],
{
}

/// Birth and survival: a cell with exactly three live neighbors is alive in
/// the next generation, whatever it was before.
pub proof fn lemma_three_neighbors_lives(g: Population, r: int, c: int)
    requires
        in_grid(g, r, c),
        live_neighbors(g, r, c) == 3,
    ensures
        step(g)[r][c],
{
}

/// Overpopulation: a cell with more than three live neighbors is dead in
/// the next generation, whatever it was before.
pub proof fn lemma_more_than_three_neighbors_dies(g: Population, r: int, c: int)
    requires
        in_grid(g, r, c),
        live_neighbors(g, r, c) > 3,
    ensures
        !step(g)[r][c],
{
}

/// A cell with exactly two live neighbors keeps its state.
pub proof fn lemma_two_neighbors_keeps_state(g: Population, r: int, c: int)
    requires
        in_grid(g, r, c),
        live_neighbors(g, r, c) == 2,
    ensures
        step(g)[r][c] == g[r][c],
{
}

/// The neighbor count of a cell never exceeds the number of grid positions
/// around it. A corner cell has at most three such positions, a cell on an
/// edge but not in a corner at most five, and a cell away from all edges
/// exactly eight.
pub proof fn lemma_neighbor_count_bounds(g: Population, h: nat, w: nat, r: int, c: int)
    requires
        has_shape(g, h, w),
        0 <= r < h,
        0 <= c < w,
    ensures
        0 <= live_neighbors(g, r, c) <= candidate_neighbors(h as int, w as int, r, c),
        on_border(h as int, r) && on_border(w as int, c) ==> candidate_neighbors(
            h as int,
            w as int,
            r,
            c,
        ) <= 3,
        on_border(h as int, r) != on_border(w as int, c) ==> candidate_neighbors(
            h as int,
            w as int,
            r,
            c,
        ) <= 5,
        !on_border(h as int, r) && !on_border(w as int, c) ==> candidate_neighbors(
            h as int,
            w as int,
            r,
            c,
        ) == 8,
{
}

/// The positions around a cell are those of the clamped 3×3 block around it,
/// less the cell itself: along each axis the block runs from one before the
/// cell, or from the cell where there is nothing before it, to one after
/// the cell, or to the cell where there is nothing after it.
pub proof fn lemma_candidates_fill_clamped_block(h: int, w: int, r: int, c: int)
    requires
        0 <= r < h,
        0 <= c < w,
    ensures
        candidate_neighbors(h, w, r, c) == (span_end(h, r) - span_start(r)) * (span_end(w, c)
            - span_start(c)) - 1,
{
    let rows = span_end(h, r) - span_start(r);
    let cols = span_end(w, c) - span_start(c);
    assert(rows * cols == if rows == 1 {
        cols
    } else if rows == 2 {
        2 * cols
    } else {
        3 * cols
    }) by (nonlinear_arith)
        requires
            1 <= rows <= 3,
    ;
}

/// Any number of transitions keeps the number of rows and the length of
/// every row.
pub proof fn lemma_generation_keeps_shape(g: Population, h: nat, w: nat, n: nat)
    requires
        has_shape(g, h, w),
    ensures
        has_shape(generation(g, n), h, w),
    decreases n,
{
    if n > 0 {
        lemma_generation_keeps_shape(g, h, w, (n - 1) as nat);
        lemma_step_keeps_shape(generation(g, (n - 1) as nat), h, w);
    }
}

/// Taking `m` transitions and then `n` more is taking `m + n`.
pub proof fn lemma_generation_adds(g: Population, m: nat, n: nat)
    ensures
        generation(generation(g, m), n) == generation(g, m + n),
    decreases n,
{
    if n > 0 {
        lemma_generation_adds(g, m, (n - 1) as nat);
    }
}

/// A population that a transition leaves unchanged stays unchanged for
/// good.
pub proof fn lemma_still_life_stays(g: Population, n: nat)
    requires
        step(g) == g,
    ensures
        generation(g, n) == g,
    decreases n,
{
    if n > 0 {
        lemma_still_life_stays(g, (n - 1) as nat);
    }
}

/// A population without a live cell has none after any number of
/// transitions.
pub proof fn lemma_all_dead_stays_dead(g: Population, n: nat)
    requires
        forall|r: int, c: int| in_grid(g, r, c) ==> !g[r][c],
    ensures
        generation(g, n) == g,
{
    assert forall|r: int, c: int| in_grid(g, r, c) implies #[trigger] step(g)[r][c]
        == g[r][c] by {
        assert(live_neighbors(g, r, c) == 0);
    }
    assert(step(g) =~~= g);
    lemma_still_life_stays(g, n);
}

/// The block: a population whose live cells are exactly the four cells of
/// a 2×2 square is unchanged by any number of transitions, wherever in the
/// grid the square lies.
pub proof fn lemma_block_is_still(g: Population, h: nat, w: nat, top: int, left: int, n: nat)
    requires
        has_shape(g, h, w),
        0 <= top < h - 1,
        0 <= left < w - 1,
        forall|r: int, c: int|
            0 <= r < h && 0 <= c < w ==> (g[r][c] <==> (top <= r <= top + 1 && left <= c <= left
                + 1)),
    ensures
        generation(g, n) == g,
{
    assert forall|r: int, c: int| in_grid(g, r, c) implies #[trigger] step(g)[r][c]
        == g[r][c] by {
        assert(forall|i: int, j: int|
            alive_at(g, i, j) <==> (top <= i <= top + 1 && left <= j <= left + 1));
    }
    assert(step(g) =~~= g);
    lemma_still_life_stays(g, n);
}

/// The two engines are one game. Take a run of the copy-based engine and a
/// run of the double-buffered engine, each as the sequence of states it
/// passes through, consecutive states one call of `next` apart. If the two
/// runs start from the same population, then after any number `n` of calls
/// they show the same population: the `n`-th generation of the first.
pub proof fn lemma_engines_agree<const H: usize, const W: usize>(
    single: Seq<ConwayBoard<H, W>>,
    double: Seq<ConwayBoardDoubleBuf<H, W>>,
    n: nat,
)
    requires
        n < single.len(),
        n < double.len(),
        single[0]@ == double[0]@,
        forall|i: int| 0 <= i < n ==> (#[trigger] single[i + 1])@ == step(single[i]@),
        forall|i: int| 0 <= i < n ==> (#[trigger] double[i + 1])@ == step(double[i]@),
    ensures
        single[n as int]@ == double[n as int]@,
        single[n as int]@ == generation(single[0]@, n),
    decreases n,
{
    if n > 0 {
        lemma_engines_agree(single, double, (n - 1) as nat);
        assert(single[(n - 1) + 1]@ == step(single[n - 1]@));
        assert(double[(n - 1) + 1]@ == step(double[n - 1]@));
    }
}

/// The first `n` cells of a row take two characters each: the glyph of the
/// cell and a space.
proof fn lemma_cells_text_layout(row: Seq<bool>, n: nat)
    requires
        n <= row.len(),
    ensures
        cells_text(row, n).len() == 2 * n,
        forall|c: int|
            0 <= c < n ==> cells_text(row, n)[2 * c] == glyph(row[c]) && cells_text(row, n)[2 * c
                + 1] == ' ',
    decreases n,
{
    if n > 0 {
        lemma_cells_text_layout(row, (n - 1) as nat);
        let head = cells_text(row, (n - 1) as nat);
        let tail = cell_text(row[n - 1]);
        assert forall|c: int| 0 <= c < n implies cells_text(row, n)[2 * c] == glyph(row[c])
            && cells_text(row, n)[2 * c + 1] == ' ' by {
            if c < n - 1 {
                assert(cells_text(row, n)[2 * c] == head[2 * c]);
                assert(cells_text(row, n)[2 * c + 1] == head[2 * c + 1]);
            } else {
                assert(cells_text(row, n)[2 * c] == tail[0]);
                assert(cells_text(row, n)[2 * c + 1] == tail[1]);
            }
        }
    }
}

/// The `k`-th character of the `r`-th of `n` lines of equal length lies
/// within those `n` lines.
proof fn lemma_offset_in_lines(n: int, line: int, r: int, k: int)
    requires
        0 <= r < n,
        0 <= k < line,
    ensures
        0 <= r * line <= r * line + k < n * line,
        n * line == (n - 1) * line + line,
{
    assert(0 <= r * line && r * line + line <= n * line && n * line == (n - 1) * line + line)
        by (nonlinear_arith)
        requires
            0 <= r < n,
            0 <= line,
    ;
}

/// The first `n` rows of a grid of `w` columns take `2 * w + 1` characters
/// each, and the line of row `r` starts at `r * (2 * w + 1)`.
proof fn lemma_rows_text_layout(g: Population, h: nat, w: nat, n: nat)
    requires
        has_shape(g, h, w),
        n <= h,
    ensures
        rows_text(g, n).len() == n * (2 * w + 1),
        forall|r: int, k: int|
            0 <= r < n && 0 <= k < 2 * w + 1 ==> rows_text(g, n)[r * (2 * w + 1) + k]
                == #[trigger] row_text(g[r])[k],
    decreases n,
{
    let line = 2 * (w as int) + 1;
    if n > 0 {
        lemma_rows_text_layout(g, h, w, (n - 1) as nat);
        let head = rows_text(g, (n - 1) as nat);
        let tail = row_text(g[n - 1]);
        lemma_cells_text_layout(g[n - 1], w);
        lemma_offset_in_lines(n as int, line, n - 1, 0);
        assert(rows_text(g, n) == head + tail);
        assert forall|r: int, k: int| 0 <= r < n && 0 <= k < line implies rows_text(g, n)[r
            * line + k] == #[trigger] row_text(g[r])[k] by {
            if r < n - 1 {
                lemma_offset_in_lines(n - 1, line, r, k);
                assert(rows_text(g, n)[r * line + k] == head[r * line + k]);
            } else {
                assert(rows_text(g, n)[r * line + k] == tail[k]);
            }
        }
    }
}

/// The layout of a picture. A grid of `h` rows and `w` columns is drawn as
/// `h` lines of `2 * w` characters, each closed by a line feed, and one more
/// line feed at the end. Each cell takes two characters of its line: its
/// glyph and a space.
pub proof fn lemma_picture_layout(g: Population, h: nat, w: nat)
    requires
        has_shape(g, h, w),
    ensures
        population_text(g).len() == line_start(w, h as int) + 1,
        population_text(g)[line_start(w, h as int)] == '\n',
        forall|r: int|
            0 <= r < h ==> population_text(g)[#[trigger] line_start(w, r) + 2 * w] == '\n',
        forall|r: int, c: int|
            0 <= r < h && 0 <= c < w ==> population_text(g)[#[trigger] cell_start(w, r, c)]
                == glyph(g[r][c]) && population_text(g)[cell_start(w, r, c) + 1] == ' ',
{
    let line = 2 * (w as int) + 1;
    let text = population_text(g);
    lemma_rows_text_layout(g, h, w, h);
    assert forall|r: int| 0 <= r < h implies text[#[trigger] line_start(w, r) + 2 * w]
        == '\n' by {
        lemma_cells_text_layout(g[r], w);
        lemma_offset_in_lines(h as int, line, r, (2 * w) as int);
        assert(row_text(g[r])[(2 * w) as int] == '\n');
    }
    assert forall|r: int, c: int| 0 <= r < h && 0 <= c < w implies text[#[trigger] cell_start(
        w,
        r,
        c,
    )] == glyph(g[r][c]) && text[cell_start(w, r, c) + 1] == ' ' by {
        lemma_cells_text_layout(g[r], w);
        lemma_offset_in_lines(h as int, line, r, 2 * c + 1);
        assert(row_text(g[r])[2 * c] == cells_text(g[r], w)[2 * c]);
        assert(row_text(g[r])[2 * c + 1] == cells_text(g[r], w)[2 * c + 1]);
    }
}

} // verus!
