//! Neighbor counting and the computation of the next generation.
use vstd::prelude::*;
use core::ops::Range;
use crate::population::{
    candidate_neighbors, cells, live, live_neighbors, on_border, rule, span_end, span_start, step,
    Population,
};

verus! {

/// What the position `(i, j)` adds to the neighbor count of `(y, x)`: the
/// center itself adds nothing.
spec fn counted(g: Population, y: int, x: int, i: int, j: int) -> int {
    if i == y && j == x {
        0
    } else {
        live(g, i, j)
    }
}

/// The part of the neighbor count of `(y, x)` that row `i` adds in the
/// columns before `j`.
spec fn row_before(g: Population, y: int, x: int, i: int, j: int) -> int {
    (if x - 1 < j { counted(g, y, x, i, x - 1) } else { 0 })
        + (if x < j { counted(g, y, x, i, x) } else { 0 })
        + (if x + 1 < j { counted(g, y, x, i, x + 1) } else { 0 })
}

/// The part of the neighbor count of `(y, x)` that the rows before `i` add.
spec fn rows_before(g: Population, y: int, x: int, i: int) -> int {
    (if y - 1 < i { row_before(g, y, x, y - 1, x + 2) } else { 0 })
        + (if y < i { row_before(g, y, x, y, x + 2) } else { 0 })
        + (if y + 1 < i { row_before(g, y, x, y + 1, x + 2) } else { 0 })
}

/// The indices along an axis of `B` cells that lie within one step of
/// `center`: the 3-wide window around it, cut off at both ends of the axis.
pub fn _neighborhood<const B: usize>(center: usize) -> (span: Range<usize>)
    ensures
        span.start == span_start(center as int),
        span.end == span_end(B as int, center as int),
{
    let lb = if center > 0 { center - 1 } else { center };
    let ub = if B >= 2 && center <= B - 2 { center + 2 } else { B };
    lb..ub
}

/// Counts the live cells among the up to eight cells around column `x` of
/// row `y`. Positions beyond an edge of the grid hold no cell and add
/// nothing.
pub fn _sum_neighbors<const H: usize, const W: usize>(
    x: usize,
    y: usize,
    gen: &[[bool; W]; H],
) -> (count: u8)
    ensures
        count == live_neighbors(cells(*gen), y as int, x as int),
        count <= candidate_neighbors(H as int, W as int, y as int, x as int) <= 8,
        y < H && x < W && (on_border(H as int, y as int) || on_border(W as int, x as int))
            ==> count <= 5,
        y < H && x < W && on_border(H as int, y as int) && on_border(W as int, x as int)
            ==> count <= 3,
{
    let ghost g = cells(*gen);
    let mut count: u8 = 0;
    let rows = _neighborhood::<H>(y);
    let mut i = rows.start;
    while i < rows.end
        invariant
            g == cells(*gen),
            rows.start == span_start(y as int),
            rows.end == span_end(H as int, y as int),
            rows.start <= i,
            count == rows_before(g, y as int, x as int, i as int),
        decreases rows.end - i,
    {
        let cols = _neighborhood::<W>(x);
        let mut j = cols.start;
        while j < cols.end
            invariant
                g == cells(*gen),
                i < H,
                cols.start == span_start(x as int),
                cols.end == span_end(W as int, x as int),
                cols.start <= j,
                count == rows_before(g, y as int, x as int, i as int) + row_before(
                    g,
                    y as int,
                    x as int,
                    i as int,
                    j as int,
                ),
            decreases cols.end - j,
        {
            if !(i == y && j == x) && gen[i][j] {
                count += 1;
            }
            j += 1;
        }
        i += 1;
    }
    count
}

/// Writes into `next_gen` the generation that follows `prev_gen`. Every cell
/// of `next_gen` is overwritten, and every new state is derived from
/// `prev_gen` alone, so what `next_gen` held before does not matter.
pub fn _compute_next_gen<const H: usize, const W: usize>(
    prev_gen: &[[bool; W]; H],
    next_gen: &mut [[bool; W]; H],
)
    ensures
        cells(*final(next_gen)) == step(cells(*prev_gen)),
        forall|r: int, c: int|
            0 <= r < H && 0 <= c < W ==> {
                let n = live_neighbors(cells(*prev_gen), r, c);
                &&& n < 2 ==> !(#[trigger] final(next_gen)[r][c])
                &&& n > 3 ==> !final(next_gen)[r][c]
                &&& n == 3 ==> final(next_gen)[r][c]
                &&& n == 2 ==> final(next_gen)[r][c] == prev_gen[r][c]
            },
{
    let ghost g = cells(*prev_gen);
    for y in 0..H
        invariant
            g == cells(*prev_gen),
            forall|r: int, c: int|
                0 <= r < y && 0 <= c < W ==> next_gen[r][c] == rule(
                    g[r][c],
                    live_neighbors(g, r, c),
                ),
    {
        for x in 0..W
            invariant
                g == cells(*prev_gen),
                y < H,
                forall|r: int, c: int|
                    0 <= r < y && 0 <= c < W ==> next_gen[r][c] == rule(
                        g[r][c],
                        live_neighbors(g, r, c),
                    ),
                forall|c: int|
                    0 <= c < x ==> next_gen[y as int][c] == rule(
                        g[y as int][c],
                        live_neighbors(g, y as int, c),
                    ),
        {
            let n = _sum_neighbors(x, y, prev_gen);
            if n < 2 || n > 3 {
                next_gen[y][x] = false
            } else if n == 3 {
                next_gen[y][x] = true;
            } else {
                next_gen[y][x] = prev_gen[y][x];
            }
        }
    }
    assert(cells(*next_gen) =~~= step(g));
}

} // verus!
