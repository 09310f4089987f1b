//! The textual picture of a population.
use vstd::prelude::*;
use crate::population::{cells, Population};

verus! {

/// The character that shows a cell: a filled square for a live cell, a
/// space for a dead one.
pub open spec fn glyph(alive: bool) -> char {
    if alive {
        '■'
    } else {
        ' '
    }
}

/// The two characters that stand for one cell: its glyph and a space.
pub open spec fn cell_text(alive: bool) -> Seq<char> {
    seq![glyph(alive), ' ']
}

/// The text of the first `n` cells of `row`, left to right.
pub open spec fn cells_text(row: Seq<bool>, n: nat) -> Seq<char>
    decreases n,
{
    if n == 0 {
        Seq::empty()
    } else {
        cells_text(row, (n - 1) as nat) + cell_text(row[n - 1])
    }
}

/// The line that shows `row`: its cells, then a line feed.
pub open spec fn row_text(row: Seq<bool>) -> Seq<char> {
    cells_text(row, row.len()) + seq!['\n']
}

/// The lines of the first `n` rows of `g`, top to bottom.
pub open spec fn rows_text(g: Population, n: nat) -> Seq<char>
    decreases n,
{
    if n == 0 {
        Seq::empty()
    } else {
        rows_text(g, (n - 1) as nat) + row_text(g[n - 1])
    }
}

/// The picture of `g`: one line for each row, then an empty line.
pub open spec fn population_text(g: Population) -> Seq<char> {
    rows_text(g, g.len()) + seq!['\n']
}

/// Where in the picture of a grid of `w` columns the line of row `r`
/// starts.
pub open spec fn line_start(w: nat, r: int) -> int {
    r * (2 * w + 1)
}

/// Where in the picture of a grid of `w` columns the cell in row `r` and
/// column `c` starts.
pub open spec fn cell_start(w: nat, r: int, c: int) -> int {
    line_start(w, r) + 2 * c
}

/// Draws `pop` as text: a line of two-character cells for each row, and an
/// empty line after the last.
pub fn _print_population<const H: usize, const W: usize>(pop: &[[bool; W]; H]) -> (text: String)
    ensures
        text@ == population_text(cells(*pop)),
{
    let ghost g = cells(*pop);
    let mut text = String::new();
    proof {
        reveal_strlit("■ ");
        reveal_strlit("  ");
        reveal_strlit("\n");
        assert("■ "@ =~= cell_text(true));
        assert("  "@ =~= cell_text(false));
        assert("\n"@ =~= seq!['\n']);
    }
    for i in 0..H
        invariant
            g == cells(*pop),
            "■ "@ == cell_text(true),
            "  "@ == cell_text(false),
            "\n"@ == seq!['\n'],
            text@ == rows_text(g, i as nat),
    {
        let ghost before = text@;
        for j in 0..W
            invariant
                g == cells(*pop),
                i < H,
                "■ "@ == cell_text(true),
                "  "@ == cell_text(false),
                text@ == before + cells_text(g[i as int], j as nat),
        {
            if pop[i][j] {
                text.append("■ ");
            } else {
                text.append("  ");
            }
            assert(text@ =~= before + cells_text(g[i as int], (j + 1) as nat));
        }
        text.append("\n");
        assert(text@ =~= rows_text(g, (i + 1) as nat));
    }
    text.append("\n");
    text
}

} // verus!
