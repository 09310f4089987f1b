//! The mathematical model of a population and of the transition between
//! generations.
use vstd::prelude::*;

verus! {

/// A population as a sequence of rows; `g[r][c]` says whether the cell in
/// row `r` and column `c` is alive.
pub type Population = Seq<Seq<bool>>;

/// The model of an `H`×`W` array of cells.
pub open spec fn cells<const H: usize, const W: usize>(pop: [[bool; W]; H]) -> Population {
    Seq::new(H as nat, |r: int| pop[r]@)
}

/// `g` has `h` rows of `w` cells each.
pub open spec fn has_shape(g: Population, h: nat, w: nat) -> bool {
    &&& g.len() == h
    &&& forall|r: int| 0 <= r < h ==> (#[trigger] g[r]).len() == w
}

/// The population of `h` rows and `w` columns in which no cell is alive.
pub open spec fn all_dead(h: nat, w: nat) -> Population {
    Seq::new(h, |r: int| Seq::new(w, |c: int| false))
}

/// `(r, c)` names a cell of `g`.
pub open spec fn in_grid(g: Population, r: int, c: int) -> bool {
    0 <= r < g.len() && 0 <= c < g[r].len()
}

/// Whether the position `(r, c)` holds a live cell. A position outside the
/// grid holds none: the grid is clamped at its edges, it does not wrap.
pub open spec fn alive_at(g: Population, r: int, c: int) -> bool {
    in_grid(g, r, c) && g[r][c]
}

/// 1 for a live cell at `(r, c)`, else 0.
pub open spec fn live(g: Population, r: int, c: int) -> int {
    if alive_at(g, r, c) {
        1
    } else {
        0
    }
}

/// The number of live cells among the eight positions around `(r, c)`.
pub open spec fn live_neighbors(g: Population, r: int, c: int) -> int {
    live(g, r - 1, c - 1) + live(g, r - 1, c) + live(g, r - 1, c + 1)
        + live(g, r, c - 1) + live(g, r, c + 1)
        + live(g, r + 1, c - 1) + live(g, r + 1, c) + live(g, r + 1, c + 1)
}

/// The first index of the neighborhood of `center` along one axis.
pub open spec fn span_start(center: int) -> int {
    if center > 0 {
        center - 1
    } else {
        0
    }
}

/// One past the last index of the neighborhood of `center` along an axis of
/// `bound` cells.
pub open spec fn span_end(bound: int, center: int) -> int {
    if center + 2 <= bound {
        center + 2
    } else {
        bound
    }
}

/// 1 if `(r, c)` is a position of a grid of `h` rows and `w` columns, else 0.
pub open spec fn position(h: int, w: int, r: int, c: int) -> int {
    if 0 <= r < h && 0 <= c < w {
        1
    } else {
        0
    }
}

/// The number of grid positions among the eight around `(r, c)`, in a grid
/// of `h` rows and `w` columns: the cells that can be neighbors of `(r, c)`.
pub open spec fn candidate_neighbors(h: int, w: int, r: int, c: int) -> int {
    position(h, w, r - 1, c - 1) + position(h, w, r - 1, c) + position(h, w, r - 1, c + 1)
        + position(h, w, r, c - 1) + position(h, w, r, c + 1)
        + position(h, w, r + 1, c - 1) + position(h, w, r + 1, c) + position(h, w, r + 1, c + 1)
}

/// `x` is the first or the last index of an axis of `bound` cells.
pub open spec fn on_border(bound: int, x: int) -> bool {
    x == 0 || x == bound - 1
}

/// The next state of a cell that is `alive` and has `n` live neighbors:
/// birth on exactly three, survival on two or three, death otherwise.
pub open spec fn rule(alive: bool, n: int) -> bool {
    n == 3 || (n == 2 && alive)
}

/// The generation that follows `g`: every cell takes its next state from
/// `g` alone.
pub open spec fn step(g: Population) -> Population {
    Seq::new(
        g.len(),
        |r: int| Seq::new(g[r].len(), |c: int| rule(g[r][c], live_neighbors(g, r, c))),
    )
}

/// The generation reached from `g` after `n` transitions.
pub open spec fn generation(g: Population, n: nat) -> Population
    decreases n,
{
    if n == 0 {
        g
    } else {
        step(generation(g, (n - 1) as nat))
    }
}

} // verus!
