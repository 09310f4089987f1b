//! Populations written down as grids of numbers.
use vstd::prelude::*;
use crate::population::{cells, Population};

verus! {

/// The population that a grid of numbers stands for: a cell is alive where
/// the number is 1 and dead where it is anything else.
pub open spec fn marked<const H: usize, const W: usize>(arr: [[i32; W]; H]) -> Population {
    Seq::new(H as nat, |r: int| Seq::new(W as nat, |c: int| arr[r][c] == 1))
}

/// Turns a grid of numbers into a population: 1 marks a live cell, every
/// other number a dead one.
pub fn to_boolean<const H: usize, const W: usize>(arr: [[i32; W]; H]) -> (pop: [[bool; W]; H])
    ensures
        cells(pop) == marked(arr),
{
    let mut bool_arr = [[false; W]; H];
    let mut i: usize = 0;
    let mut j: usize = 0;
    while i < H
        invariant
            i <= H,
            j == 0,
            forall|r: int, c: int| 0 <= r < i && 0 <= c < W ==> bool_arr[r][c] == (arr[r][c] == 1),
        decreases H - i,
    {
        while j < W
            invariant
                i < H,
                j <= W,
                forall|r: int, c: int|
                    0 <= r < i && 0 <= c < W ==> bool_arr[r][c] == (arr[r][c] == 1),
                forall|c: int| 0 <= c < j ==> bool_arr[i as int][c] == (arr[i as int][c] == 1),
            decreases W - j,
        {
            bool_arr[i][j] = arr[i][j] == 1;
            j += 1;
        }
        j = 0;
        i += 1;
    }
    assert(cells(bool_arr) =~~= marked(arr));
    bool_arr
}

} // verus!
