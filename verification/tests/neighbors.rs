use conway::engine::{_neighborhood, _sum_neighbors};

const O: bool = false;
const X: bool = true;

#[test]
fn neighborhood_of_an_inner_index_has_three_cells() {
    assert_eq!(_neighborhood::<5>(2), 1..4);
    assert_eq!(_neighborhood::<5>(1), 0..3);
    assert_eq!(_neighborhood::<5>(3), 2..5);
}

#[test]
fn neighborhood_is_cut_off_at_the_first_index() {
    assert_eq!(_neighborhood::<5>(0), 0..2);
}

#[test]
fn neighborhood_is_cut_off_at_the_last_index() {
    assert_eq!(_neighborhood::<5>(4), 3..5);
}

#[test]
fn neighborhood_on_a_short_axis() {
    assert_eq!(_neighborhood::<1>(0), 0..1);
    assert_eq!(_neighborhood::<2>(0), 0..2);
    assert_eq!(_neighborhood::<2>(1), 0..2);
}

#[test]
fn neighborhood_beyond_the_axis_holds_no_index_of_it() {
    assert_eq!(_neighborhood::<3>(3), 2..3);
    assert!(_neighborhood::<3>(4).is_empty());
    assert!(_neighborhood::<3>(usize::MAX).is_empty());
    assert!(_neighborhood::<0>(0).is_empty());
}

#[test]
fn corner_cells_have_three_neighbors() {
    let full = [[X; 4]; 3];
    assert_eq!(_sum_neighbors(0, 0, &full), 3);
    assert_eq!(_sum_neighbors(3, 0, &full), 3);
    assert_eq!(_sum_neighbors(0, 2, &full), 3);
    assert_eq!(_sum_neighbors(3, 2, &full), 3);
}

#[test]
fn edge_cells_have_five_neighbors() {
    let full = [[X; 4]; 3];
    assert_eq!(_sum_neighbors(1, 0, &full), 5);
    assert_eq!(_sum_neighbors(2, 2, &full), 5);
    assert_eq!(_sum_neighbors(0, 1, &full), 5);
    assert_eq!(_sum_neighbors(3, 1, &full), 5);
}

#[test]
fn inner_cells_have_eight_neighbors() {
    let full = [[X; 4]; 3];
    assert_eq!(_sum_neighbors(1, 1, &full), 8);
    assert_eq!(_sum_neighbors(2, 1, &full), 8);
}

#[test]
fn narrow_grids_have_fewer_neighbors() {
    assert_eq!(_sum_neighbors(0, 0, &[[X]]), 0);
    assert_eq!(_sum_neighbors(0, 0, &[[X, X]]), 1);
    assert_eq!(_sum_neighbors(1, 0, &[[X, X, X]]), 2);
    assert_eq!(_sum_neighbors(0, 1, &[[X], [X], [X]]), 2);
    assert_eq!(_sum_neighbors(0, 0, &[[X, X], [X, X]]), 3);
}

#[test]
fn the_cell_itself_is_not_counted() {
    let lone = [[O, O, O], [O, X, O], [O, O, O]];
    assert_eq!(_sum_neighbors(1, 1, &lone), 0);
    assert_eq!(_sum_neighbors(0, 0, &lone), 1);
    assert_eq!(_sum_neighbors(2, 1, &lone), 1);
}

#[test]
fn the_first_argument_is_the_column() {
    let grid = [[O, O, O, X], [O, O, O, O], [O, O, O, O]];
    assert_eq!(_sum_neighbors(2, 1, &grid), 1);
    assert_eq!(_sum_neighbors(3, 1, &grid), 1);
    assert_eq!(_sum_neighbors(1, 2, &grid), 0);
    assert_eq!(_sum_neighbors(1, 1, &grid), 0);
}

#[test]
fn edges_do_not_wrap_around() {
    let grid = [[X, O, O, O], [O, O, O, O], [O, O, O, X]];
    assert_eq!(_sum_neighbors(3, 0, &grid), 0);
    assert_eq!(_sum_neighbors(0, 2, &grid), 0);
    assert_eq!(_sum_neighbors(3, 1, &grid), 1);
    assert_eq!(_sum_neighbors(0, 1, &grid), 1);
}

#[test]
fn positions_outside_the_grid_see_only_the_cells_next_to_them() {
    let full = [[X; 3]; 3];
    assert_eq!(_sum_neighbors(1, 3, &full), 3);
    assert_eq!(_sum_neighbors(3, 3, &full), 1);
    assert_eq!(_sum_neighbors(4, 1, &full), 0);
    assert_eq!(_sum_neighbors(usize::MAX, usize::MAX, &full), 0);
}

#[test]
fn counts_follow_the_live_cells() {
    let grid = [[X, O, X, O], [O, X, X, O], [X, O, O, X]];
    assert_eq!(_sum_neighbors(1, 1, &grid), 4);
    assert_eq!(_sum_neighbors(2, 1, &grid), 3);
    assert_eq!(_sum_neighbors(3, 1, &grid), 3);
    assert_eq!(_sum_neighbors(0, 1, &grid), 3);
    assert_eq!(_sum_neighbors(1, 0, &grid), 4);
}
