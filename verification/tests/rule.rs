use conway::{ConwayBoard, ConwayBoardDoubleBuf};

fn after_one<const H: usize, const W: usize>(init: [[bool; W]; H]) -> [[bool; W]; H] {
    let mut board = ConwayBoard::new(init);
    board.next();
    let mut twin = ConwayBoardDoubleBuf::new(init);
    twin.next();
    assert_eq!(board.population(), twin.population());
    *board.population()
}

const O: bool = false;
const X: bool = true;

#[test]
fn live_cell_without_neighbors_dies() {
    let next = after_one([[O, O, O], [O, X, O], [O, O, O]]);
    assert!(!next[1][1]);
}

#[test]
fn live_cell_with_one_neighbor_dies() {
    let next = after_one([[X, O, O], [O, X, O], [O, O, O]]);
    assert!(!next[1][1]);
    assert!(!next[0][0]);
}

#[test]
fn dead_cell_with_one_neighbor_stays_dead() {
    let next = after_one([[O, X, O], [O, O, O], [O, O, O]]);
    assert!(!next[1][1]);
}

#[test]
fn dead_cell_with_three_neighbors_is_born() {
    let next = after_one([[X, X, O], [O, O, O], [O, O, X]]);
    assert!(next[1][1]);
}

#[test]
fn live_cell_with_three_neighbors_survives() {
    let next = after_one([[X, X, O], [O, X, O], [O, O, X]]);
    assert!(next[1][1]);
}

#[test]
fn live_cell_with_four_neighbors_dies() {
    let next = after_one([[X, X, O], [O, X, X], [O, O, X]]);
    assert!(!next[1][1]);
}

#[test]
fn dead_cell_with_four_neighbors_stays_dead() {
    let next = after_one([[X, X, O], [O, O, X], [O, O, X]]);
    assert!(!next[1][1]);
}

#[test]
fn live_cell_with_eight_neighbors_dies() {
    let next = after_one([[X, X, X], [X, X, X], [X, X, X]]);
    assert!(!next[1][1]);
    assert_eq!(next, [[X, O, X], [O, O, O], [X, O, X]]);
}

#[test]
fn live_cell_with_two_neighbors_stays_alive() {
    let next = after_one([[X, O, O], [O, X, O], [O, O, X]]);
    assert!(next[1][1]);
}

#[test]
fn dead_cell_with_two_neighbors_stays_dead() {
    let next = after_one([[X, O, O], [O, O, O], [O, O, X]]);
    assert!(!next[1][1]);
}

#[test]
fn every_cell_is_judged_by_the_old_generation() {
    // Were the first row updated before the second was read, the center
    // would see fewer neighbors than it has.
    let next = after_one([[X, X, X], [O, O, O], [O, O, O]]);
    assert_eq!(next, [[O, X, O], [O, X, O], [O, O, O]]);
}
