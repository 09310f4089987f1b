use conway::pattern::to_boolean;

#[test]
fn one_marks_a_live_cell() {
    assert_eq!(to_boolean([[1, 0], [0, 1]]), [[true, false], [false, true]]);
}

#[test]
fn only_one_marks_a_live_cell() {
    assert_eq!(
        to_boolean([[2, -1, 1], [i32::MAX, i32::MIN, 0]]),
        [[false, false, true], [false, false, false]]
    );
}

#[test]
fn every_row_is_converted() {
    assert_eq!(
        to_boolean([[1, 1, 1], [1, 1, 1], [1, 1, 1], [1, 1, 1]]),
        [[true; 3]; 4]
    );
    assert_eq!(
        to_boolean([[0, 1], [1, 0], [0, 1]]),
        [[false, true], [true, false], [false, true]]
    );
}

#[test]
fn grid_without_cells_converts_to_one_without_cells() {
    let none: [[bool; 0]; 3] = to_boolean([[], [], []]);
    assert_eq!(none, [[false; 0]; 3]);
}
