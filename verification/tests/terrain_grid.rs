use murdertime_5000::terrain::{
    cell_corners, flatten, sample_count, vertex_count, CellCorners, GridPoint, CELLS_PER_SIDE,
    POINTS_PER_SIDE,
};

#[test]
fn grid_sizes() {
    assert_eq!(CELLS_PER_SIDE, 128);
    assert_eq!(POINTS_PER_SIDE, 129);
    assert_eq!(sample_count(), 16641);
    assert_eq!(vertex_count(), 98304);
}

#[test]
fn flatten_is_row_major() {
    assert_eq!(flatten(GridPoint { x: 0, y: 0 }), 0);
    assert_eq!(flatten(GridPoint { x: 5, y: 0 }), 5);
    assert_eq!(flatten(GridPoint { x: 0, y: 1 }), 129);
    assert_eq!(flatten(GridPoint { x: 3, y: 2 }), 261);
    assert_eq!(flatten(GridPoint { x: 128, y: 128 }), 16640);
}

#[test]
fn flatten_covers_the_buffer_once() {
    let mut seen = vec![false; sample_count()];
    for y in 0..POINTS_PER_SIDE {
        for x in 0..POINTS_PER_SIDE {
            let i = flatten(GridPoint { x, y });
            assert!(i < seen.len());
            assert!(!seen[i]);
            seen[i] = true;
        }
    }
    assert!(seen.iter().all(|s| *s));
}

#[test]
fn inner_cell_blends_its_four_corners() {
    assert_eq!(
        cell_corners(3, 2),
        CellCorners { i00: 261, i10: 262, i01: 390, i11: 391 }
    );
}

#[test]
fn last_cell_is_held_on_the_edge() {
    assert_eq!(
        cell_corners(128, 128),
        CellCorners { i00: 16640, i10: 16640, i01: 16640, i11: 16640 }
    );
    assert_eq!(
        cell_corners(127, 0),
        CellCorners { i00: 127, i10: 128, i01: 256, i11: 257 }
    );
}
