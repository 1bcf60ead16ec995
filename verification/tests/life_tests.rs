use game_of_life::life::Board;

/// Builds a board with the standard rules and the given cells.
fn board_from(rows: usize, cols: usize, cells: Vec<bool>) -> Board {
    let empty = Board::new(rows, cols);
    assert_eq!(cells.len(), rows * cols);
    empty.next_board(cells)
}

fn all_dead(b: &Board) -> bool {
    let mut dead = true;
    for y in 0..b.height() {
        for x in 0..b.width() {
            if b.cell_live(x, y) {
                dead = false;
            }
        }
    }
    dead
}

#[test]
fn new_board_is_all_dead_with_default_rules() {
    let b = Board::new(3, 4);
    assert_eq!(b.width(), 4);
    assert_eq!(b.height(), 3);
    assert_eq!(b.len(), 12);
    assert!(all_dead(&b));
    assert_eq!(*b.born, vec![3]);
    assert_eq!(*b.survive, vec![2, 3]);
}

#[test]
fn zero_area_boards_are_valid() {
    let b = Board::new(0, 0);
    assert_eq!(b.len(), 0);
    let b = Board::new(5, 0);
    assert_eq!(b.len(), 0);
    let stepped = b.next_generation();
    assert_eq!(stepped.len(), 0);
}

#[test]
fn interior_live_cell_with_two_neighbors_survives() {
    // Row 1 holds three live cells; the center has 2 live neighbors.
    let b = board_from(
        3,
        3,
        vec![
            false, false, false, // row 0
            true, true, true, // row 1
            false, false, false, // row 2
        ],
    );
    assert_eq!(b.live_neighbor_count(1, 1), 2);
    let s = b.next_generation();
    assert!(s.cell_live(1, 1));
}

#[test]
fn interior_live_cell_with_three_neighbors_survives() {
    let b = board_from(
        3,
        3,
        vec![
            false, true, false, // row 0
            true, true, true, // row 1
            false, false, false, // row 2
        ],
    );
    assert_eq!(b.live_neighbor_count(1, 1), 3);
    let s = b.next_generation();
    assert!(s.cell_live(1, 1));
}

#[test]
fn interior_live_cell_with_one_neighbor_dies() {
    let b = board_from(
        3,
        3,
        vec![
            false, false, false, // row 0
            false, true, true, // row 1
            false, false, false, // row 2
        ],
    );
    assert_eq!(b.live_neighbor_count(1, 1), 1);
    let s = b.next_generation();
    assert!(!s.cell_live(1, 1));
}

#[test]
fn interior_live_cell_with_four_neighbors_dies() {
    let b = board_from(
        3,
        3,
        vec![
            false, true, false, // row 0
            true, true, true, // row 1
            false, true, false, // row 2
        ],
    );
    assert_eq!(b.live_neighbor_count(1, 1), 4);
    let s = b.next_generation();
    assert!(!s.cell_live(1, 1));
}

#[test]
fn interior_dead_cell_with_three_neighbors_is_born() {
    let b = board_from(
        3,
        3,
        vec![
            false, true, false, // row 0
            true, false, true, // row 1
            false, false, false, // row 2
        ],
    );
    assert!(!b.cell_live(1, 1));
    assert_eq!(b.live_neighbor_count(1, 1), 3);
    let s = b.next_generation();
    assert!(s.cell_live(1, 1));
}

#[test]
fn corner_cell_never_counts_out_of_bounds_neighbors() {
    // A single live cell in the corner has 0 live neighbors: the five
    // positions off the grid read as dead, so the whole board dies.
    let b = board_from(
        3,
        3,
        vec![
            true, false, false, // row 0
            false, false, false, // row 1
            false, false, false, // row 2
        ],
    );
    assert_eq!(b.live_neighbor_count(0, 0), 0);
    assert_eq!(b.live_neighbor_count(1, 1), 1);
    let s = b.next_generation();
    assert!(all_dead(&s));
}

#[test]
fn all_dead_board_stays_all_dead() {
    for (rows, cols) in [(1, 1), (2, 5), (4, 4), (7, 3)] {
        let b = Board::new(rows, cols);
        let s = b.next_generation();
        assert_eq!(s.len(), rows * cols);
        assert!(all_dead(&s));
    }
}

#[test]
fn blinker_oscillates_with_period_two() {
    // A vertical bar in column 1 of a 3x3 board.
    let seed = vec![
        false, true, false, // row 0
        false, true, false, // row 1
        false, true, false, // row 2
    ];
    let b = board_from(3, 3, seed.clone());
    let once = b.next_generation();
    // After one step the bar lies along row 1.
    assert_eq!(
        once.cells,
        vec![
            false, false, false, // row 0
            true, true, true, // row 1
            false, false, false, // row 2
        ],
    );
    let twice = once.next_generation();
    assert_eq!(twice.cells, seed);
    // Stepping twice more returns to the same phase again.
    let four_times = twice.next_generation().next_generation();
    assert_eq!(four_times.cells, seed);
}

#[test]
fn randomize_preserves_length_dimensions_and_rules() {
    let b = Board::new(6, 7);
    for _ in 0..20 {
        let r = b.randomize();
        assert_eq!(r.cells.len(), 42);
        assert_eq!(r.width(), 7);
        assert_eq!(r.height(), 6);
        assert_eq!(*r.born, vec![3]);
        assert_eq!(*r.survive, vec![2, 3]);
    }
}

#[test]
fn next_board_with_copied_cells_round_trips() {
    let b = board_from(
        2,
        3,
        vec![
            true, false, true, // row 0
            false, true, false, // row 1
        ],
    );
    let copy = b.next_board(b.cells.clone());
    assert_eq!(copy.cells, b.cells);
    assert_eq!(copy.rows, b.rows);
    assert_eq!(copy.cols, b.cols);
    assert_eq!(*copy.born, *b.born);
    assert_eq!(*copy.survive, *b.survive);
}

#[test]
fn duplicate_copies_every_field() {
    let b = board_from(2, 2, vec![true, false, false, true]);
    let d = b.duplicate();
    assert_eq!(d.cells, b.cells);
    assert_eq!(d.rows, 2);
    assert_eq!(d.cols, 2);
    assert_eq!(*d.born, *b.born);
    assert_eq!(*d.survive, *b.survive);
}

#[test]
fn custom_rules_drive_the_successor() {
    // Born with exactly 1 neighbor, never survive: a lone live cell
    // dies while all three of its neighbors are born.
    let empty = Board::new_with_custom_rules(2, 2, vec![1], vec![]);
    assert_eq!(*empty.born, vec![1]);
    assert!(empty.survive.is_empty());
    let b = empty.next_board(vec![true, false, false, false]);
    let s = b.next_generation();
    assert_eq!(s.cells, vec![false, true, true, true]);
}

#[test]
fn get_cell_coordinates_inverts_row_major_indexing() {
    let b = Board::new(4, 5);
    assert_eq!(b.get_cell_coordinates(0), (0, 0));
    assert_eq!(b.get_cell_coordinates(7), (2, 1));
    assert_eq!(b.get_cell_coordinates(19), (4, 3));
}

#[test]
fn successor_cell_matches_successor_by_coordinates() {
    let b = board_from(
        3,
        3,
        vec![
            false, true, false, // row 0
            false, true, false, // row 1
            false, true, false, // row 2
        ],
    );
    for cell in 0..9 {
        let (x, y) = b.get_cell_coordinates(cell);
        assert_eq!(b.successor_cell(cell), b.successor(x, y));
    }
}
