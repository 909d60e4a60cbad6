use reversi_game::{Outcome, PlacementError, ReversiBoard, Side, Stone};

fn empty_cells() -> Vec<Stone> {
    vec![Stone::Empty; 64]
}

fn set(cells: &mut Vec<Stone>, row: usize, col: usize, stone: Stone) {
    cells[row * 8 + col] = stone;
}

fn snapshot(board: &ReversiBoard) -> Vec<Stone> {
    let mut out = Vec::new();
    for row in 0..8 {
        for col in 0..8 {
            out.push(*board.get(row, col).unwrap());
        }
    }
    out
}

fn stones(board: &ReversiBoard) -> usize {
    board.count(Stone::Black) + board.count(Stone::White)
}

#[test]
fn initial_board_layout() {
    let board = ReversiBoard::new();
    for row in 0..8 {
        for col in 0..8 {
            let expected = match (row, col) {
                (3, 3) | (4, 4) => Stone::Black,
                (3, 4) | (4, 3) => Stone::White,
                _ => Stone::Empty,
            };
            assert_eq!(board.get(row, col), Some(&expected));
        }
    }
    assert_eq!(board.count(Stone::Black), 2);
    assert_eq!(board.count(Stone::White), 2);
    assert_eq!(board.get_turn(), Side::Black);
    assert!(!board.is_end());
}

#[test]
fn initial_legal_moves() {
    let board = ReversiBoard::new();
    assert_eq!(board.legal_move_count(Side::Black), 4);
    assert_eq!(board.legal_move_count(Side::White), 4);
    assert!(board.can_set(2, 4));
    assert!(board.can_set(3, 5));
    assert!(board.can_set(4, 2));
    assert!(board.can_set(5, 3));
    assert!(!board.can_set(2, 3));
    assert!(!board.can_set(8, 8));
}

#[test]
fn get_off_board_is_none() {
    let board = ReversiBoard::new();
    assert_eq!(board.get(8, 0), None);
    assert_eq!(board.get(0, 8), None);
    assert_eq!(board.get(7, 7), Some(&Stone::Empty));
}

#[test]
fn first_move_captures_one_stone() {
    let mut board = ReversiBoard::new();
    assert_eq!(board.place(2, 4), Ok(()));
    assert_eq!(board.get(2, 4), Some(&Stone::Black));
    assert_eq!(board.get(3, 4), Some(&Stone::Black));
    assert_eq!(board.get(4, 3), Some(&Stone::White));
    assert_eq!(board.count(Stone::Black), 4);
    assert_eq!(board.count(Stone::White), 1);
    assert_eq!(board.get_turn(), Side::White);
    assert!(!board.is_end());
}

#[test]
fn first_move_without_capture_is_rejected() {
    let mut board = ReversiBoard::new();
    let before = snapshot(&board);
    assert_eq!(board.place(2, 3), Err(PlacementError::OccupiedOrNoCapture));
    assert_eq!(snapshot(&board), before);
    assert_eq!(board.get_turn(), Side::Black);
}

#[test]
fn out_of_bounds_is_rejected() {
    let mut board = ReversiBoard::new();
    let before = snapshot(&board);
    assert_eq!(board.place(8, 0), Err(PlacementError::OutOfBounds));
    assert_eq!(board.place(0, 8), Err(PlacementError::OutOfBounds));
    assert_eq!(board.place(usize::MAX, usize::MAX), Err(PlacementError::OutOfBounds));
    assert_eq!(snapshot(&board), before);
    assert_eq!(board.get_turn(), Side::Black);
    assert!(!board.is_end());
}

#[test]
fn occupied_cell_is_rejected() {
    let mut board = ReversiBoard::new();
    let before = snapshot(&board);
    assert_eq!(board.place(3, 3), Err(PlacementError::OccupiedOrNoCapture));
    assert_eq!(board.place(3, 4), Err(PlacementError::OccupiedOrNoCapture));
    assert_eq!(snapshot(&board), before);
    assert_eq!(board.get_turn(), Side::Black);
}

#[test]
fn empty_cell_without_capture_is_rejected() {
    let mut board = ReversiBoard::new();
    assert_eq!(board.place(0, 0), Err(PlacementError::OccupiedOrNoCapture));
    assert_eq!(board.place(5, 5), Err(PlacementError::OccupiedOrNoCapture));
    assert!(!board.try_set(0, 0));
    assert_eq!(board.get(0, 0), Some(&Stone::Empty));
}

#[test]
fn try_set_reports_success() {
    let mut board = ReversiBoard::new();
    assert!(board.try_set(5, 3));
    assert_eq!(board.get(4, 3), Some(&Stone::Black));
    assert_eq!(board.get_turn(), Side::White);
    assert!(!board.try_set(5, 3));
}

#[test]
fn stone_count_grows_by_one_per_move() {
    let mut board = ReversiBoard::new();
    let moves = [(2, 4), (2, 5), (2, 6), (2, 3), (4, 2)];
    let mut count = stones(&board);
    for (row, col) in moves {
        assert!(board.try_set(row, col), "move {} {}", row, col);
        let now = stones(&board);
        assert_eq!(now, count + 1);
        count = now;
        assert!(!board.try_set(3, 3));
        assert_eq!(stones(&board), count);
    }
}

#[test]
fn capture_flips_exactly_the_run() {
    let mut cells = empty_cells();
    set(&mut cells, 1, 1, Stone::White);
    set(&mut cells, 1, 2, Stone::Black);
    let mut board = ReversiBoard::from_position(cells, Side::Black).unwrap();
    assert_eq!(board.get_turn(), Side::Black);
    assert_eq!(board.legal_move_count(Side::Black), 1);
    assert_eq!(board.place(1, 0), Ok(()));
    for row in 0..8 {
        for col in 0..8 {
            let expected = if row == 1 && col <= 2 { Stone::Black } else { Stone::Empty };
            assert_eq!(board.get(row, col), Some(&expected));
        }
    }
}

#[test]
fn capture_spares_unanchored_runs() {
    let mut cells = empty_cells();
    // east: W W B, captured
    set(&mut cells, 4, 1, Stone::White);
    set(&mut cells, 4, 2, Stone::White);
    set(&mut cells, 4, 3, Stone::Black);
    // south: W W then empty, not captured
    set(&mut cells, 5, 0, Stone::White);
    set(&mut cells, 6, 0, Stone::White);
    // north: W W W W then the edge of the board, not captured
    set(&mut cells, 3, 0, Stone::White);
    set(&mut cells, 2, 0, Stone::White);
    set(&mut cells, 1, 0, Stone::White);
    set(&mut cells, 0, 0, Stone::White);
    // south-east: B W B, the run stops at the first black stone
    set(&mut cells, 5, 1, Stone::White);
    set(&mut cells, 6, 2, Stone::Black);
    set(&mut cells, 7, 3, Stone::White);
    let mut board = ReversiBoard::from_position(cells, Side::Black).unwrap();
    assert_eq!(board.place(4, 0), Ok(()));
    assert_eq!(board.get(4, 0), Some(&Stone::Black));
    assert_eq!(board.get(4, 1), Some(&Stone::Black));
    assert_eq!(board.get(4, 2), Some(&Stone::Black));
    assert_eq!(board.get(4, 3), Some(&Stone::Black));
    assert_eq!(board.get(5, 0), Some(&Stone::White));
    assert_eq!(board.get(6, 0), Some(&Stone::White));
    assert_eq!(board.get(3, 0), Some(&Stone::White));
    assert_eq!(board.get(0, 0), Some(&Stone::White));
    assert_eq!(board.get(5, 1), Some(&Stone::Black));
    assert_eq!(board.get(6, 2), Some(&Stone::Black));
    assert_eq!(board.get(7, 3), Some(&Stone::White));
    assert_eq!(board.count(Stone::Black), 6);
    assert_eq!(board.count(Stone::White), 7);
}

#[test]
fn turn_is_skipped_when_opponent_cannot_move() {
    let mut cells = empty_cells();
    set(&mut cells, 0, 0, Stone::Black);
    set(&mut cells, 0, 1, Stone::White);
    set(&mut cells, 7, 0, Stone::Black);
    set(&mut cells, 7, 1, Stone::White);
    let mut board = ReversiBoard::from_position(cells, Side::Black).unwrap();
    assert_eq!(board.legal_move_count(Side::White), 0);
    assert_eq!(board.place(0, 2), Ok(()));
    assert_eq!(board.legal_move_count(Side::White), 0);
    assert_eq!(board.legal_move_count(Side::Black), 1);
    assert_eq!(board.get_turn(), Side::Black);
    assert!(!board.is_end());
    assert_eq!(board.place(7, 2), Ok(()));
    assert!(board.is_end());
    assert_eq!(board.winner(), Outcome::Black);
}

#[test]
fn ended_game_stays_ended() {
    let mut cells = empty_cells();
    set(&mut cells, 1, 1, Stone::White);
    set(&mut cells, 1, 2, Stone::Black);
    set(&mut cells, 6, 6, Stone::White);
    set(&mut cells, 6, 7, Stone::White);
    let mut board = ReversiBoard::from_position(cells, Side::Black).unwrap();
    assert_eq!(board.place(1, 0), Ok(()));
    assert!(board.is_end());
    assert_eq!(board.winner(), Outcome::Black);
    let before = snapshot(&board);
    for row in 0..8 {
        for col in 0..8 {
            assert!(board.place(row, col).is_err());
        }
    }
    assert!(board.is_end());
    assert_eq!(snapshot(&board), before);
}

#[test]
fn position_without_moves_is_ended() {
    let mut cells = empty_cells();
    set(&mut cells, 0, 0, Stone::Black);
    set(&mut cells, 7, 7, Stone::White);
    let board = ReversiBoard::from_position(cells, Side::White).unwrap();
    assert!(board.is_end());
    assert_eq!(board.winner(), Outcome::Draw);
}

#[test]
fn winner_is_white_with_more_stones() {
    let mut cells = empty_cells();
    set(&mut cells, 0, 0, Stone::White);
    set(&mut cells, 7, 7, Stone::White);
    set(&mut cells, 3, 3, Stone::Black);
    let board = ReversiBoard::from_position(cells, Side::Black).unwrap();
    assert!(board.is_end());
    assert_eq!(board.winner(), Outcome::White);
}

#[test]
fn position_passes_turn_to_side_that_can_move() {
    let mut cells = empty_cells();
    set(&mut cells, 0, 0, Stone::Black);
    set(&mut cells, 0, 1, Stone::White);
    let board = ReversiBoard::from_position(cells, Side::White).unwrap();
    assert_eq!(board.get_turn(), Side::Black);
    assert!(!board.is_end());
}

#[test]
fn position_needs_sixty_four_cells() {
    assert!(ReversiBoard::from_position(vec![Stone::Empty; 63], Side::Black).is_none());
    assert!(ReversiBoard::from_position(vec![Stone::Empty; 65], Side::Black).is_none());
}

#[test]
fn side_opponent_and_stone() {
    assert_eq!(Side::Black.opponent(), Side::White);
    assert_eq!(Side::White.opponent(), Side::Black);
    assert_eq!(Side::Black.stone(), Stone::Black);
    assert_eq!(Side::White.stone(), Stone::White);
}
