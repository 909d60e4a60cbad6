use reversi_game::{Input, InputError, ReversiBoard, Side, Stone};

#[test]
fn parse_row_and_column() {
    assert_eq!(Input::parse("4 F"), Ok((3, 5)));
    assert_eq!(Input::parse("1 A"), Ok((0, 0)));
    assert_eq!(Input::parse("8 H"), Ok((7, 7)));
    assert_eq!(Input::parse("  3\te  extra words\n"), Ok((2, 4)));
}

#[test]
fn parse_reports_missing_words() {
    assert_eq!(Input::parse(""), Err(InputError::MissingParameter));
    assert_eq!(Input::parse("   \n"), Err(InputError::MissingParameter));
    assert_eq!(Input::parse("4"), Err(InputError::MissingParameter));
    assert_eq!(Input::parse("4 \n"), Err(InputError::MissingParameter));
}

#[test]
fn parse_reports_bad_row() {
    assert_eq!(Input::parse("9 A"), Err(InputError::BadRow));
    assert_eq!(Input::parse("0 A"), Err(InputError::BadRow));
    assert_eq!(Input::parse("A 4"), Err(InputError::BadRow));
    assert_eq!(Input::parse("12 A"), Err(InputError::BadRow));
    assert_eq!(Input::parse("x"), Err(InputError::BadRow));
}

#[test]
fn parse_reports_bad_column() {
    assert_eq!(Input::parse("4 I"), Err(InputError::BadColumn));
    assert_eq!(Input::parse("4 FF"), Err(InputError::BadColumn));
    assert_eq!(Input::parse("4 5"), Err(InputError::BadColumn));
}

#[test]
fn error_messages() {
    assert_eq!(InputError::MissingParameter.message(), "[!] Please input two parameter");
    assert_eq!(InputError::BadRow.message(), "[!] Please input [1-8] number at first parameter");
    assert_eq!(
        InputError::BadColumn.message(),
        "[!] Please input [A-H] character at second parameter"
    );
    assert_eq!(InputError::CannotPlace.message(), "[!] Cannot put stone this");
}

#[test]
fn input_plays_a_legal_move() {
    let mut board = ReversiBoard::new();
    assert_eq!(Input::new(&mut board, "3 E"), Ok(()));
    assert_eq!(board.get(2, 4), Some(&Stone::Black));
    assert_eq!(board.get(3, 4), Some(&Stone::Black));
    assert_eq!(board.get_turn(), Side::White);
}

#[test]
fn input_rejects_an_illegal_move() {
    let mut board = ReversiBoard::new();
    assert_eq!(Input::new(&mut board, "4 D"), Err("[!] Cannot put stone this"));
    assert_eq!(Input::new(&mut board, "3 D"), Err("[!] Cannot put stone this"));
    assert_eq!(Input::new(&mut board, "9 D"), Err("[!] Please input [1-8] number at first parameter"));
    assert_eq!(board.get(3, 3), Some(&Stone::Black));
    assert_eq!(board.get_turn(), Side::Black);
    assert_eq!(board.count(Stone::Black), 2);
}
