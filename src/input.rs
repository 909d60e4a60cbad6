use vstd::prelude::*;
use vstd::string::*;
use crate::board::ReversiBoard;

verus! {

/// Why a line of input gave no move.
#[derive(PartialEq, Eq, Structural, Clone, Copy, Debug)]
pub enum InputError {
    /// The line holds fewer than two words.
    MissingParameter,
    /// The first word is not a row number from 1 to 8.
    BadRow,
    /// The second word is not a column letter from A to H.
    BadColumn,
    /// The move was read but the side to move may not play it.
    CannotPlace,
}

impl InputError {
    pub open spec fn spec_message(self) -> &'static str {
        match self {
            InputError::MissingParameter => "[!] Please input two parameter",
            InputError::BadRow => "[!] Please input [1-8] number at first parameter",
            InputError::BadColumn => "[!] Please input [A-H] character at second parameter",
            InputError::CannotPlace => "[!] Cannot put stone this",
        }
    }

    /// The text shown to the player for this error.
    #[verifier::when_used_as_spec(spec_message)]
    pub fn message(self) -> (r: &'static str)
        ensures
            r == self.spec_message(),
    {
        match self {
            InputError::MissingParameter => "[!] Please input two parameter",
            InputError::BadRow => "[!] Please input [1-8] number at first parameter",
            InputError::BadColumn => "[!] Please input [A-H] character at second parameter",
            InputError::CannotPlace => "[!] Cannot put stone this",
        }
    }
}

/// Whether `ch` is white space in the sense of Unicode's `White_Space`.
pub open spec fn is_space(ch: char) -> bool {
    let u = ch as u32;
    (0x09 <= u <= 0x0D) || u == 0x20 || u == 0x85 || u == 0xA0 || u == 0x1680 || (0x2000 <= u
        <= 0x200A) || u == 0x2028 || u == 0x2029 || u == 0x202F || u == 0x205F || u == 0x3000
}

/// Index of the first character at or after `i` that is not white space.
pub open spec fn skip_space(s: Seq<char>, i: int) -> int
    decreases s.len() - i,
{
    if 0 <= i < s.len() && is_space(s[i]) {
        skip_space(s, i + 1)
    } else {
        i
    }
}

/// Index of the first white space character at or after `i`.
pub open spec fn skip_word(s: Seq<char>, i: int) -> int
    decreases s.len() - i,
{
    if 0 <= i < s.len() && !is_space(s[i]) {
        skip_word(s, i + 1)
    } else {
        i
    }
}

/// The first word of `s` from index `i` on, empty if there is none.
pub open spec fn word_from(s: Seq<char>, i: int) -> Seq<char> {
    s.subrange(skip_space(s, i), skip_word(s, skip_space(s, i)))
}

/// Index just past the first word of `s` from index `i` on.
pub open spec fn word_end(s: Seq<char>, i: int) -> int {
    skip_word(s, skip_space(s, i))
}

/// The row, from 0 to 7, that a word names: a single digit from 1 to 8.
pub open spec fn row_of(w: Seq<char>) -> Option<int> {
    if w.len() == 1 && '1' as u32 <= w[0] as u32 <= '8' as u32 {
        Some(w[0] as u32 - '1' as u32)
    } else {
        None
    }
}

/// The column, from 0 to 7, that a word names: a single letter from A to H,
/// in either case.
pub open spec fn col_of(w: Seq<char>) -> Option<int> {
    if w.len() == 1 && 'A' as u32 <= w[0] as u32 <= 'H' as u32 {
        Some(w[0] as u32 - 'A' as u32)
    } else if w.len() == 1 && 'a' as u32 <= w[0] as u32 <= 'h' as u32 {
        Some(w[0] as u32 - 'a' as u32)
    } else {
        None
    }
}

/// The move that a line of input names: its first word is the row, its
/// second the column; words after these are ignored.
pub open spec fn move_of(s: Seq<char>) -> Result<(int, int), InputError> {
    let first = word_from(s, 0);
    let second = word_from(s, word_end(s, 0));
    if first.len() == 0 {
        Err(InputError::MissingParameter)
    } else if row_of(first) is None {
        Err(InputError::BadRow)
    } else if second.len() == 0 {
        Err(InputError::MissingParameter)
    } else if col_of(second) is None {
        Err(InputError::BadColumn)
    } else {
        Ok((row_of(first)->0, col_of(second)->0))
    }
}

fn is_space_char(ch: char) -> (b: bool)
    ensures
        b == is_space(ch),
{
    let u = ch as u32;
    (0x09 <= u && u <= 0x0D) || u == 0x20 || u == 0x85 || u == 0xA0 || u == 0x1680 || (0x2000 <= u
        && u <= 0x200A) || u == 0x2028 || u == 0x2029 || u == 0x202F || u == 0x205F || u == 0x3000
}

fn skip_spaces(s: &str, len: usize, i: usize) -> (j: usize)
    requires
        len == s@.len(),
        i <= len,
    ensures
        j == skip_space(s@, i as int),
        i <= j <= len,
{
    let mut j = i;
    while j < len && is_space_char(s.get_char(j))
        invariant
            len == s@.len(),
            i <= j <= len,
            skip_space(s@, i as int) == skip_space(s@, j as int),
        decreases len - j,
    {
        j += 1;
    }
    j
}

fn skip_word_chars(s: &str, len: usize, i: usize) -> (j: usize)
    requires
        len == s@.len(),
        i <= len,
    ensures
        j == skip_word(s@, i as int),
        i <= j <= len,
{
    let mut j = i;
    while j < len && !is_space_char(s.get_char(j))
        invariant
            len == s@.len(),
            i <= j <= len,
            skip_word(s@, i as int) == skip_word(s@, j as int),
        decreases len - j,
    {
        j += 1;
    }
    j
}

/// Reads moves typed by a player.
pub struct Input;

impl Input {
    /// The move that `line` names, as a 0-based row and column.
    pub fn parse(line: &str) -> (r: Result<(usize, usize), InputError>)
        ensures
            r matches Ok((row, col)) ==> move_of(line@) == Ok::<(int, int), InputError>(
                (row as int, col as int),
            ),
            r matches Err(e) ==> move_of(line@) == Err::<(int, int), InputError>(e),
    {
        let len = line.unicode_len();
        let a = skip_spaces(line, len, 0);
        let e = skip_word_chars(line, len, a);
        let ghost first = line@.subrange(a as int, e as int);
        assert(first =~= word_from(line@, 0));
        if a == e {
            return Err(InputError::MissingParameter);
        }
        let row: usize;
        let ch = line.get_char(a);
        if e - a == 1 && '1' <= ch && ch <= '8' {
            row = (ch as u32 - '1' as u32) as usize;
        } else {
            return Err(InputError::BadRow);
        }
        let b = skip_spaces(line, len, e);
        let f = skip_word_chars(line, len, b);
        assert(line@.subrange(b as int, f as int) =~= word_from(line@, word_end(line@, 0)));
        if b == f {
            return Err(InputError::MissingParameter);
        }
        let ch = line.get_char(b);
        if f - b != 1 {
            return Err(InputError::BadColumn);
        }
        let col: usize;
        if 'A' <= ch && ch <= 'H' {
            col = (ch as u32 - 'A' as u32) as usize;
        } else if 'a' <= ch && ch <= 'h' {
            col = (ch as u32 - 'a' as u32) as usize;
        } else {
            return Err(InputError::BadColumn);
        }
        Ok((row, col))
    }

    /// Plays the move that `line` names on `board`, or says why it could not:
    /// the line does not name a move, or the move is not legal.
    pub fn new(board: &mut ReversiBoard, line: &str) -> (r: Result<(), &'static str>)
        ensures
            move_of(line@) is Err ==> r == Err::<(), &'static str>(
                move_of(line@)->Err_0.message(),
            ),
            move_of(line@) is Err ==> final(board)@ == old(board)@,
            move_of(line@) is Ok ==> (r is Ok <==> old(board)@.can_place(
                move_of(line@)->Ok_0.0,
                move_of(line@)->Ok_0.1,
            )),
            move_of(line@) is Ok && r is Ok ==> final(board)@ == old(board)@.after_place(
                move_of(line@)->Ok_0.0,
                move_of(line@)->Ok_0.1,
            ),
            move_of(line@) is Ok && r is Err ==> r == Err::<(), &'static str>(
                InputError::CannotPlace.message(),
            ),
            r is Err ==> final(board)@ == old(board)@,
    {
        match Input::parse(line) {
            Err(e) => Err(e.message()),
            Ok((row, col)) => {
                if board.try_set(row, col) {
                    Ok(())
                } else {
                    Err(InputError::CannotPlace.message())
                }
            },
        }
    }
}

} // verus!
