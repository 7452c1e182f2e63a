//! Tic-tac-toe: the board, when it is full, when it is won, and where a move
//! may go.

use crate::chance::random_below;
use crate::words::{skip_space, skip_word, word_end, word_start};
use vstd::prelude::*;
use vstd::string::StrSliceExecFns;

verus! {

/// The mark of a cell that nobody has taken.
pub const FREE: char = ' ';

/// Three rows of three cells, each free or marked by a player.
#[derive(Clone, Copy, Debug, PartialEq, Eq)]
pub struct Board {
    pub board: [[char; 3]; 3],
}

/// What comes next in a game.
#[derive(Clone, Copy, Debug, PartialEq, Eq, Structural)]
pub enum Turn {
    /// The player is to move.
    PlayerMoves,
    /// The computer is to move.
    ComputerMoves,
    /// The game is over: the player has won.
    PlayerWon,
    /// The game is over: the computer has won.
    ComputerWon,
    /// The game is over: the board is full and nobody has won.
    Draw,
}

/// A move: the row and the column of a cell.
#[derive(Clone, Copy, Debug, PartialEq, Eq)]
pub struct PlayerInput {
    pub row: usize,
    pub col: usize,
}

impl Board {
    /// The mark in the cell at `row` and `col`.
    pub open spec fn cell(self, row: int, col: int) -> char {
        self.board@[row]@[col]
    }

    /// Whether the cell is free.
    pub open spec fn free(self, row: int, col: int) -> bool {
        self.cell(row, col) == FREE
    }

    /// Whether no cell is free.
    pub open spec fn full(self) -> bool {
        forall|row: int, col: int| 0 <= row < 3 && 0 <= col < 3 ==> !self.free(row, col)
    }

    /// Whether three cells hold the same mark of a player.
    pub open spec fn same_mark(self, a: (int, int), b: (int, int), c: (int, int)) -> bool {
        &&& !self.free(a.0, a.1)
        &&& self.cell(a.0, a.1) == self.cell(b.0, b.1)
        &&& self.cell(b.0, b.1) == self.cell(c.0, c.1)
    }

    /// Whether the row is one player's.
    pub open spec fn row_won(self, row: int) -> bool {
        self.same_mark((row, 0), (row, 1), (row, 2))
    }

    /// Whether the column is one player's.
    pub open spec fn column_won(self, col: int) -> bool {
        self.same_mark((0, col), (1, col), (2, col))
    }

    /// Whether a row, a column or a diagonal is one player's.
    pub open spec fn won(self) -> bool {
        ||| exists|row: int| 0 <= row < 3 && self.row_won(row)
        ||| exists|col: int| 0 <= col < 3 && self.column_won(col)
        ||| self.same_mark((0, 0), (1, 1), (2, 2))
        ||| self.same_mark((0, 2), (1, 1), (2, 0))
    }

    /// The empty board.
    pub fn new() -> (board: Board)
        ensures
            forall|row: int, col: int|
                0 <= row < 3 && 0 <= col < 3 ==> #[trigger] board.cell(row, col) == FREE,
    {
        Board { board: [[FREE;3];3] }
    }

    /// Whether the cell at `row` and `col` is free.
    pub fn is_free(&self, row: usize, col: usize) -> (free: bool)
        requires
            row < 3,
            col < 3,
        ensures
            free == self.free(row as int, col as int),
    {
        self.board[row][col] == FREE
    }

    /// Whether no cell is free.
    pub fn is_full(&self) -> (full: bool)
        ensures
            full == self.full(),
    {
        let mut row: usize = 0;
        while row < 3
            invariant
                row <= 3,
                forall|r: int, c: int| 0 <= r < row && 0 <= c < 3 ==> !self.free(r, c),
            decreases 3 - row,
        {
            let mut col: usize = 0;
            while col < 3
                invariant
                    row < 3,
                    col <= 3,
                    forall|r: int, c: int| 0 <= r < row && 0 <= c < 3 ==> !self.free(r, c),
                    forall|c: int| 0 <= c < col ==> !self.free(row as int, c),
                decreases 3 - col,
            {
                if self.board[row][col] == FREE {
                    assert(self.free(row as int, col as int));
                    return false;
                }
                col += 1;
            }
            row += 1;
        }
        true
    }

    /// Whether a row, a column or a diagonal holds three times the same mark
    /// of a player.
    pub fn is_won(&self) -> (won: bool)
        ensures
            won == self.won(),
    {
        let mut won = false;
        let mut i: usize = 0;
        while i < 3
            invariant
                i <= 3,
                won == (exists|row: int| 0 <= row < i && self.row_won(row)),
            decreases 3 - i,
        {
            let row = &self.board[i];
            if row[0] != FREE && row[0] == row[1] && row[1] == row[2] {
                assert(self.row_won(i as int));
                won = true;
            }
            i += 1;
        }
        let rows = won;
        i = 0;
        while i < 3
            invariant
                i <= 3,
                won == (rows || exists|col: int| 0 <= col < i && self.column_won(col)),
            decreases 3 - i,
        {
            if self.board[0][i] != FREE && self.board[0][i] == self.board[1][i] && self.board[1][i]
                == self.board[2][i] {
                assert(self.column_won(i as int));
                won = true;
            }
            i += 1;
        }
        if self.board[0][0] != FREE && self.board[0][0] == self.board[1][1] && self.board[1][1]
            == self.board[2][2] {
            won = true;
        }
        if self.board[0][2] != FREE && self.board[0][2] == self.board[1][1] && self.board[1][1]
            == self.board[2][0] {
            won = true;
        }
        won
    }
}

/// Whether a character is one of the ten digits.
pub open spec fn is_digit(c: char) -> bool {
    '0' <= c <= '9'
}

/// The number that a run of digits writes in base ten.
pub open spec fn digits_value(digits: Seq<char>) -> nat
    decreases digits.len(),
{
    if digits.len() == 0 {
        0
    } else {
        digits_value(digits.drop_last()) * 10 + (digits.last() as nat - '0' as nat) as nat
    }
}

/// Whether a run of characters holds digits only.
pub open spec fn all_digits(run: Seq<char>) -> bool {
    forall|i: int| 0 <= i < run.len() ==> is_digit(#[trigger] run[i])
}

/// A word without the plus sign that it may begin with.
pub open spec fn unsigned_part(word: Seq<char>) -> Seq<char> {
    if word.len() > 0 && word[0] == '+' {
        word.skip(1)
    } else {
        word
    }
}

/// The number that a word writes: a plus sign or none, then one digit or
/// more and nothing else, as long as the number fits the machine's index type.
pub open spec fn index_value(word: Seq<char>) -> Option<usize> {
    let digits = unsigned_part(word);
    if digits.len() > 0 && all_digits(digits) && digits_value(digits) <= usize::MAX {
        Some(digits_value(digits) as usize)
    } else {
        None
    }
}

/// The first word of a line and the word after it.
pub open spec fn first_two_words(line: Seq<char>) -> (Seq<char>, Seq<char>) {
    let row_start = word_start(line, 0);
    let row_end = word_end(line, row_start);
    let col_start = word_start(line, row_end);
    let col_end = word_end(line, col_start);
    (line.subrange(row_start, row_end), line.subrange(col_start, col_end))
}

/// The move that a line writes: its first two words, read as row and column.
/// What follows them is not looked at. A line with fewer words, or with a
/// word that writes no number, writes no move.
pub open spec fn written_move(line: Seq<char>) -> Option<(usize, usize)> {
    let (row, col) = first_two_words(line);
    match (index_value(row), index_value(col)) {
        (Some(row), Some(col)) => Some((row, col)),
        _ => None,
    }
}

proof fn lemma_digits_grow(digits: Seq<char>, k: int)
    requires
        0 <= k <= digits.len(),
        all_digits(digits),
    ensures
        digits_value(digits.take(k)) <= digits_value(digits),
    decreases digits.len() - k,
{
    if k < digits.len() {
        let longer = digits.take(k + 1);
        assert(longer.drop_last() =~= digits.take(k));
        lemma_digits_grow(digits, k + 1);
    } else {
        assert(digits.take(k) =~= digits);
    }
}

/// Reads the word between `from` and `to` as a number.
fn read_index(line: &str, from: usize, to: usize) -> (value: Option<usize>)
    requires
        from <= to <= line@.len(),
    ensures
        value == index_value(line@.subrange(from as int, to as int)),
{
    let ghost word = line@.subrange(from as int, to as int);
    let mut at = from;
    if at < to && line.get_char(at) == '+' {
        at += 1;
    }
    let first = at;
    let ghost digits = line@.subrange(first as int, to as int);
    if at == to {
        return None;
    }
    let mut value: usize = 0;
    while at < to
        invariant
            from <= first <= at <= to <= line@.len(),
            first < to,
            word == line@.subrange(from as int, to as int),
            digits == line@.subrange(first as int, to as int),
            digits == unsigned_part(word),
            forall|i: int| 0 <= i < at - first ==> is_digit(#[trigger] digits[i]),
            value == digits_value(digits.take(at - first)),
        decreases to - at,
    {
        let c = line.get_char(at);
        if c < '0' || c > '9' {
            assert(!is_digit(digits[at - first]));
            return None;
        }
        let digit = (c as u32 - '0' as u32) as usize;
        proof {
            let longer = digits.take(at - first + 1);
            assert(longer.drop_last() =~= digits.take(at - first));
            if all_digits(digits) {
                lemma_digits_grow(digits, at - first + 1);
            }
        }
        let tenfold = match value.checked_mul(10) {
            Some(tenfold) => tenfold,
            None => {
                return None;
            },
        };
        value = match tenfold.checked_add(digit) {
            Some(sum) => sum,
            None => {
                return None;
            },
        };
        at += 1;
    }
    assert(digits.take(at - first) =~= digits);
    Some(value)
}

impl Board {
    /// Marks the cell of a move.
    pub fn place(&mut self, input: &PlayerInput, mark: char)
        requires
            input.row < 3,
            input.col < 3,
        ensures
            final(self).cell(input.row as int, input.col as int) == mark,
            forall|row: int, col: int|
                0 <= row < 3 && 0 <= col < 3 && !(row == input.row && col == input.col)
                    ==> #[trigger] final(self).cell(row, col) == old(self).cell(row, col),
    {
        let mut cells = self.board[input.row];
        cells[input.col] = mark;
        self.board[input.row] = cells;
    }

    /// The free cells, in reading order.
    pub fn free_cells(&self) -> (cells: Vec<PlayerInput>)
        ensures
            forall|i: int|
                0 <= i < cells.len() ==> (#[trigger] cells[i]).row < 3 && cells[i].col < 3
                    && self.free(cells[i].row as int, cells[i].col as int),
            forall|row: int, col: int|
                0 <= row < 3 && 0 <= col < 3 && self.free(row, col) ==> exists|i: int|
                    0 <= i < cells.len() && (#[trigger] cells[i]).row == row && cells[i].col == col,
            forall|i: int, j: int|
                0 <= i < j < cells.len() ==> (#[trigger] cells[i]).row * 3 + cells[i].col < (
                #[trigger] cells[j]).row * 3 + cells[j].col,
    {
        let mut cells: Vec<PlayerInput> = Vec::new();
        let mut row: usize = 0;
        while row < 3
            invariant
                row <= 3,
                forall|i: int|
                    0 <= i < cells.len() ==> (#[trigger] cells[i]).row < row && cells[i].col < 3
                        && self.free(cells[i].row as int, cells[i].col as int),
                forall|r: int, c: int|
                    0 <= r < row && 0 <= c < 3 && self.free(r, c) ==> exists|i: int|
                        0 <= i < cells.len() && (#[trigger] cells[i]).row == r && cells[i].col == c,
                forall|i: int, j: int|
                    0 <= i < j < cells.len() ==> (#[trigger] cells[i]).row * 3 + cells[i].col < (
                    #[trigger] cells[j]).row * 3 + cells[j].col,
            decreases 3 - row,
        {
            let mut col: usize = 0;
            while col < 3
                invariant
                    row < 3,
                    col <= 3,
                    forall|i: int|
                        0 <= i < cells.len() ==> (#[trigger] cells[i]).row <= row && cells[i].col
                            < 3 && (cells[i].row == row ==> cells[i].col < col) && self.free(
                            cells[i].row as int,
                            cells[i].col as int,
                        ),
                    forall|r: int, c: int|
                        0 <= r < 3 && 0 <= c < 3 && (r < row || (r == row && c < col)) && self.free(
                            r,
                            c,
                        ) ==> exists|i: int|
                            0 <= i < cells.len() && (#[trigger] cells[i]).row == r && cells[i].col
                                == c,
                    forall|i: int, j: int|
                        0 <= i < j < cells.len() ==> (#[trigger] cells[i]).row * 3 + cells[i].col
                            < (#[trigger] cells[j]).row * 3 + cells[j].col,
                decreases 3 - col,
            {
                if self.board[row][col] == FREE {
                    let ghost before = cells@;
                    cells.push(PlayerInput { row, col });
                    proof {
                        let last = before.len() as int;
                        assert forall|r: int, c: int|
                            0 <= r < 3 && 0 <= c < 3 && (r < row || (r == row && c < col + 1))
                                && self.free(r, c) implies exists|i: int|
                            0 <= i < cells.len() && (#[trigger] cells[i]).row == r && cells[i].col
                                == c by {
                            if r == row && c == col {
                                assert(cells[last].row == r);
                            } else {
                                let i = choose|i: int|
                                    0 <= i < before.len() && (#[trigger] before[i]).row == r
                                        && before[i].col == c;
                                assert(cells[i] == before[i]);
                            }
                        }
                    }
                }
                col += 1;
            }
            row += 1;
        }
        cells
    }

    /// A row as it is shown: the three marks with a bar between two of them.
    pub fn row_line(&self, row: usize) -> (line: [char; 9])
        requires
            row < 3,
        ensures
            line@ == seq![
                self.cell(row as int, 0),
                ' ',
                '|',
                ' ',
                self.cell(row as int, 1),
                ' ',
                '|',
                ' ',
                self.cell(row as int, 2),
            ],
    {
        let cells = &self.board[row];
        let line = [cells[0], ' ', '|', ' ', cells[1], ' ', '|', ' ', cells[2]];
        assert(line@ =~= seq![
            self.cell(row as int, 0),
            ' ',
            '|',
            ' ',
            self.cell(row as int, 1),
            ' ',
            '|',
            ' ',
            self.cell(row as int, 2),
        ]);
        line
    }
}

impl PlayerInput {
    /// The move to the cell at `row` and `col`.
    pub fn new(row: usize, col: usize) -> (input: PlayerInput)
        ensures
            input.row == row,
            input.col == col,
    {
        PlayerInput { row, col }
    }

    /// Reads a move from a line: its first two words as row and column.
    /// `None` where the line writes no move.
    pub fn parse(input: String) -> (r: Option<PlayerInput>)
        ensures
            match r {
                Some(read) => written_move(input@) == Some((read.row, read.col)),
                None => written_move(input@) is None,
            },
    {
        if read_move(input.as_str()).is_some() {
            Some(PlayerInput::from_string(input))
        } else {
            None
        }
    }

    /// Reads a move from a line that writes one.
    pub fn from_string(input: String) -> (read: PlayerInput)
        requires
            written_move(input@) is Some,
        ensures
            written_move(input@) == Some((read.row, read.col)),
    {
        match read_move(input.as_str()) {
            Some(read) => read,
            None => unreached(),
        }
    }
}

/// Reads the first two words of a line as row and column.
fn read_move(line: &str) -> (r: Option<PlayerInput>)
    ensures
        match r {
            Some(read) => written_move(line@) == Some((read.row, read.col)),
            None => written_move(line@) is None,
        },
{
    let length = line.unicode_len();
    let row_start = skip_space(line, 0, length);
    let row_end = skip_word(line, row_start, length);
    let col_start = skip_space(line, row_end, length);
    let col_end = skip_word(line, col_start, length);
    match read_index(line, row_start, row_end) {
        None => None,
        Some(row) => match read_index(line, col_start, col_end) {
            None => None,
            Some(col) => Some(PlayerInput::new(row, col)),
        },
    }
}

/// What comes next on a board, given who moved last: whoever completed a
/// line has won; a full board without a line is a draw; otherwise the other
/// side moves.
pub open spec fn next_turn(board: Board, player_moved: bool) -> Turn {
    if board.won() {
        if player_moved {
            Turn::PlayerWon
        } else {
            Turn::ComputerWon
        }
    } else if board.full() {
        Turn::Draw
    } else if player_moved {
        Turn::ComputerMoves
    } else {
        Turn::PlayerMoves
    }
}

/// Decides what comes next after a move. On the empty board, with the
/// computer as the side that moved last, the player opens.
pub fn after_move(board: &Board, player_moved: bool) -> (next: Turn)
    ensures
        next == next_turn(*board, player_moved),
{
    if board.is_won() {
        if player_moved {
            Turn::PlayerWon
        } else {
            Turn::ComputerWon
        }
    } else if board.is_full() {
        Turn::Draw
    } else if player_moved {
        Turn::ComputerMoves
    } else {
        Turn::PlayerMoves
    }
}

/// A move of the computer: one of the free cells, each with the same chance.
pub fn get_computer_input(board: &Board) -> (input: PlayerInput)
    requires
        !board.full(),
    ensures
        input.row < 3,
        input.col < 3,
        board.free(input.row as int, input.col as int),
{
    let cells = board.free_cells();
    let chosen = random_below(cells.len());
    PlayerInput::new(cells[chosen].row, cells[chosen].col)
}

} // verus!
