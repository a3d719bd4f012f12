//! Moves as the players type them, and the board as they see it.

use regex::Regex;
use vstd::prelude::*;
use vstd::string::{StrSliceExecFns, StringExecFns};

use crate::board::Position;
use crate::game::{off_board, on_board, MartianChess, Move, COLS, ROWS, ZONE_ROWS};
use crate::pieces::Piece;

verus! {

/// A compiled regular expression of the `regex` crate. Nothing inside it is
/// visible here; what it finds is named by `found_in` and `groups_in`.
#[verifier::external_type_specification]
#[verifier::external_body]
pub struct ExRegex(regex::Regex);

/// The error with which the `regex` crate refuses a pattern.
#[verifier::external_type_specification]
#[verifier::external_body]
pub struct ExRegexError(regex::Error);

/// What `regex::Regex::new` makes of a pattern.
pub uninterp spec fn compiled(pattern: Seq<char>) -> Result<Regex, regex::Error>;

/// Whether `regex::Regex::is_match` finds a match of `re` anywhere in `haystack`.
pub uninterp spec fn found_in(re: Regex, haystack: Seq<char>) -> bool;

/// What `regex::Regex::captures` finds of `re` in `haystack`: nothing, or
/// for the leftmost match the text of each capture group, the whole match
/// first, with `None` for a group that took no part.
pub uninterp spec fn groups_in(re: Regex, haystack: Seq<char>) -> Option<Seq<Option<Seq<char>>>>;

/// `regex::Regex::new` compiles a pattern with the crate's default options.
/// What it returns is taken to depend on the pattern alone.
pub assume_specification[ Regex::new ](re: &str) -> (r: Result<Regex, regex::Error>)
    ensures
        r == compiled(re@),
;

/// `regex::Regex::is_match` tells whether the expression matches anywhere in
/// the haystack. What it returns is taken to depend on the expression and
/// the haystack alone.
pub assume_specification[ Regex::is_match ](re: &Regex, haystack: &str) -> (b: bool)
    ensures
        b == found_in(*re, haystack@),
;

/// The characters of a group, if the group took part in the match.
pub open spec fn text_of(group: Option<String>) -> Option<Seq<char>> {
    match group {
        Some(s) => Some(s@),
        None => None,
    }
}

/// The characters of each group of a match.
pub open spec fn texts(groups: Seq<Option<String>>) -> Seq<Option<Seq<char>>> {
    Seq::new(groups.len(), |i: int| text_of(groups[i]))
}

/// Calls `regex::Regex::captures` and copies the text of each group of the
/// match out of the haystack, in the order of `regex::Captures::iter`. What
/// comes back is taken to depend on the expression and the haystack alone.
#[verifier::external_body]
fn capture_groups(re: &Regex, haystack: &str) -> (r: Option<Vec<Option<String>>>)
    ensures
        match r {
            Some(groups) => groups_in(*re, haystack@) == Some(texts(groups@)),
            None => groups_in(*re, haystack@) is None,
        },
{
    re.captures(haystack).map(
        |caps| caps.iter().map(|group| group.map(|m| String::from(m.as_str()))).collect(),
    )
}

/// The column that a letter names: `a` to `d`, in either case.
pub open spec fn column_of(c: char) -> Option<int> {
    if 'a' <= c <= 'd' {
        Some(c as int - 'a' as int)
    } else if 'A' <= c <= 'D' {
        Some(c as int - 'A' as int)
    } else {
        None
    }
}

/// The row that a digit names: `1` to `8`.
pub open spec fn row_of(c: char) -> Option<int> {
    if '1' <= c <= '8' {
        Some(c as int - '1' as int)
    } else {
        None
    }
}

/// The one character of a group that holds exactly one.
pub open spec fn single(group: Option<Seq<char>>) -> Option<char> {
    match group {
        Some(text) => if text.len() == 1 {
            Some(text[0])
        } else {
            None
        },
        None => None,
    }
}

/// The cell that a column letter and a row digit name.
pub open spec fn cell_named(letter: Option<Seq<char>>, digit: Option<Seq<char>>) -> Option<
    Position,
> {
    match (single(letter), single(digit)) {
        (Some(l), Some(d)) => match (column_of(l), row_of(d)) {
            (Some(col), Some(row)) => Some(Position { row: row as usize, col: col as usize }),
            _ => None,
        },
        _ => None,
    }
}

/// The move that the groups of a match spell: after the whole match, a
/// column letter and a row digit for the source, then for the destination.
pub open spec fn move_spelled(groups: Seq<Option<Seq<char>>>) -> Option<Move> {
    if groups.len() != 5 {
        None
    } else {
        match (cell_named(groups[1], groups[2]), cell_named(groups[3], groups[4])) {
            (Some(src), Some(dst)) => Some(Move { src, dst }),
            _ => None,
        }
    }
}

/// The character of a group of exactly one character.
fn single_char(group: &Option<String>) -> (r: Option<char>)
    ensures
        r == single(text_of(*group)),
{
    match group {
        Some(s) => {
            let text = s.as_str();
            if text.unicode_len() == 1 {
                Some(text.get_char(0))
            } else {
                None
            }
        },
        None => None,
    }
}

/// The column that a letter names.
fn column(c: char) -> (r: Option<usize>)
    ensures
        match r {
            Some(col) => column_of(c) == Some(col as int),
            None => column_of(c) is None,
        },
{
    let code: u32 = c as u32;
    if 'a' as u32 <= code && code <= 'd' as u32 {
        Some((code - 'a' as u32) as usize)
    } else if 'A' as u32 <= code && code <= 'D' as u32 {
        Some((code - 'A' as u32) as usize)
    } else {
        None
    }
}

/// The row that a digit names.
fn row(c: char) -> (r: Option<usize>)
    ensures
        match r {
            Some(row) => row_of(c) == Some(row as int),
            None => row_of(c) is None,
        },
{
    let code: u32 = c as u32;
    if '1' as u32 <= code && code <= '8' as u32 {
        Some((code - '1' as u32) as usize)
    } else {
        None
    }
}

/// The cell that the groups of a letter and of a digit name.
fn cell(letter: &Option<String>, digit: &Option<String>) -> (r: Option<Position>)
    ensures
        r == cell_named(text_of(*letter), text_of(*digit)),
{
    match (single_char(letter), single_char(digit)) {
        (Some(l), Some(d)) => match (column(l), row(d)) {
            (Some(col), Some(row)) => Some(Position { row, col }),
            _ => None,
        },
        _ => None,
    }
}

/// Reads a move out of the groups of a match of `MOVE_PATTERN`.
pub fn move_from_groups(groups: &Vec<Option<String>>) -> (r: Option<Move>)
    ensures
        r == move_spelled(texts(groups@)),
        r matches Some(m) ==> on_board(m.src) && on_board(m.dst),
{
    if groups.len() != 5 {
        return None;
    }
    match (cell(&groups[1], &groups[2]), cell(&groups[3], &groups[4])) {
        (Some(src), Some(dst)) => Some(Move { src, dst }),
        _ => None,
    }
}

/// The pattern of a request to start the clock.
pub const CLOCK_PATTERN: &'static str = "\\s*clk\\s*";

/// The pattern of a move of a piece: two cells, each a column letter and a
/// row digit.
pub const MOVE_PATTERN: &'static str = "([a-dA-D])([1-8])([a-dA-D])([1-8])";

/// Whether a line asks to start the clock: whether `CLOCK_PATTERN` is found in it.
pub open spec fn clock_asked(input: Seq<char>) -> bool {
    match compiled(CLOCK_PATTERN@) {
        Ok(re) => found_in(re, input),
        Err(_) => false,
    }
}

/// The groups of the leftmost match of `MOVE_PATTERN` in a line.
pub open spec fn move_groups(input: Seq<char>) -> Option<Seq<Option<Seq<char>>>> {
    match compiled(MOVE_PATTERN@) {
        Ok(re) => groups_in(re, input),
        Err(_) => None,
    }
}

/// What a line means, given whether it asks for the clock and what groups
/// of a move were found in it. A request for the clock comes before a move,
/// whatever the clock shows: the rules of the game answer a request that
/// comes too late.
pub open spec fn meaning(asked: bool, groups: Option<Seq<Option<Seq<char>>>>) -> Option<Move> {
    if asked {
        Some(Move { src: off_board(), dst: off_board() })
    } else {
        match groups {
            Some(found) => move_spelled(found),
            None => None,
        }
    }
}

/// Decides what a line means from what was found in it.
pub fn interpret(asked: bool, groups: &Option<Vec<Option<String>>>) -> (r: Option<Move>)
    ensures
        r == meaning(
            asked,
            match *groups {
                Some(found) => Some(texts(found@)),
                None => None,
            },
        ),
        r matches Some(m) ==> m.wf(),
{
    if asked {
        Some(Move::clock_start())
    } else {
        match groups {
            Some(found) => move_from_groups(found),
            None => None,
        }
    }
}

/// Looks for `CLOCK_PATTERN` in a line.
fn asks_for_clock(input: &str) -> (asked: bool)
    ensures
        asked == clock_asked(input@),
{
    match Regex::new(CLOCK_PATTERN) {
        Ok(re) => re.is_match(input),
        Err(_) => false,
    }
}

/// Looks for `MOVE_PATTERN` in a line and hands out the groups of the match.
fn find_move_groups(input: &str) -> (groups: Option<Vec<Option<String>>>)
    ensures
        match groups {
            Some(found) => move_groups(input@) == Some(texts(found@)),
            None => move_groups(input@) is None,
        },
{
    match Regex::new(MOVE_PATTERN) {
        Ok(re) => capture_groups(&re, input),
        Err(_) => None,
    }
}

/// Reads a move from a line that a player typed: a request to start the
/// clock if the line holds one, else the first move of a piece spelled in it.
pub fn parse_move(input: &str) -> (r: Option<Move>)
    ensures
        r == meaning(clock_asked(input@), move_groups(input@)),
        r matches Some(m) ==> m.wf(),
{
    let asked = asks_for_clock(input);
    let groups = find_move_groups(input);
    interpret(asked, &groups)
}

/// The character that shows a cell.
pub open spec fn glyph_of(cell: Option<Piece>) -> char {
    match cell {
        None => '.',
        Some(Piece::Pawn) => 'P',
        Some(Piece::Drone) => 'D',
        Some(Piece::Queen) => 'Q',
    }
}

/// The digit that labels a row: `1` for the first.
pub open spec fn label_of(row: int) -> char {
    ('1' as int + row) as char
}

/// One line of the picture: the row's label, a colon, and its four cells.
pub open spec fn row_line(cells: Seq<Option<Piece>>, row: int) -> Seq<char> {
    seq![
        label_of(row),
        ':',
        glyph_of(cells[COLS * row]),
        glyph_of(cells[COLS * row + 1]),
        glyph_of(cells[COLS * row + 2]),
        glyph_of(cells[COLS * row + 3]),
        '\n',
    ]
}

/// The first `n` lines of rows, with a rule drawn below the first zone.
pub open spec fn row_lines(cells: Seq<Option<Piece>>, n: int) -> Seq<char>
    decreases n,
{
    if n <= 0 {
        Seq::empty()
    } else if n == ZONE_ROWS {
        row_lines(cells, n - 1) + row_line(cells, n - 1) + "-+----\n"@
    } else {
        row_lines(cells, n - 1) + row_line(cells, n - 1)
    }
}

/// The picture of a board: the column letters, a rule, and the eight rows.
pub open spec fn picture(cells: Seq<Option<Piece>>) -> Seq<char> {
    " |ABCD\n-+----\n"@ + row_lines(cells, ROWS as int)
}

/// The text that shows a cell.
fn glyph(cell: Option<Piece>) -> (s: &'static str)
    ensures
        s@ == seq![glyph_of(cell)],
{
    proof {
        reveal_strlit(".");
        reveal_strlit("P");
        reveal_strlit("D");
        reveal_strlit("Q");
    }
    match cell {
        None => ".",
        Some(Piece::Pawn) => "P",
        Some(Piece::Drone) => "D",
        Some(Piece::Queen) => "Q",
    }
}

/// The text that labels a row.
fn label(row: usize) -> (s: &'static str)
    requires
        row < ROWS,
    ensures
        s@ == seq![label_of(row as int)],
{
    proof {
        reveal_strlit("1");
        reveal_strlit("2");
        reveal_strlit("3");
        reveal_strlit("4");
        reveal_strlit("5");
        reveal_strlit("6");
        reveal_strlit("7");
        reveal_strlit("8");
    }
    if row == 0 {
        "1"
    } else if row == 1 {
        "2"
    } else if row == 2 {
        "3"
    } else if row == 3 {
        "4"
    } else if row == 4 {
        "5"
    } else if row == 5 {
        "6"
    } else if row == 6 {
        "7"
    } else {
        "8"
    }
}

impl MartianChess {
    /// Draws the board as text, one line for each row.
    pub fn render(&self) -> (text: String)
        requires
            self.on_game_board(),
        ensures
            text@ == picture(self@.cells),
    {
        let mut text = String::from_str(" |ABCD\n-+----\n");
        let mut i: usize = 0;
        while i < ROWS
            invariant
                self.on_game_board(),
                i <= ROWS,
                text@ == " |ABCD\n-+----\n"@ + row_lines(self@.cells, i as int),
            decreases ROWS - i,
        {
            let ghost before = text@;
            text.append(label(i));
            proof {
                reveal_strlit(":");
                reveal_strlit("\n");
            }
            text.append(":");
            let mut j: usize = 0;
            while j < COLS
                invariant
                    self.on_game_board(),
                    i < ROWS,
                    j <= COLS,
                    text@ == before + seq![label_of(i as int), ':'] + Seq::new(
                        j as nat,
                        |c: int| glyph_of(self@.cells[COLS * i + c]),
                    ),
                decreases COLS - j,
            {
                let occupant = self.board.get_piece(Position { row: i, col: j });
                text.append(glyph(occupant));
                j += 1;
            }
            text.append("\n");
            assert(text@ == before + row_line(self@.cells, i as int));
            if i + 1 == ZONE_ROWS {
                text.append("-+----\n");
            }
            i += 1;
        }
        text
    }
}

} // verus!
