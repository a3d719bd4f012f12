//! The game state and the rules that accept or reject a move.

use vstd::prelude::*;

use crate::board::{
    count_of, held, lemma_count_occupied, lemma_count_update, lemma_count_vacant, Board, Position,
};
use crate::pieces::{
    distance, promotion, shape_error, shape_ok, value, Piece, PromotionError, ShapeError,
};
use crate::Config;

verus! {

/// Rows of the game board.
pub const ROWS: usize = 8;

/// Columns of the game board.
pub const COLS: usize = 4;

/// Rows of one player's zone; the first player's zone comes first.
pub const ZONE_ROWS: usize = 4;

/// Row and column of the position that stands for no cell at all.
pub const OFF_BOARD: usize = 32;

/// Moves on the clock when it is started, and again after each capture.
pub const CLOCK_START: i32 = 8;

/// Most pieces of one rank that the board may hold.
pub const RANK_LIMIT: usize = 6;

/// Most pieces of a rank that a zone may already hold when one more is made there.
pub const ZONE_LIMIT: usize = 1;

/// A request to move the piece on `src` to `dst`, or, where `src` is off the
/// board, to start the clock.
#[derive(Debug, Copy, Clone, PartialEq, Eq, Structural)]
pub struct Move {
    pub src: Position,
    pub dst: Position,
}

/// Why a move was rejected.
#[derive(Debug, Copy, Clone, PartialEq, Eq, Structural)]
pub enum MoveError {
    /// The clock was asked to start but is not waiting to be started.
    ClockAlreadyStarted,
    /// The source cell is empty.
    NoPieceAtSource,
    /// The destination cell is empty where a promotion needs a piece.
    NoPieceAtDestination,
    /// The source cell is not in the zone of the player to move.
    SourceNotInZone,
    /// Source and destination are the same cell.
    NullMove,
    /// The move takes back the move made just before it.
    UndoRejected,
    /// The piece cannot move that way.
    InvalidShape(ShapeError),
    /// A piece stands between source and destination.
    PathBlocked,
    /// The two pieces cannot be merged.
    CannotPromote(PromotionError),
    /// The board already holds as many pieces of the merged rank as it may.
    PromotionLimitExceeded,
    /// The mover's zone already holds too many pieces of the merged rank.
    DuplicateInZone,
}

/// One of the two players.
#[derive(Debug, Copy, Clone, PartialEq, Eq, Structural)]
pub enum Player {
    One,
    Two,
}

/// Why a game has ended.
#[derive(Debug, Copy, Clone, PartialEq, Eq, Structural)]
pub enum GameOver {
    /// No piece is left in the first player's zone.
    ZoneOneEmpty,
    /// No piece is left in the second player's zone.
    ZoneTwoEmpty,
    /// The clock has counted down to zero.
    ClockExpired,
}

impl MoveError {
    /// The words that tell a player of this error.
    pub open spec fn text(self) -> Seq<char> {
        match self {
            MoveError::ClockAlreadyStarted => "Clock already started"@,
            MoveError::NoPieceAtSource => "No piece at source position"@,
            MoveError::NoPieceAtDestination => "No destination piece to promote"@,
            MoveError::SourceNotInZone => "Source Position is not in Player zone of control"@,
            MoveError::NullMove => "Must move piece to location different from starting location"@,
            MoveError::UndoRejected => "Cannot use your move to undo previous move"@,
            MoveError::InvalidShape(e) => e.text(),
            MoveError::PathBlocked => "Move blocked by a piece in between"@,
            MoveError::CannotPromote(e) => e.text(),
            MoveError::PromotionLimitExceeded =>
                "Cannot have more than 6 of one piece on the board"@,
            MoveError::DuplicateInZone => "Cannot promote if piece type already in your zone"@,
        }
    }

    /// Says in words why the move was rejected.
    pub fn message(&self) -> (s: &'static str)
        ensures
            s@ == self.text(),
    {
        match self {
            MoveError::ClockAlreadyStarted => "Clock already started",
            MoveError::NoPieceAtSource => "No piece at source position",
            MoveError::NoPieceAtDestination => "No destination piece to promote",
            MoveError::SourceNotInZone => "Source Position is not in Player zone of control",
            MoveError::NullMove => "Must move piece to location different from starting location",
            MoveError::UndoRejected => "Cannot use your move to undo previous move",
            MoveError::InvalidShape(e) => e.message(),
            MoveError::PathBlocked => "Move blocked by a piece in between",
            MoveError::CannotPromote(e) => e.message(),
            MoveError::PromotionLimitExceeded => {
                "Cannot have more than 6 of one piece on the board"
            },
            MoveError::DuplicateInZone => "Cannot promote if piece type already in your zone",
        }
    }
}

impl GameOver {
    /// The words that tell the players why the game has ended.
    pub open spec fn text(self) -> Seq<char> {
        match self {
            GameOver::ZoneOneEmpty => "Game Over: No pieces in zone 1"@,
            GameOver::ZoneTwoEmpty => "Game Over: No pieces in zone 2"@,
            GameOver::ClockExpired => "Game Over: Clock has reached 0"@,
        }
    }

    /// Says in words why the game has ended.
    pub fn message(&self) -> (s: &'static str)
        ensures
            s@ == self.text(),
    {
        match self {
            GameOver::ZoneOneEmpty => "Game Over: No pieces in zone 1",
            GameOver::ZoneTwoEmpty => "Game Over: No pieces in zone 2",
            GameOver::ClockExpired => "Game Over: Clock has reached 0",
        }
    }
}

/// Whether `p` is a cell of the game board.
pub open spec fn on_board(p: Position) -> bool {
    p.row < ROWS && p.col < COLS
}

/// The position that is no cell: the source of a request to start the clock.
pub open spec fn off_board() -> Position {
    Position { row: OFF_BOARD, col: OFF_BOARD }
}

/// Row-major index of a cell of the game board.
pub open spec fn cell_index(p: Position) -> int {
    COLS * p.row + p.col
}

/// The zone a cell lies in: 0 for the first player's half, 1 for the second's.
pub open spec fn zone_of(p: Position) -> int {
    if p.row < ZONE_ROWS {
        0
    } else {
        1
    }
}

/// The cells of one zone, in row-major order.
pub open spec fn zone_cells(cells: Seq<Option<Piece>>, zone: int) -> Seq<Option<Piece>> {
    cells.subrange(zone * (ZONE_ROWS * COLS), (zone + 1) * (ZONE_ROWS * COLS))
}

/// Coordinate reached from `from` after `k` unit steps toward `to`.
pub open spec fn toward(from: int, to: int, k: int) -> int {
    if to > from {
        from + k
    } else if to < from {
        from - k
    } else {
        from
    }
}

/// Whether `dst` lies on the row, the column or a diagonal of `src`.
pub open spec fn straight(src: Position, dst: Position) -> bool {
    let dr = distance(src.row as int, dst.row as int);
    let dc = distance(src.col as int, dst.col as int);
    dr == 0 || dc == 0 || dr == dc
}

/// Unit steps from `src` to `dst` along a straight line.
pub open spec fn steps(src: Position, dst: Position) -> int {
    let dr = distance(src.row as int, dst.row as int);
    let dc = distance(src.col as int, dst.col as int);
    if dr >= dc {
        dr
    } else {
        dc
    }
}

/// Index of the cell reached after `k` unit steps from `src` toward `dst`.
pub open spec fn path_index(src: Position, dst: Position, k: int) -> int {
    COLS * toward(src.row as int, dst.row as int, k) + toward(src.col as int, dst.col as int, k)
}

/// Whether every cell strictly between `src` and `dst` is empty.
pub open spec fn path_clear(cells: Seq<Option<Piece>>, src: Position, dst: Position) -> bool {
    forall|k: int| 0 < k < steps(src, dst) ==> cells[#[trigger] path_index(src, dst, k)] is None
}

impl Move {
    /// Whether the move asks to start the clock.
    pub open spec fn is_clock_start(&self) -> bool {
        self.src == off_board()
    }

    /// The move starts the clock, or names two cells of the board.
    pub open spec fn wf(&self) -> bool {
        self.is_clock_start() || (on_board(self.src) && on_board(self.dst))
    }

    /// The move that takes this one back.
    pub open spec fn reversed(&self) -> Move {
        Move { src: self.dst, dst: self.src }
    }

    /// The request to start the clock.
    pub fn clock_start() -> (m: Move)
        ensures
            m.src == off_board(),
            m.dst == off_board(),
            m.wf(),
    {
        Move {
            src: Position { row: OFF_BOARD, col: OFF_BOARD },
            dst: Position { row: OFF_BOARD, col: OFF_BOARD },
        }
    }

    /// Tells a request to start the clock from a move of a piece.
    pub fn starts_clock(&self) -> (b: bool)
        ensures
            b == self.is_clock_start(),
    {
        self.src.row == OFF_BOARD && self.src.col == OFF_BOARD
    }
}

/// Whether no cell of a zone holds a piece.
pub open spec fn zone_empty(cells: Seq<Option<Piece>>, zone: int) -> bool {
    forall|i: int|
        zone * (ZONE_ROWS * COLS) <= i < (zone + 1) * (ZONE_ROWS * COLS) ==> (#[trigger] cells[i])
            is None
}

/// The cells of a game that is about to begin, row by row.
pub open spec fn opening_cells() -> Seq<Option<Piece>> {
    seq![
        Some(Piece::Queen), Some(Piece::Queen), Some(Piece::Drone), None,
        Some(Piece::Queen), Some(Piece::Drone), Some(Piece::Pawn), None,
        Some(Piece::Drone), Some(Piece::Pawn), Some(Piece::Pawn), None,
        None, None, None, None,
        None, None, None, None,
        None, Some(Piece::Pawn), Some(Piece::Pawn), Some(Piece::Drone),
        None, Some(Piece::Pawn), Some(Piece::Drone), Some(Piece::Queen),
        None, Some(Piece::Drone), Some(Piece::Queen), Some(Piece::Queen),
    ]
}

/// A game that is about to begin.
pub open spec fn opening() -> GameView {
    GameView { cells: opening_cells(), turn: 0, score: (0, 0), prev_move: None, clock: -1 }
}

/// The game as the rules see it.
#[verifier::ext_equal]
pub struct GameView {
    /// The 32 cells, row by row.
    pub cells: Seq<Option<Piece>>,
    /// Moves accepted so far; its parity tells whose turn it is.
    pub turn: nat,
    /// Points of the first and of the second player.
    pub score: (nat, nat),
    /// The last move of a piece that was accepted.
    pub prev_move: Option<Move>,
    /// -1 before the clock is started, then the moves that are left.
    pub clock: int,
}

impl GameView {
    /// The player to move: 0 for the first, 1 for the second.
    pub open spec fn mover(self) -> int {
        (self.turn % 2) as int
    }

    /// What stands on the cell `p`.
    pub open spec fn at(self, p: Position) -> Option<Piece> {
        self.cells[cell_index(p)]
    }

    /// Whether `m` moves a piece into the opponent's zone onto a piece.
    pub open spec fn captures(self, m: Move) -> bool {
        zone_of(m.dst) != self.mover() && self.at(m.dst) is Some
    }

    /// Whether `m` moves a piece onto a piece in the mover's own zone.
    pub open spec fn merges(self, m: Move) -> bool {
        zone_of(m.dst) == self.mover() && self.at(m.dst) is Some
    }

    /// The rank that the pieces on the two cells of `m` merge into, if the
    /// table and the limits on the board and on the mover's zone allow it.
    pub open spec fn promotion_verdict(self, m: Move) -> Result<Piece, MoveError> {
        match (self.at(m.src), self.at(m.dst)) {
            (None, _) => Err(MoveError::NoPieceAtSource),
            (Some(_), None) => Err(MoveError::NoPieceAtDestination),
            (Some(mover), Some(other)) => match promotion(mover, other) {
                Err(e) => Err(MoveError::CannotPromote(e)),
                Ok(merged) => if count_of(self.cells, merged) >= RANK_LIMIT {
                    Err(MoveError::PromotionLimitExceeded)
                } else if count_of(zone_cells(self.cells, self.mover()), merged) > ZONE_LIMIT {
                    Err(MoveError::DuplicateInZone)
                } else {
                    Ok(merged)
                },
            },
        }
    }

    /// For a move of a piece: the piece that ends up on the destination if
    /// the move is accepted, else the first rule that the move breaks.
    pub open spec fn verdict(self, m: Move) -> Result<Piece, MoveError> {
        match self.at(m.src) {
            None => Err(MoveError::NoPieceAtSource),
            Some(piece) => if zone_of(m.src) != self.mover() {
                Err(MoveError::SourceNotInZone)
            } else if m.src == m.dst {
                Err(MoveError::NullMove)
            } else if self.prev_move == Some(m.reversed()) {
                Err(MoveError::UndoRejected)
            } else if !shape_ok(piece, m.src, m.dst) {
                Err(MoveError::InvalidShape(shape_error(piece)))
            } else if !path_clear(self.cells, m.src, m.dst) {
                Err(MoveError::PathBlocked)
            } else if self.merges(m) {
                self.promotion_verdict(m)
            } else {
                Ok(piece)
            },
        }
    }

    /// Whether `after` is the board once the piece on the source of `m`
    /// has moved: the source is empty, the destination holds the piece that
    /// moved or, where it moved onto a piece in the mover's own zone, the
    /// rank the two merge into, and every other cell is as it was.
    pub open spec fn relocates(self, m: Move, after: Seq<Option<Piece>>) -> bool {
        &&& after.len() == self.cells.len()
        &&& self.at(m.src) is Some
        &&& after[cell_index(m.src)] is None
        &&& if self.merges(m) {
            promotion(self.at(m.src).unwrap(), self.at(m.dst).unwrap()) == Ok::<
                Piece,
                PromotionError,
            >(after[cell_index(m.dst)].unwrap()) && after[cell_index(m.dst)] is Some
        } else {
            after[cell_index(m.dst)] == self.at(m.src)
        }
        &&& forall|i: int|
            0 <= i < after.len() && i != cell_index(m.src) && i != cell_index(m.dst) ==> after[i]
                == self.cells[i]
    }

    /// The score after the mover has gained `points`.
    pub open spec fn score_plus(self, points: nat) -> (nat, nat) {
        if self.mover() == 0 {
            (self.score.0 + points, self.score.1)
        } else {
            (self.score.0, self.score.1 + points)
        }
    }

    /// The game after the accepted move `m` has put `placed` on its destination.
    pub open spec fn moved(self, m: Move, placed: Piece) -> GameView {
        GameView {
            cells: self.cells.update(cell_index(m.dst), Some(placed)).update(
                cell_index(m.src),
                None,
            ),
            turn: self.turn + 1,
            score: if self.captures(m) {
                self.score_plus(value(self.at(m.dst).unwrap()))
            } else {
                self.score
            },
            prev_move: Some(m),
            clock: if self.captures(m) && self.clock > 0 {
                CLOCK_START as int
            } else {
                self.clock
            },
        }
    }

    /// The rules: the game after `m` if it is accepted, else why it is rejected.
    pub open spec fn submit(self, m: Move) -> Result<GameView, MoveError> {
        if m.is_clock_start() {
            if self.clock == -1 {
                Ok(GameView { clock: CLOCK_START as int, ..self })
            } else {
                Err(MoveError::ClockAlreadyStarted)
            }
        } else {
            match self.verdict(m) {
                Err(e) => Err(e),
                Ok(placed) => Ok(self.moved(m, placed)),
            }
        }
    }

    /// The game after `m` has been submitted: changed if the move is
    /// accepted, as it was if the move is rejected.
    pub open spec fn settled(self, m: Move) -> GameView {
        match self.submit(m) {
            Ok(next) => next,
            Err(_) => self,
        }
    }

    /// The game after the clock has counted one accepted move of a piece.
    pub open spec fn ticked(self) -> GameView {
        if self.clock > 0 {
            GameView { clock: self.clock - 1, ..self }
        } else {
            self
        }
    }

    /// Why the game is over, if it is: a zone without pieces, the first
    /// player's looked at first, or a clock that has run out.
    pub open spec fn ending(self) -> Option<GameOver> {
        if zone_empty(self.cells, 0) {
            Some(GameOver::ZoneOneEmpty)
        } else if zone_empty(self.cells, 1) {
            Some(GameOver::ZoneTwoEmpty)
        } else if self.clock == 0 {
            Some(GameOver::ClockExpired)
        } else {
            None
        }
    }

    /// The player with more points; with equal points, the player who did
    /// not make the last move.
    pub open spec fn winner(self) -> Player {
        if self.score.0 > self.score.1 {
            Player::One
        } else if self.score.0 < self.score.1 {
            Player::Two
        } else if self.turn % 2 == 0 {
            Player::Two
        } else {
            Player::One
        }
    }

    /// Total value of the pieces on the board.
    pub open spec fn material(self) -> nat {
        count_of(self.cells, Piece::Pawn) + 2 * count_of(self.cells, Piece::Drone) + 3 * count_of(
            self.cells,
            Piece::Queen,
        )
    }

    /// How many pieces stand on the board.
    pub open spec fn pieces(self) -> nat {
        count_of(self.cells, Piece::Pawn) + count_of(self.cells, Piece::Drone) + count_of(
            self.cells,
            Piece::Queen,
        )
    }

    /// No rank has more pieces on the board than the rules allow.
    pub open spec fn within_limits(self) -> bool {
        forall|rank: Piece| #[trigger] count_of(self.cells, rank) <= RANK_LIMIT
    }
}

/// The state of a game of Martian Chess.
pub struct MartianChess {
    pub board: Board,
    pub turn: u32,
    pub score: (u8, u8),
    pub prev_move: Option<Move>,
    pub clock: i32,
}

impl View for MartianChess {
    type V = GameView;

    open spec fn view(&self) -> GameView {
        GameView {
            cells: self.board@,
            turn: self.turn as nat,
            score: (self.score.0 as nat, self.score.1 as nat),
            prev_move: self.prev_move,
            clock: self.clock as int,
        }
    }
}

impl MartianChess {
    /// The board has the game's extent: eight rows of four cells.
    pub open spec fn on_game_board(&self) -> bool {
        &&& self.board.wf()
        &&& self.board.rows == ROWS
        &&& self.board.cols == COLS
    }

    /// The board has the game's extent, and the points already scored and
    /// those still on the board together fit a score.
    pub open spec fn wf(&self) -> bool {
        &&& self.on_game_board()
        &&& self.score.0 + self.score.1 + self@.material() <= u8::MAX
    }

    /// A game that is about to begin: nine pieces in each player's far
    /// corner, nobody has scored, and the clock waits to be started.
    pub fn new(config: Config) -> (game: MartianChess)
        ensures
            game.wf(),
            game@ == opening(),
            game@.within_limits(),
    {
        let mut board = Board::new(ROWS, COLS);
        assert(board@ =~= Seq::new(32, |i: int| None::<Piece>));
        proof {
            lemma_count_vacant(board@, Piece::Pawn);
            lemma_count_vacant(board@, Piece::Drone);
            lemma_count_vacant(board@, Piece::Queen);
        }
        put(&mut board, 1, 2, Piece::Pawn);
        put(&mut board, 2, 1, Piece::Pawn);
        put(&mut board, 2, 2, Piece::Pawn);
        put(&mut board, 5, 1, Piece::Pawn);
        put(&mut board, 5, 2, Piece::Pawn);
        put(&mut board, 6, 1, Piece::Pawn);

        put(&mut board, 0, 2, Piece::Drone);
        put(&mut board, 1, 1, Piece::Drone);
        put(&mut board, 2, 0, Piece::Drone);
        put(&mut board, 5, 3, Piece::Drone);
        put(&mut board, 6, 2, Piece::Drone);
        put(&mut board, 7, 1, Piece::Drone);

        put(&mut board, 0, 0, Piece::Queen);
        put(&mut board, 0, 1, Piece::Queen);
        put(&mut board, 1, 0, Piece::Queen);
        put(&mut board, 6, 3, Piece::Queen);
        put(&mut board, 7, 2, Piece::Queen);
        put(&mut board, 7, 3, Piece::Queen);

        let game = MartianChess { board, turn: 0, score: (0, 0), prev_move: None, clock: -1 };
        assert(game@.cells =~= opening_cells());
        assert forall|rank: Piece| #[trigger] count_of(game@.cells, rank) <= RANK_LIMIT by {
            match rank {
                Piece::Pawn => {},
                Piece::Drone => {},
                Piece::Queen => {},
            }
        }
        game
    }

    /// The zone a cell lies in.
    pub fn get_zone(&self, p: Position) -> (zone: u32)
        ensures
            zone == zone_of(p),
            zone == 0 <==> p.row <= 3,
    {
        if p.row <= 3 {
            0
        } else {
            1
        }
    }

    /// Tells why the game is over, or that it is not.
    pub fn game_over(&self) -> (r: Option<GameOver>)
        requires
            self.on_game_board(),
        ensures
            r == self@.ending(),
    {
        if self.board.is_vacant(0, ZONE_ROWS) {
            Some(GameOver::ZoneOneEmpty)
        } else if self.board.is_vacant(ZONE_ROWS, ROWS) {
            Some(GameOver::ZoneTwoEmpty)
        } else if self.clock == 0 {
            Some(GameOver::ClockExpired)
        } else {
            None
        }
    }

    /// Whether another move may be made.
    pub fn can_play(&self) -> (b: bool)
        requires
            self.on_game_board(),
        ensures
            b == (self@.ending() is None),
    {
        self.game_over().is_none()
    }

    /// The player who has won, once the game is over.
    pub fn winner(&self) -> (p: Player)
        ensures
            p == self@.winner(),
    {
        if self.score.0 > self.score.1 {
            Player::One
        } else if self.score.0 < self.score.1 {
            Player::Two
        } else if self.turn % 2 == 0 {
            Player::Two
        } else {
            Player::One
        }
    }

    /// Lets a running clock count the move of a piece that was just accepted.
    pub fn after_move(&mut self)
        ensures
            final(self)@ == old(self)@.ticked(),
            final(self).board == old(self).board,
            old(self).wf() ==> final(self).wf(),
    {
        if self.clock > 0 {
            self.clock -= 1;
        }
    }

    /// One turn of the game: applies the rules to `m` and, where a piece was
    /// moved, lets the clock count the move.
    pub fn take_turn(&mut self, m: &Move) -> (r: Result<(), MoveError>)
        requires
            old(self).wf(),
            m.wf(),
            old(self).turn < u32::MAX,
        ensures
            final(self).wf(),
            match old(self)@.submit(*m) {
                Ok(next) => r == Ok::<(), MoveError>(()) && final(self)@ == (if m.is_clock_start() {
                    next
                } else {
                    next.ticked()
                }),
                Err(e) => r == Err::<(), MoveError>(e) && *final(self) == *old(self),
            },
            old(self)@.within_limits() ==> final(self)@.within_limits(),
            final(self)@.pieces() <= old(self)@.pieces(),
            r is Ok && !m.is_clock_start() ==> old(self)@.relocates(*m, final(self)@.cells),
    {
        let r = self.move_piece(m);
        if r.is_ok() && !m.starts_clock() {
            self.after_move();
        }
        r
    }

    /// Walks from the source of `m` toward its destination and reports the
    /// first piece in between.
    pub fn collision_check(&self, m: &Move) -> (r: Result<(), MoveError>)
        requires
            self.on_game_board(),
            on_board(m.src),
            on_board(m.dst),
            straight(m.src, m.dst),
        ensures
            path_clear(self@.cells, m.src, m.dst) ==> r == Ok::<(), MoveError>(()),
            !path_clear(self@.cells, m.src, m.dst) ==> r == Err::<(), MoveError>(
                MoveError::PathBlocked,
            ),
    {
        if m.src == m.dst {
            return Ok(());
        }
        let ghost total = steps(m.src, m.dst);
        let ghost mut k: int = 1;
        let mut n = Position {
            row: step_toward(m.src.row, m.dst.row),
            col: step_toward(m.src.col, m.dst.col),
        };
        while n != m.dst
            invariant
                self.on_game_board(),
                on_board(m.src),
                on_board(m.dst),
                straight(m.src, m.dst),
                total == steps(m.src, m.dst),
                1 <= k <= total,
                n.row == toward(m.src.row as int, m.dst.row as int, k),
                n.col == toward(m.src.col as int, m.dst.col as int, k),
                forall|j: int|
                    0 < j < k ==> self@.cells[#[trigger] path_index(m.src, m.dst, j)] is None,
            decreases total - k,
        {
            assert(k < total);
            assert(cell_index(n) == path_index(m.src, m.dst, k));
            if self.board.get_piece(n).is_some() {
                return Err(MoveError::PathBlocked);
            }
            n = Position {
                row: step_toward(n.row, m.dst.row),
                col: step_toward(n.col, m.dst.col),
            };
            proof {
                k = k + 1;
            }
        }
        assert(k == total);
        Ok(())
    }

    /// Decides what a move of a piece onto another in the mover's own zone
    /// turns the two into, and whether the board and the zone have room for it.
    pub fn can_promote(&self, m: &Move) -> (r: Result<Piece, MoveError>)
        requires
            self.on_game_board(),
            on_board(m.src),
            on_board(m.dst),
        ensures
            r == self@.promotion_verdict(*m),
    {
        let src_piece = match self.board.get_piece(m.src) {
            Some(piece) => piece,
            None => {
                return Err(MoveError::NoPieceAtSource);
            },
        };
        let dst_piece = match self.board.get_piece(m.dst) {
            Some(piece) => piece,
            None => {
                return Err(MoveError::NoPieceAtDestination);
            },
        };
        let merged = match src_piece.promote(dst_piece) {
            Ok(piece) => piece,
            Err(e) => {
                return Err(MoveError::CannotPromote(e));
            },
        };
        assert(self.board.rows_between(0, ROWS as int) =~= self@.cells);
        if self.board.count_by_rank(merged, 0, ROWS) >= RANK_LIMIT {
            return Err(MoveError::PromotionLimitExceeded);
        }
        let in_zone: usize = if self.turn % 2 == 0 {
            assert(self.board.rows_between(0, ZONE_ROWS as int) =~= zone_cells(self@.cells, 0));
            self.board.count_by_rank(merged, 0, ZONE_ROWS)
        } else {
            assert(self.board.rows_between(ZONE_ROWS as int, ROWS as int) =~= zone_cells(
                self@.cells,
                1,
            ));
            self.board.count_by_rank(merged, ZONE_ROWS, ROWS)
        };
        if in_zone > ZONE_LIMIT {
            return Err(MoveError::DuplicateInZone);
        }
        Ok(merged)
    }

    /// Applies the rules to `m`: the move is carried out, or it is rejected
    /// and the game stays as it was.
    pub fn move_piece(&mut self, m: &Move) -> (r: Result<(), MoveError>)
        requires
            old(self).wf(),
            m.wf(),
            old(self).turn < u32::MAX,
        ensures
            final(self).wf(),
            match old(self)@.submit(*m) {
                Ok(next) => r == Ok::<(), MoveError>(()) && final(self)@ == next,
                Err(e) => r == Err::<(), MoveError>(e) && *final(self) == *old(self),
            },
            final(self)@ == old(self)@.settled(*m),
            old(self)@.within_limits() ==> final(self)@.within_limits(),
            final(self)@.pieces() <= old(self)@.pieces(),
            r is Ok && !m.is_clock_start() ==> old(self)@.relocates(*m, final(self)@.cells),
    {
        if m.starts_clock() {
            if self.clock == -1 {
                self.clock = CLOCK_START;
                return Ok(());
            } else {
                return Err(MoveError::ClockAlreadyStarted);
            }
        }
        let src_piece = match self.board.get_piece(m.src) {
            Some(piece) => piece,
            None => {
                return Err(MoveError::NoPieceAtSource);
            },
        };
        if self.turn % 2 != self.get_zone(m.src) {
            return Err(MoveError::SourceNotInZone);
        }
        if m.src == m.dst {
            return Err(MoveError::NullMove);
        }
        if let Some(p) = self.prev_move {
            if m.src == p.dst && m.dst == p.src {
                return Err(MoveError::UndoRejected);
            }
        }
        if let Err(e) = src_piece.validate_move(&m.src, &m.dst) {
            return Err(MoveError::InvalidShape(e));
        }
        if let Err(e) = self.collision_check(m) {
            return Err(e);
        }
        let dst_piece = self.board.get_piece(m.dst);
        let placed = if self.turn % 2 != self.get_zone(m.dst) {
            src_piece
        } else if dst_piece.is_none() {
            src_piece
        } else {
            match self.can_promote(m) {
                Ok(merged) => merged,
                Err(e) => {
                    return Err(e);
                },
            }
        };
        proof {
            if let Some(captured) = dst_piece {
                lemma_count_occupied(self@.cells, cell_index(m.dst), captured);
            }
        }
        if self.turn % 2 != self.get_zone(m.dst) {
            if let Some(captured) = dst_piece {
                if self.clock > 0 {
                    self.clock = CLOCK_START;
                }
                if self.turn % 2 == 0 {
                    self.score.0 += captured.points();
                } else {
                    self.score.1 += captured.points();
                }
            }
        }
        *self.board.get_piece_mut(m.dst) = Some(placed);
        *self.board.get_piece_mut(m.src) = None;
        self.turn += 1;
        self.prev_move = Some(*m);
        proof {
            assert(self@ == old(self)@.settled(*m));
            crate::theorems::points_are_conserved(old(self)@, *m);
            crate::theorems::pieces_never_grow(old(self)@, *m);
            crate::theorems::accepted_move_vacates_source(old(self)@, *m);
            if old(self)@.within_limits() {
                crate::theorems::rank_limit_is_kept(old(self)@, *m);
            }
        }
        Ok(())
    }
}

/// Sets a piece on an empty cell of a board of the game's extent.
fn put(board: &mut Board, row: usize, col: usize, piece: Piece)
    requires
        old(board).wf(),
        old(board).rows == ROWS,
        old(board).cols == COLS,
        row < ROWS,
        col < COLS,
        old(board)@[COLS * row + col] is None,
    ensures
        final(board).wf(),
        final(board).rows == ROWS,
        final(board).cols == COLS,
        final(board)@ == old(board)@.update(COLS * row + col, Some(piece)),
        forall|rank: Piece| #[trigger]
            count_of(final(board)@, rank) == count_of(old(board)@, rank) + held(Some(piece), rank),
{
    proof {
        assert forall|rank: Piece| #[trigger]
            count_of(board@.update(COLS * row + col, Some(piece)), rank) == count_of(board@, rank)
                + held(Some(piece), rank) by {
            lemma_count_update(board@, COLS * row + col, Some(piece), rank);
        }
    }
    *board.get_piece_mut(Position { row, col }) = Some(piece);
}

/// A move changes the number of pieces of a rank by the one it puts down,
/// less those that stood on its two cells.
pub proof fn lemma_moved_count(
    cells: Seq<Option<Piece>>,
    src: Position,
    dst: Position,
    placed: Piece,
    rank: Piece,
)
    requires
        cells.len() == ROWS * COLS,
        on_board(src),
        on_board(dst),
        src != dst,
    ensures
        count_of(cells.update(cell_index(dst), Some(placed)).update(cell_index(src), None), rank)
            + held(cells[cell_index(src)], rank) + held(cells[cell_index(dst)], rank) == count_of(
            cells,
            rank,
        ) + held(Some(placed), rank),
{
    let landed = cells.update(cell_index(dst), Some(placed));
    lemma_count_update(cells, cell_index(dst), Some(placed), rank);
    lemma_count_update(landed, cell_index(src), None, rank);
}

/// One unit step from `from` toward `to`.
fn step_toward(from: usize, to: usize) -> (next: usize)
    ensures
        next == toward(from as int, to as int, 1),
{
    if to > from {
        from + 1
    } else if to < from {
        from - 1
    } else {
        from
    }
}

} // verus!
