//! What holds of the rules whatever the game and the move.

use vstd::prelude::*;
use vstd::relations::injective_on;
use vstd::set_lib::{lemma_int_range, lemma_map_size, set_int_range};

use crate::board::{count_of, held, lemma_count_update, Position};
use crate::game::{
    cell_index, lemma_moved_count, on_board, opening, steps, zone_cells, zone_of, GameView, Move,
    MoveError, COLS, RANK_LIMIT, ROWS, ZONE_LIMIT, ZONE_ROWS,
};
use crate::pieces::{promotion, shape_ok, Piece, PromotionError};

verus! {

/// The cells of the board that lie in a zone.
pub open spec fn zone_set(zone: int) -> Set<Position> {
    Set::new(|p: Position| on_board(p) && zone_of(p) == zone)
}

/// The cell with a given row-major index.
pub open spec fn cell_at(i: int) -> Position {
    Position { row: (i / COLS as int) as usize, col: (i % COLS as int) as usize }
}

/// A zone is the image of sixteen consecutive indices under `cell_at`.
proof fn lemma_zone_size(zone: int)
    requires
        zone == 0 || zone == 1,
    ensures
        zone_set(zone).finite(),
        zone_set(zone).len() == 16,
{
    let lo = zone * 16;
    let indices = set_int_range(lo, lo + 16);
    let f = |i: int| cell_at(i);
    lemma_int_range(lo, lo + 16);
    assert(injective_on(f, indices));
    assert forall|p: Position| indices.map(f).contains(p) <==> zone_set(zone).contains(p) by {
        if zone_set(zone).contains(p) {
            let i = cell_index(p);
            assert(indices.contains(i));
            assert(f(i) == p);
        }
    }
    assert(indices.map(f) =~= zone_set(zone));
    lemma_map_size(indices, zone_set(zone), f);
}

/// A cell lies in the first zone exactly when its row is one of the first
/// four, and in the second zone otherwise. The two zones have no cell in
/// common, make up the whole board, and hold sixteen cells each.
pub proof fn zones_halve_board()
    ensures
        forall|p: Position| #[trigger] zone_of(p) == 0 <==> p.row <= 3,
        forall|p: Position| #[trigger] zone_of(p) == 1 <==> p.row > 3,
        zone_set(0).disjoint(zone_set(1)),
        forall|p: Position|
            #[trigger] on_board(p) <==> zone_set(0).contains(p) || zone_set(1).contains(p),
        zone_set(0).finite() && zone_set(0).len() == 16,
        zone_set(1).finite() && zone_set(1).len() == 16,
{
    lemma_zone_size(0);
    lemma_zone_size(1);
}

/// A move of a piece that the rules accept leaves its source cell empty. Its
/// destination then holds the piece that moved, or, where the piece moved
/// onto another in the mover's own zone, the piece of higher rank that the
/// two merged into: never both. No other cell changes.
pub proof fn accepted_move_vacates_source(g: GameView, m: Move)
    requires
        g.cells.len() == ROWS * COLS,
        on_board(m.src),
        on_board(m.dst),
        g.submit(m) is Ok,
    ensures
        g.relocates(m, g.settled(m).cells),
        g.at(m.src) is Some,
        g.settled(m).at(m.src) is None,
        !g.merges(m) ==> g.settled(m).at(m.dst) == g.at(m.src),
        g.merges(m) ==> g.settled(m).at(m.dst) != g.at(m.src) && promotion(
            g.at(m.src).unwrap(),
            g.at(m.dst).unwrap(),
        ) == Ok::<Piece, PromotionError>(g.settled(m).at(m.dst).unwrap()),
{
}

/// A move that was accepted cannot be made again at once: its source is
/// empty now, so that it is rejected for that and changes nothing.
pub proof fn accepted_move_cannot_be_repeated(g: GameView, m: Move)
    requires
        g.cells.len() == ROWS * COLS,
        on_board(m.src),
        on_board(m.dst),
        g.submit(m) is Ok,
    ensures
        g.settled(m).submit(m) == Err::<GameView, MoveError>(MoveError::NoPieceAtSource),
        g.settled(m).settled(m) == g.settled(m),
{
}

/// A pawn that steps diagonally onto a pawn in the mover's own zone, where
/// the board holds fewer than six drones and the zone at most one, merges
/// with it: the destination holds a drone, the source is empty, the turn
/// passes, nobody scores and the move is remembered.
pub proof fn pawn_onto_pawn_makes_drone(g: GameView, m: Move)
    requires
        g.cells.len() == ROWS * COLS,
        on_board(m.src),
        on_board(m.dst),
        g.at(m.src) == Some(Piece::Pawn),
        g.at(m.dst) == Some(Piece::Pawn),
        zone_of(m.src) == g.mover(),
        zone_of(m.dst) == g.mover(),
        shape_ok(Piece::Pawn, m.src, m.dst),
        g.prev_move != Some(m.reversed()),
        count_of(g.cells, Piece::Drone) < RANK_LIMIT,
        count_of(zone_cells(g.cells, g.mover()), Piece::Drone) <= ZONE_LIMIT,
    ensures
        g.submit(m) is Ok,
        g.settled(m).at(m.dst) == Some(Piece::Drone),
        g.settled(m).at(m.src) is None,
        g.settled(m).turn == g.turn + 1,
        g.settled(m).score == g.score,
        g.settled(m).prev_move == Some(m),
        g.settled(m).clock == g.clock,
{
    assert(steps(m.src, m.dst) == 1);
}

/// No move, accepted or rejected, adds a piece to the board: a capture
/// takes one off, a promotion makes one of two.
pub proof fn pieces_never_grow(g: GameView, m: Move)
    requires
        g.cells.len() == ROWS * COLS,
        m.wf(),
    ensures
        g.settled(m).pieces() <= g.pieces(),
{
    if g.submit(m) is Ok && !m.is_clock_start() {
        let placed = g.verdict(m).unwrap();
        lemma_moved_count(g.cells, m.src, m.dst, placed, Piece::Pawn);
        lemma_moved_count(g.cells, m.src, m.dst, placed, Piece::Drone);
        lemma_moved_count(g.cells, m.src, m.dst, placed, Piece::Queen);
    }
}

/// A rejected move leaves the game as it was, so that submitting it again
/// is rejected for the same reason and again changes nothing.
pub proof fn rejection_is_idempotent(g: GameView, m: Move)
    requires
        g.submit(m) is Err,
    ensures
        g.settled(m) == g,
        g.settled(m).submit(m) == g.submit(m),
        g.settled(m).settled(m) == g,
{
}

/// A game that begins has no more pieces of any rank than the board may
/// hold, and no move, accepted or rejected, and no tick of the clock makes
/// it have more.
pub proof fn rank_limit_is_kept(g: GameView, m: Move)
    requires
        g.cells.len() == ROWS * COLS,
        m.wf(),
        g.within_limits(),
    ensures
        opening().within_limits(),
        g.settled(m).within_limits(),
        g.ticked().within_limits(),
{
    lemma_opening_counts();
    if g.submit(m) is Ok && !m.is_clock_start() {
        let placed = g.verdict(m).unwrap();
        assert(count_of(g.cells, Piece::Pawn) <= RANK_LIMIT);
        assert(count_of(g.cells, Piece::Drone) <= RANK_LIMIT);
        assert(count_of(g.cells, Piece::Queen) <= RANK_LIMIT);
        lemma_moved_count(g.cells, m.src, m.dst, placed, Piece::Pawn);
        lemma_moved_count(g.cells, m.src, m.dst, placed, Piece::Drone);
        lemma_moved_count(g.cells, m.src, m.dst, placed, Piece::Queen);
    }
    assert forall|rank: Piece| count_of(g.settled(m).cells, rank) <= RANK_LIMIT by {
        match rank {
            Piece::Pawn => {},
            Piece::Drone => {},
            Piece::Queen => {},
        }
    }
}

/// A move, accepted or rejected, leaves unchanged the sum of the points that
/// the players have scored and the value of the pieces on the board: a
/// capture moves points from the board to a score, and a promotion makes a
/// piece worth as much as the two it is made of.
pub proof fn points_are_conserved(g: GameView, m: Move)
    requires
        g.cells.len() == ROWS * COLS,
        m.wf(),
    ensures
        g.settled(m).score.0 + g.settled(m).score.1 + g.settled(m).material() == g.score.0
            + g.score.1 + g.material(),
{
    if g.submit(m) is Ok && !m.is_clock_start() {
        let placed = g.verdict(m).unwrap();
        lemma_moved_count(g.cells, m.src, m.dst, placed, Piece::Pawn);
        lemma_moved_count(g.cells, m.src, m.dst, placed, Piece::Drone);
        lemma_moved_count(g.cells, m.src, m.dst, placed, Piece::Queen);
    }
}

/// The opening position holds six pieces of each rank.
pub proof fn lemma_opening_counts()
    ensures
        forall|rank: Piece| #[trigger] count_of(opening().cells, rank) == 6,
        opening().within_limits(),
{
    reveal_with_fuel(count_of, 33);
    assert forall|rank: Piece| #[trigger] count_of(opening().cells, rank) == 6 by {
        match rank {
            Piece::Pawn => {},
            Piece::Drone => {},
            Piece::Queen => {},
        }
    }
}

/// Overwriting a cell of a zone changes the zone's count of a rank by what
/// left and what came.
pub proof fn lemma_zone_count_update(
    cells: Seq<Option<Piece>>,
    zone: int,
    p: Position,
    occupant: Option<Piece>,
    rank: Piece,
)
    requires
        cells.len() == ROWS * COLS,
        on_board(p),
        zone == zone_of(p),
    ensures
        count_of(zone_cells(cells.update(cell_index(p), occupant), zone), rank) + held(
            cells[cell_index(p)],
            rank,
        ) == count_of(zone_cells(cells, zone), rank) + held(occupant, rank),
{
    let i = cell_index(p) - zone * (ZONE_ROWS * COLS);
    assert(zone_cells(cells.update(cell_index(p), occupant), zone) =~= zone_cells(
        cells,
        zone,
    ).update(i, occupant));
    lemma_count_update(zone_cells(cells, zone), i, occupant, rank);
}

/// An accepted promotion adds one piece of the higher rank to the mover's
/// zone, which held at most one before and so holds at most two after.
pub proof fn promotion_adds_one_to_zone(g: GameView, m: Move)
    requires
        g.cells.len() == ROWS * COLS,
        on_board(m.src),
        on_board(m.dst),
        g.submit(m) is Ok,
        g.merges(m),
    ensures
        ({
            let merged = g.settled(m).at(m.dst).unwrap();
            let before = count_of(zone_cells(g.cells, g.mover()), merged);
            let after = count_of(zone_cells(g.settled(m).cells, g.mover()), merged);
            after == before + 1 && after <= 2
        }),
{
    let merged = g.verdict(m).unwrap();
    let landed = g.cells.update(cell_index(m.dst), Some(merged));
    lemma_zone_count_update(g.cells, g.mover(), m.dst, Some(merged), merged);
    lemma_zone_count_update(landed, g.mover(), m.src, None, merged);
}

/// After an accepted promotion into a zone that held no piece of the higher
/// rank, the zone holds exactly one.
pub proof fn promotion_into_vacancy_leaves_one(g: GameView, m: Move)
    requires
        g.cells.len() == ROWS * COLS,
        on_board(m.src),
        on_board(m.dst),
        g.submit(m) is Ok,
        g.merges(m),
        count_of(zone_cells(g.cells, g.mover()), g.settled(m).at(m.dst).unwrap()) == 0,
    ensures
        count_of(zone_cells(g.settled(m).cells, g.mover()), g.settled(m).at(m.dst).unwrap()) <= 1,
{
    promotion_adds_one_to_zone(g, m);
}

/// A move that takes back the move before it is rejected as such, whatever
/// its shape and whatever stands in its way, once it has a piece to move
/// that stands in the mover's zone.
pub proof fn undo_is_rejected(g: GameView, m: Move)
    requires
        g.prev_move == Some(m.reversed()),
        !m.is_clock_start(),
        m.src != m.dst,
        g.at(m.src) is Some,
        zone_of(m.src) == g.mover(),
    ensures
        g.submit(m) == Err::<GameView, MoveError>(MoveError::UndoRejected),
{
}

} // verus!
