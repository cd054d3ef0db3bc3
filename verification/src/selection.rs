//! The two-click selection state machine.
//!
//! A click either confirms a move (when it lands on a highlighted
//! destination of the current selection), selects a piece of the side to
//! move (which asks the engine for that square's legal destinations), or
//! clears the selection.  The machine itself never talks to the engine: it
//! returns the command to run, and the engine's reply to a query is handed
//! back through [`Adapter::apply_moves`].  Every transition therefore holds
//! for any reply the engine can give.

use crate::board::Board;
use crate::board::Piece;
use crate::board::parse_board;
use crate::board::spec_cell_of_text;
use crate::coords::spec_filerank_to_square;
use crate::coords::spec_square_to_filerank;
use crate::coords::filerank_to_square;
use crate::coords::square_to_filerank;
use vstd::prelude::*;

verus! {

/// The selection state: nothing chosen, or one piece with its highlighted
/// destination squares.
#[derive(Debug, Clone)]
pub enum Selection {
    Idle,
    Selected { piece: Piece, targets: Vec<(usize, usize)> },
}

impl Selection {
    /// The selected piece, when one is selected.
    pub open spec fn spec_piece(self) -> Option<Piece> {
        match self {
            Selection::Selected { piece, .. } => Some(piece),
            Selection::Idle => None,
        }
    }

    /// The highlighted destination squares; empty when idle.
    pub open spec fn spec_targets(self) -> Seq<(usize, usize)> {
        match self {
            Selection::Selected { targets, .. } => targets@,
            Selection::Idle => Seq::empty(),
        }
    }

    /// A selected piece records a square on the board.
    pub open spec fn wf(self) -> bool {
        self matches Selection::Selected { piece, .. } ==> (0 <= piece.position.0 < 8 && 0
            <= piece.position.1 < 8)
    }

    /// Whether `(column, row)` is one of the highlighted destinations.
    pub open spec fn is_hit(self, column: int, row: int) -> bool {
        self.spec_targets().contains(((column as usize), (row as usize)))
    }
}

/// A command for the rules engine, in file-rank notation.
#[derive(Debug, Clone)]
pub enum EngineCommand {
    /// Ask the engine for the legal destinations of `piece`, which stands on
    /// the square spelled `from`.
    QueryMoves { piece: Piece, from: String },
    /// Submit the move from `from` to `to`.
    MakeMove { from: String, to: String },
}

/// The converted destination list: each reported file-rank string that
/// parses contributes its `(column, row)` square, in order; strings that do
/// not parse are dropped.
pub open spec fn spec_tuple_moves(mvs: Seq<Seq<char>>) -> Seq<(usize, usize)>
    decreases mvs.len(),
{
    if mvs.len() == 0 {
        Seq::empty()
    } else {
        let rest = spec_tuple_moves(mvs.drop_last());
        match spec_filerank_to_square(mvs.last()) {
            Ok(sq) => rest.push(sq),
            Err(_) => rest,
        }
    }
}

/// Converts the engine's reported destination strings to `(column, row)`
/// squares, dropping any string that is not valid file-rank notation.
pub fn to_tuple_moves(moves: &Vec<String>) -> (r: Vec<(usize, usize)>)
    ensures
        r@ == spec_tuple_moves(moves.deep_view()),
{
    let mut r: Vec<(usize, usize)> = Vec::new();
    let mut i: usize = 0;
    while i < moves.len()
        invariant
            i <= moves@.len(),
            r@ == spec_tuple_moves(moves.deep_view().take(i as int)),
        decreases moves@.len() - i,
    {
        match filerank_to_square(moves[i].as_str()) {
            Ok(sq) => r.push(sq),
            Err(_) => (),
        }
        proof {
            let dv = moves.deep_view();
            assert(dv.take(i + 1).drop_last() =~= dv.take(i as int));
            assert(dv.take(i + 1).last() == moves@[i as int]@);
        }
        i += 1;
    }
    proof {
        assert(moves.deep_view().take(moves@.len() as int) =~= moves.deep_view());
    }
    r
}

/// Conversion is one-to-one: when every reported destination parses as
/// file-rank notation, the converted list keeps the length and converts
/// element-wise, in order.
pub proof fn lemma_tuple_moves_one_to_one(mvs: Seq<Seq<char>>)
    requires
        forall|k: int| 0 <= k < mvs.len() ==> (#[trigger] spec_filerank_to_square(mvs[k])) is Ok,
    ensures
        spec_tuple_moves(mvs).len() == mvs.len(),
        forall|k: int|
            0 <= k < mvs.len() ==> #[trigger] spec_tuple_moves(mvs)[k] == spec_filerank_to_square(
                mvs[k],
            ).unwrap(),
    decreases mvs.len(),
{
    if mvs.len() > 0 {
        let rest = mvs.drop_last();
        assert(forall|k: int| 0 <= k < rest.len() ==> rest[k] == mvs[k]);
        lemma_tuple_moves_one_to_one(rest);
        assert(mvs.last() == mvs[mvs.len() - 1]);
    }
}

/// Whether `(column, row)` occurs in a destination list.
fn contains_square(targets: &Vec<(usize, usize)>, column: usize, row: usize) -> (b: bool)
    ensures
        b == targets@.contains((column, row)),
{
    let mut i: usize = 0;
    let mut found = false;
    while i < targets.len()
        invariant
            i <= targets@.len(),
            found == exists|k: int| 0 <= k < i && #[trigger] targets@[k] == (column, row),
        decreases targets@.len() - i,
    {
        let t = targets[i];
        if t.0 == column && t.1 == row {
            found = true;
        }
        i += 1;
    }
    found
}

/// The board/selection adapter: the locally rebuilt board snapshot plus the
/// selection state the clicks drive.
pub struct Adapter {
    pub board: Board,
    pub selection: Selection,
}

/// Whether a click at `(column, row)` selects a piece: it is not a move
/// confirmation, and the square holds a piece of the side to move.
pub open spec fn wants_select(
    board: Board,
    sel: Selection,
    white_turn: bool,
    column: int,
    row: int,
) -> bool {
    &&& !sel.is_hit(column, row)
    &&& board.at(column, row) matches Some(p) && p.is_white == white_turn
}

impl Adapter {
    /// The board records its pieces' squares and any selection is on the
    /// board.
    pub open spec fn wf(self) -> bool {
        self.board.wf() && self.selection.wf()
    }

    /// A fresh adapter: empty board, nothing selected.
    pub fn new() -> (a: Adapter)
        ensures
            a.wf(),
            a.selection is Idle,
            forall|c: int, r: int| 0 <= c < 8 && 0 <= r < 8 ==> #[trigger] a.board.at(c, r) is None,
    {
        Adapter { board: Board::empty(), selection: Selection::Idle }
    }

    /// Rebuilds the board snapshot from the engine's serialized board; the
    /// selection is left as it is.
    pub fn load_board(&mut self, text: &str)
        requires
            old(self).wf(),
        ensures
            final(self).wf(),
            final(self).selection == old(self).selection,
            forall|c: int, r: int|
                0 <= c < 8 && 0 <= r < 8 ==> #[trigger] final(self).board.at(c, r)
                    == spec_cell_of_text(text@, c, r),
    {
        self.board = parse_board(text);
    }

    /// Whether the square at `(column, row)` is currently highlighted as a
    /// destination of the selection.
    pub fn is_highlighted(&self, column: usize, row: usize) -> (b: bool)
        ensures
            b == self.selection.is_hit(column as int, row as int),
    {
        match &self.selection {
            Selection::Selected { targets, .. } => contains_square(targets, column, row),
            Selection::Idle => false,
        }
    }

    /// One click of the primary button on the square at `(column, row)`,
    /// with `white_turn` the engine's answer to whose turn it is.  Exactly
    /// one of three things happens, and the selection always returns to
    /// idle until the engine's reply (if any) is applied:
    /// - the click confirms a highlighted destination: one move command is
    ///   returned, from the selected piece's square to the clicked square;
    /// - the click lands on a piece of the side to move: one query command
    ///   for that square's legal destinations is returned;
    /// - anything else (empty square, opponent's piece): no command.
    pub fn handle_click(&mut self, column: usize, row: usize, white_turn: bool) -> (r: Option<
        EngineCommand,
    >)
        requires
            old(self).wf(),
            column < 8,
            row < 8,
        ensures
            final(self).wf(),
            final(self).board == old(self).board,
            final(self).selection is Idle,
            old(self).selection.is_hit(column as int, row as int) ==> (r matches Some(
                EngineCommand::MakeMove { from, to },
            ) && from@ == spec_square_to_filerank(
                old(self).selection.spec_piece().unwrap().position.0 as int,
                old(self).selection.spec_piece().unwrap().position.1 as int,
            ) && to@ == spec_square_to_filerank(column as int, row as int)),
            wants_select(old(self).board, old(self).selection, white_turn, column as int, row as int)
                ==> (r matches Some(EngineCommand::QueryMoves { piece, from }) && Some(piece)
                == old(self).board.at(column as int, row as int) && from@ == spec_square_to_filerank(
                column as int,
                row as int,
            )),
            !old(self).selection.is_hit(column as int, row as int) && !wants_select(
                old(self).board,
                old(self).selection,
                white_turn,
                column as int,
                row as int,
            ) ==> r is None,
    {
        let hit = self.is_highlighted(column, row);
        if hit {
            let (pc, pr): (i16, i16) = match &self.selection {
                Selection::Selected { piece, .. } => (piece.position.0, piece.position.1),
                Selection::Idle => (0, 0),
            };
            let from = square_to_filerank(pc as usize, pr as usize);
            let to = square_to_filerank(column, row);
            self.selection = Selection::Idle;
            Some(EngineCommand::MakeMove { from, to })
        } else {
            let cell = self.board.piece_at(column, row);
            self.selection = Selection::Idle;
            match cell {
                Some(piece) => {
                    if piece.is_white == white_turn {
                        let from = square_to_filerank(column, row);
                        Some(EngineCommand::QueryMoves { piece, from })
                    } else {
                        None
                    }
                },
                None => None,
            }
        }
    }

    /// Applies the engine's reply to a destination query for `piece`: a
    /// non-empty converted destination list selects the piece with exactly
    /// those highlights; an absent or empty one resolves to idle.
    pub fn apply_moves(&mut self, piece: Piece, moves: Option<Vec<String>>)
        requires
            old(self).wf(),
            0 <= piece.position.0 < 8,
            0 <= piece.position.1 < 8,
        ensures
            final(self).wf(),
            final(self).board == old(self).board,
            match moves {
                Some(ms) => {
                    let ts = spec_tuple_moves(ms.deep_view());
                    if ts.len() > 0 {
                        final(self).selection matches Selection::Selected { piece: p, targets } && p
                            == piece && targets@ == ts
                    } else {
                        final(self).selection is Idle
                    }
                },
                None => final(self).selection is Idle,
            },
    {
        match moves {
            Some(ms) => {
                let targets = to_tuple_moves(&ms);
                if targets.len() > 0 {
                    self.selection = Selection::Selected { piece, targets };
                } else {
                    self.selection = Selection::Idle;
                }
            },
            None => {
                self.selection = Selection::Idle;
            },
        }
    }
}

} // verus!
