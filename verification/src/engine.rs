//! The move advisor: given a position, propose one legal move or none.
//!
//! The policy is uniform-random choice among the legal moves; nothing is
//! promised about which move comes back, only that it is one of the legal
//! moves of the given position, and that one comes back exactly when the
//! position has any.

use vstd::prelude::*;

use crate::board::{board_fen, legal_list, legal_moves_of, move_text, random_below};

verus! {

pub struct Engine {
    pub name: String,
    pub author: String,
}

impl Engine {
    pub fn new() -> (e: Engine)
        ensures
            e.name@ == "ChessBro"@,
            e.author@ == "ChessBro Team"@,
    {
        Engine { name: String::from_str("ChessBro"), author: String::from_str("ChessBro Team") }
    }

    /// Propose a move for `board`: `None` exactly when the position has no
    /// legal move (checkmate or stalemate), otherwise one of its legal
    /// moves, chosen at random.
    pub fn get_random_move(&self, board: &chess::Board) -> (r: Option<chess::ChessMove>)
        ensures
            r is Some <==> legal_list(board_fen(*board)).len() > 0,
            r is Some ==> legal_list(board_fen(*board)).contains(move_text(r->0)),
    {
        let moves = legal_moves_of(board);
        if moves.len() == 0 {
            None
        } else {
            let i = random_below(moves.len());
            let m = moves[i];
            proof {
                let fen = board_fen(*board);
                assert(legal_list(fen)[i as int] == move_text(m));
            }
            Some(m)
        }
    }
}

} // verus!
