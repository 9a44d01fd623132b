//! The trusted boundary around the `chess` crate.
//!
//! The rest of the crate never inspects a `chess::Board` or a
//! `chess::ChessMove` directly: each value is modelled by a plain character
//! sequence — a board by the FEN text its `Display` prints, a move by its
//! long-algebraic text — and every call into the `chess` crate goes through
//! one of the wrappers below, whose contracts speak only of those models.

use vstd::prelude::*;

use std::str::FromStr;

use rand::Rng;

verus! {

#[verifier::external_type_specification]
#[verifier::external_body]
pub struct ExBoard(chess::Board);

#[verifier::external_type_specification]
#[verifier::external_body]
pub struct ExChessMove(chess::ChessMove);

/// The FEN text that `chess::Board`'s `Display` prints for `b`; it encodes
/// the board's full contents (placement, side to move, castling rights,
/// en-passant target) and so serves as the board's model.
pub uninterp spec fn board_fen(b: chess::Board) -> Seq<char>;

/// The long-algebraic text that `chess::ChessMove`'s `Display` prints for
/// `m`: source square, destination square, optional promotion letter.
pub uninterp spec fn move_text(m: chess::ChessMove) -> Seq<char>;

/// What `chess::Board::from_str` makes of a candidate FEN text: `None` when
/// the text is rejected, otherwise the model of the board it builds.
pub uninterp spec fn fen_parse(s: Seq<char>) -> Option<Seq<char>>;

/// The model of the board that `chess::Board::make_move_new` returns when
/// the move written `mv` is applied to the board modelled by `fen`.
pub uninterp spec fn fen_after(fen: Seq<char>, mv: Seq<char>) -> Seq<char>;

/// The move texts that `chess::MoveGen::new_legal` yields for the board
/// modelled by `fen`, in generation order.
pub uninterp spec fn legal_list(fen: Seq<char>) -> Seq<Seq<char>>;

/// A move text is legal for a position exactly when the move generator
/// yields it; `chess::Board::legal` is defined that way in its source.
pub open spec fn is_legal(fen: Seq<char>, mv: Seq<char>) -> bool {
    legal_list(fen).contains(mv)
}

/// The FEN of the standard initial position. `chess::Board::default()`
/// parses exactly this text, and printing that board gives it back.
pub open spec fn start_fen() -> Seq<char> {
    "rnbqkbnr/pppppppp/8/8/8/8/PPPPPPPP/RNBQKBNR w KQkq - 0 1"@
}

/// A file letter of a square, `a` through `h`.
pub open spec fn is_file(c: char) -> bool {
    ('a' as u32) <= (c as u32) && (c as u32) <= ('h' as u32)
}

/// A rank digit of a square, `1` through `8`.
pub open spec fn is_rank(c: char) -> bool {
    ('1' as u32) <= (c as u32) && (c as u32) <= ('8' as u32)
}

/// A promotion letter: queen, rook, bishop or knight, lowercase.
pub open spec fn is_promo(c: char) -> bool {
    c == 'q' || c == 'r' || c == 'b' || c == 'n'
}

/// A well-formed long-algebraic move text: two squares and, in the
/// five-character form, a promotion letter.
pub open spec fn wf_move_text(s: Seq<char>) -> bool {
    &&& (s.len() == 4 || s.len() == 5)
    &&& is_file(s[0]) && is_rank(s[1]) && is_file(s[2]) && is_rank(s[3])
    &&& (s.len() == 5 ==> is_promo(s[4]))
}

/// Relies on `chess::Board::default`: it parses the standard initial FEN,
/// whose `Display` round-trips to the same text.
#[verifier::external_body]
pub(crate) fn start_board() -> (b: chess::Board)
    ensures
        board_fen(b) == start_fen(),
{
    chess::Board::default()
}

/// Relies on `chess::Board::from_str`: a deterministic FEN parser that
/// returns `Err` exactly on texts it cannot turn into a sane board.
#[verifier::external_body]
pub(crate) fn parse_fen(s: &str) -> (r: Option<chess::Board>)
    ensures
        r is Some <==> fen_parse(s@) is Some,
        r is Some ==> board_fen(r->0) == fen_parse(s@)->0,
{
    chess::Board::from_str(s).ok()
}

/// Relies on `chess::ChessMove::from_str`: on a well-formed long-algebraic
/// text it builds the move the text names, and the move's `Display` prints
/// that text back.
#[verifier::external_body]
pub(crate) fn move_of_text(s: &str) -> (r: Option<chess::ChessMove>)
    ensures
        wf_move_text(s@) ==> r is Some && move_text(r->0) == s@,
{
    chess::ChessMove::from_str(s).ok()
}

/// Relies on `chess::Board::legal`: it reports whether the move generator
/// for this board yields the move.
#[verifier::external_body]
pub(crate) fn board_legal(b: &chess::Board, m: &chess::ChessMove) -> (r: bool)
    ensures
        r == is_legal(board_fen(*b), move_text(*m)),
{
    b.legal(*m)
}

/// Relies on `chess::Board::make_move_new`: applying a legal move yields a
/// new board, a function of the old board and the move alone. The move must
/// be legal — on other moves the library may panic.
#[verifier::external_body]
pub(crate) fn apply_move(b: &chess::Board, m: &chess::ChessMove) -> (r: chess::Board)
    requires
        is_legal(board_fen(*b), move_text(*m)),
    ensures
        board_fen(r) == fen_after(board_fen(*b), move_text(*m)),
{
    b.make_move_new(*m)
}

/// Relies on `chess::MoveGen::new_legal`: it enumerates exactly the legal
/// moves of the board, in an order that depends on the board alone.
#[verifier::external_body]
pub(crate) fn legal_moves_of(b: &chess::Board) -> (v: Vec<chess::ChessMove>)
    ensures
        v@.map_values(|m: chess::ChessMove| move_text(m)) == legal_list(board_fen(*b)),
{
    chess::MoveGen::new_legal(b).collect()
}

/// Relies on `chess::Board`'s `Display`: it prints the board's FEN.
#[verifier::external_body]
pub(crate) fn board_to_fen(b: &chess::Board) -> (r: String)
    ensures
        r@ == board_fen(*b),
{
    format!("{}", b)
}

/// Relies on `chess::ChessMove`'s `Display`: it prints the move's
/// long-algebraic text.
#[verifier::external_body]
pub(crate) fn move_to_text(m: &chess::ChessMove) -> (r: String)
    ensures
        r@ == move_text(*m),
{
    format!("{}", m)
}

/// Relies on `rand::thread_rng` and `rand::Rng::gen_range`: the result lies
/// in the (non-empty) range; nothing else is promised of a random draw.
#[verifier::external_body]
pub(crate) fn random_below(n: usize) -> (r: usize)
    requires
        0 < n,
    ensures
        r < n,
{
    rand::thread_rng().gen_range(0..n)
}

} // verus!
