use std::str::FromStr;

use chessbro::engine::Engine;
use chessbro::uci::{ParseError, UciHandler};

const START_FEN: &str = "rnbqkbnr/pppppppp/8/8/8/8/PPPPPPPP/RNBQKBNR w KQkq - 0 1";
const STALEMATE_FEN: &str = "7k/5Q2/5K2/8/8/8/8/8 b - - 0 1";
const CHECKMATE_FEN: &str = "rnb1kbnr/pppp1ppp/8/4p3/6Pq/5P2/PPPPP2P/RNBQKBNR w KQkq - 0 3";

fn fresh() -> (UciHandler, Engine) {
    (UciHandler::new(), Engine::new())
}

#[test]
fn new_session_holds_start_position() {
    let (h, _) = fresh();
    assert_eq!(h.current_fen(), START_FEN);
    assert!(h.last_error().is_none());
}

#[test]
fn handshake_produces_three_fixed_lines() {
    let (mut h, mut e) = fresh();
    let lines = h.handle_command("handshake", &mut e);
    assert_eq!(
        lines,
        vec!["id name ChessBro", "id author ChessBro Team", "handshakeok"]
    );
}

#[test]
fn handshake_is_state_independent() {
    let (mut h, mut e) = fresh();
    h.handle_command("position startpos moves e2e4", &mut e);
    h.handle_command("position oops", &mut e);
    let lines = h.handle_command("handshake", &mut e);
    assert_eq!(lines.len(), 3);
    assert_eq!(lines[0], "id name ChessBro");
    assert_eq!(lines[1], "id author ChessBro Team");
    assert_eq!(lines[2], "handshakeok");
}

#[test]
fn readinesscheck_always_readyok() {
    let (mut h, mut e) = fresh();
    let lines = h.handle_command("readinesscheck", &mut e);
    assert_eq!(lines, vec!["readyok"]);
    // Even immediately after a failed position command.
    h.handle_command("position startpos moves zzzz", &mut e);
    assert!(h.last_error().is_some());
    let lines = h.handle_command("readinesscheck", &mut e);
    assert_eq!(lines, vec!["readyok"]);
    assert!(h.last_error().is_none());
}

#[test]
fn newgame_resets_and_is_idempotent() {
    let (mut h, mut e) = fresh();
    h.handle_command("position startpos moves e2e4 e7e5", &mut e);
    assert_ne!(h.current_fen(), START_FEN);
    let lines = h.handle_command("newgame", &mut e);
    assert!(lines.is_empty());
    let once = h.current_fen();
    assert_eq!(once, START_FEN);
    h.handle_command("newgame", &mut e);
    let twice = h.current_fen();
    assert_eq!(once, twice);
}

#[test]
fn startpos_moves_match_library_ground_truth() {
    let (mut h, mut e) = fresh();
    let lines = h.handle_command("position startpos moves e2e4 e7e5", &mut e);
    assert!(lines.is_empty());
    assert!(h.last_error().is_none());

    let mut expected = chess::Board::default();
    for m in ["e2e4", "e7e5"] {
        expected = expected.make_move_new(chess::ChessMove::from_str(m).unwrap());
    }
    assert_eq!(h.current_fen(), format!("{}", expected));
}

#[test]
fn longer_move_sequence_matches_library_ground_truth() {
    let (mut h, mut e) = fresh();
    let moves = ["e2e4", "e7e5", "g1f3", "b8c6", "f1b5", "a7a6", "b5c6", "d7c6"];
    let cmd = format!("position startpos moves {}", moves.join(" "));
    h.handle_command(&cmd, &mut e);
    assert!(h.last_error().is_none());

    let mut expected = chess::Board::default();
    for m in moves {
        expected = expected.make_move_new(chess::ChessMove::from_str(m).unwrap());
    }
    assert_eq!(h.current_fen(), format!("{}", expected));
}

#[test]
fn go_replies_with_a_legal_move_of_the_current_position() {
    let (mut h, mut e) = fresh();
    h.handle_command("position startpos moves e2e4 e7e5", &mut e);
    let lines = h.handle_command("go", &mut e);
    assert_eq!(lines.len(), 1);
    let reply = &lines[0];
    assert!(reply.starts_with("bestmove "));
    let token = &reply["bestmove ".len()..];

    let mut expected = chess::Board::default();
    for m in ["e2e4", "e7e5"] {
        expected = expected.make_move_new(chess::ChessMove::from_str(m).unwrap());
    }
    let legal: Vec<String> = chess::MoveGen::new_legal(&expected)
        .map(|m| format!("{}", m))
        .collect();
    assert!(legal.iter().any(|m| m == token));
}

#[test]
fn go_on_stalemate_is_silent() {
    let (mut h, mut e) = fresh();
    let lines = h.handle_command(&format!("position fen {}", STALEMATE_FEN), &mut e);
    assert!(lines.is_empty());
    assert!(h.last_error().is_none());
    let lines = h.handle_command("go", &mut e);
    assert!(lines.is_empty());
}

#[test]
fn go_on_checkmate_is_silent() {
    let (mut h, mut e) = fresh();
    h.handle_command(&format!("position fen {}", CHECKMATE_FEN), &mut e);
    assert!(h.last_error().is_none());
    let lines = h.handle_command("go", &mut e);
    assert!(lines.is_empty());
}

#[test]
fn failed_position_leaves_position_unchanged() {
    let (mut h, mut e) = fresh();
    h.handle_command("position startpos moves e2e4", &mut e);
    let before = h.current_fen();
    // e2e4 is illegal once e2 is empty: the whole command must be discarded.
    let lines = h.handle_command("position startpos moves e2e4 e2e4", &mut e);
    assert!(lines.is_empty());
    match h.last_error() {
        Some(ParseError::InvalidMove(t)) => assert_eq!(t, "e2e4"),
        other => panic!("expected InvalidMove, got {:?}", other),
    }
    assert_eq!(h.current_fen(), before);
    // The session still answers `go` from the untouched position.
    let lines = h.handle_command("go", &mut e);
    assert_eq!(lines.len(), 1);
}

#[test]
fn unknown_position_source_is_rejected() {
    let (mut h, mut e) = fresh();
    let before = h.current_fen();
    let lines = h.handle_command("position oops", &mut e);
    assert!(lines.is_empty());
    assert!(matches!(
        h.last_error(),
        Some(ParseError::UnknownPositionSource)
    ));
    assert_eq!(h.current_fen(), before);
}

#[test]
fn fen_source_without_fen_tokens_is_rejected() {
    let (mut h, mut e) = fresh();
    let lines = h.handle_command("position fen", &mut e);
    assert!(lines.is_empty());
    assert!(matches!(h.last_error(), Some(ParseError::EmptyFen)));
    h.handle_command("position fen moves e2e4", &mut e);
    assert!(matches!(h.last_error(), Some(ParseError::EmptyFen)));
    assert_eq!(h.current_fen(), START_FEN);
}

#[test]
fn bad_fen_text_is_rejected_and_reported() {
    let (mut h, mut e) = fresh();
    h.handle_command("position fen not a fen", &mut e);
    match h.last_error() {
        Some(ParseError::InvalidFen(s)) => assert_eq!(s, "not a fen"),
        other => panic!("expected InvalidFen, got {:?}", other),
    }
    assert_eq!(h.current_fen(), START_FEN);
}

#[test]
fn malformed_move_tokens_are_rejected() {
    let (mut h, mut e) = fresh();
    for bad in ["e2", "zzzz", "e9e4", "i2i4", "e2e0"] {
        let cmd = format!("position startpos moves {}", bad);
        h.handle_command(&cmd, &mut e);
        match h.last_error() {
            Some(ParseError::InvalidMove(t)) => assert_eq!(t, bad),
            other => panic!("expected InvalidMove for {:?}, got {:?}", bad, other),
        }
        assert_eq!(h.current_fen(), START_FEN);
    }
}

#[test]
fn promotion_moves_are_applied() {
    let (mut h, mut e) = fresh();
    let base = "8/P6k/8/8/8/8/6K1/8 w - - 0 1";
    h.handle_command(&format!("position fen {} moves a7a8q", base), &mut e);
    assert!(h.last_error().is_none());

    let expected = chess::Board::from_str(base)
        .unwrap()
        .make_move_new(chess::ChessMove::from_str("a7a8q").unwrap());
    assert_eq!(h.current_fen(), format!("{}", expected));
}

#[test]
fn bad_promotion_letter_means_no_promotion() {
    let (mut h, mut e) = fresh();
    let base = "8/P6k/8/8/8/8/6K1/8 w - - 0 1";
    // A fifth character that is no promotion letter is ignored, and a bare
    // pawn push to the last rank is not a legal move.
    h.handle_command(&format!("position fen {} moves a7a8x", base), &mut e);
    match h.last_error() {
        Some(ParseError::InvalidMove(t)) => assert_eq!(t, "a7a8x"),
        other => panic!("expected InvalidMove, got {:?}", other),
    }
}

#[test]
fn characters_after_promotion_letter_are_ignored() {
    let (mut h, mut e) = fresh();
    let base = "8/P6k/8/8/8/8/6K1/8 w - - 0 1";
    h.handle_command(&format!("position fen {} moves a7a8qxx", base), &mut e);
    assert!(h.last_error().is_none());
    let expected = chess::Board::from_str(base)
        .unwrap()
        .make_move_new(chess::ChessMove::from_str("a7a8q").unwrap());
    assert_eq!(h.current_fen(), format!("{}", expected));
}

#[test]
fn quit_unknown_and_empty_lines_are_silent() {
    let (mut h, mut e) = fresh();
    for cmd in ["quit", "stop", "uci", "", "   ", "\t"] {
        let lines = h.handle_command(cmd, &mut e);
        assert!(lines.is_empty(), "unexpected output for {:?}", cmd);
        assert!(h.last_error().is_none());
        assert_eq!(h.current_fen(), START_FEN);
    }
}

#[test]
fn extra_whitespace_between_tokens_is_tolerated() {
    let (mut h, mut e) = fresh();
    h.handle_command("  position \t startpos   moves\t e2e4  ", &mut e);
    assert!(h.last_error().is_none());
    let expected =
        chess::Board::default().make_move_new(chess::ChessMove::from_str("e2e4").unwrap());
    assert_eq!(h.current_fen(), format!("{}", expected));
}

#[test]
fn advisor_proposes_only_legal_moves() {
    let e = Engine::new();
    let board = chess::Board::default();
    let legal: Vec<chess::ChessMove> = chess::MoveGen::new_legal(&board).collect();
    for _ in 0..20 {
        let m = e.get_random_move(&board).expect("the start position has moves");
        assert!(legal.contains(&m));
    }
}

#[test]
fn advisor_returns_none_without_legal_moves() {
    let e = Engine::new();
    let board = chess::Board::from_str(STALEMATE_FEN).unwrap();
    assert!(e.get_random_move(&board).is_none());
}

#[test]
fn stepwise_respecification_agrees_with_one_command() {
    // Rebuilding through an intermediate FEN round-trip gives the same
    // position as applying both moves in one command.
    let (mut h1, mut e1) = fresh();
    h1.handle_command("position startpos moves e2e4 e7e5", &mut e1);

    let (mut h2, mut e2) = fresh();
    h2.handle_command("position startpos moves e2e4", &mut e2);
    let mid = h2.current_fen();
    h2.handle_command(&format!("position fen {} moves e7e5", mid), &mut e2);
    assert!(h2.last_error().is_none());
    assert_eq!(h1.current_fen(), h2.current_fen());
}
