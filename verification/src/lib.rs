//! A minimal engine adapter for a line-based board-game protocol.
//!
//! The crate keeps one authoritative chess position in a [`uci::UciHandler`],
//! parses protocol commands (`handshake`, `readinesscheck`, `newgame`,
//! `position`, `go`, `quit`), and answers with the protocol's reply lines.
//! Move generation, move application and FEN parsing are delegated to the
//! `chess` crate behind a small set of trusted wrappers in [`board`].

pub mod board;
pub mod engine;
pub mod text;
pub mod uci;
