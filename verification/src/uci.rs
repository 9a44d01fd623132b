//! The protocol state machine: command dispatch and position reconstruction.
//!
//! A command line is tokenized, dispatched on its first token, and either
//! answered with reply lines (`handshake`, `readinesscheck`, `go`) or used
//! to update the held position (`newgame`, `position`). A `position`
//! command is applied wholesale or not at all: any failure leaves the
//! position untouched and is reported through the diagnostic value, never
//! through the protocol reply lines.

use vstd::prelude::*;

use crate::board::{
    apply_move, board_fen, board_legal, board_to_fen, fen_after, fen_parse, is_file, is_legal,
    is_promo, is_rank, legal_list, move_of_text, move_text, move_to_text, parse_fen, start_board,
    start_fen, wf_move_text,
};
use crate::engine::Engine;
use crate::text::{spec_tokens, str_eq, tokenize, views_of};

verus! {

/// Why a `position` command was rejected. The command's effect is discarded
/// entirely; the error is only material for the diagnostic channel.
#[derive(Debug)]
pub enum ParseError {
    /// The first argument was neither `startpos` nor `fen`.
    UnknownPositionSource,
    /// The `fen` source was selected but no FEN tokens followed.
    EmptyFen,
    /// The joined FEN tokens were rejected by the FEN parser.
    InvalidFen(String),
    /// A move token was malformed or illegal for the position reached.
    InvalidMove(String),
}

/// The specification-level image of a [`ParseError`], over character
/// sequences instead of strings.
pub enum SpecErr {
    UnknownPositionSource,
    EmptyFen,
    InvalidFen(Seq<char>),
    InvalidMove(Seq<char>),
}

impl View for ParseError {
    type V = SpecErr;

    open spec fn view(&self) -> SpecErr {
        match self {
            ParseError::UnknownPositionSource => SpecErr::UnknownPositionSource,
            ParseError::EmptyFen => SpecErr::EmptyFen,
            ParseError::InvalidFen(s) => SpecErr::InvalidFen(s@),
            ParseError::InvalidMove(s) => SpecErr::InvalidMove(s@),
        }
    }
}

/// The first index at or after `i` whose token is `moves`, or the length
/// when there is none.
pub open spec fn find_moves(args: Seq<Seq<char>>, i: int) -> int
    decreases args.len() - i when 0 <= i <= args.len()
{
    if i == args.len() {
        i
    } else if args[i] == "moves"@ {
        i
    } else {
        find_moves(args, i + 1)
    }
}

/// Tokens joined with single spaces, the inverse of tokenization for
/// space-free tokens.
pub open spec fn join_sp(toks: Seq<Seq<char>>) -> Seq<char>
    decreases toks.len(),
{
    if toks.len() == 0 {
        seq![]
    } else if toks.len() == 1 {
        toks[0]
    } else {
        join_sp(toks.drop_last()) + seq![' '] + toks.last()
    }
}

/// The normal form of a move token: its two squares plus the promotion
/// letter when a valid one stands fifth; `None` when the token is
/// malformed. A fifth character that is no promotion letter, and anything
/// past it, is ignored, as the notation prescribes.
pub open spec fn norm_move(t: Seq<char>) -> Option<Seq<char>> {
    if t.len() >= 4 && is_file(t[0]) && is_rank(t[1]) && is_file(t[2]) && is_rank(t[3]) {
        if t.len() >= 5 && is_promo(t[4]) {
            Some(t.subrange(0, 5))
        } else {
            Some(t.subrange(0, 4))
        }
    } else {
        None
    }
}

/// Apply move tokens strictly left to right: the position produced by one
/// move is the base for validating the next. The first malformed or
/// illegal token aborts the whole application.
pub open spec fn spec_apply_moves(fen: Seq<char>, ms: Seq<Seq<char>>) -> Result<Seq<char>, SpecErr>
    decreases ms.len(),
{
    if ms.len() == 0 {
        Ok(fen)
    } else {
        match norm_move(ms[0]) {
            Option::None => Err(SpecErr::InvalidMove(ms[0])),
            Option::Some(nt) => if is_legal(fen, nt) {
                spec_apply_moves(fen_after(fen, nt), ms.drop_first())
            } else {
                Err(SpecErr::InvalidMove(ms[0]))
            },
        }
    }
}

/// What a `position` command's arguments (everything after the `position`
/// keyword) denote: the FEN of the fully reconstructed position, or the
/// first error met.
pub open spec fn spec_parse_position(args: Seq<Seq<char>>) -> Result<Seq<char>, SpecErr>
    recommends
        args.len() > 0,
{
    let mi = find_moves(args, 0);
    let move_toks = if mi < args.len() {
        args.subrange(mi + 1, args.len() as int)
    } else {
        Seq::empty()
    };
    if args[0] == "startpos"@ {
        spec_apply_moves(start_fen(), move_toks)
    } else if args[0] == "fen"@ {
        if mi <= 1 {
            Err(SpecErr::EmptyFen)
        } else {
            let ftext = join_sp(args.subrange(1, mi));
            match fen_parse(ftext) {
                Option::None => Err(SpecErr::InvalidFen(ftext)),
                Option::Some(f) => spec_apply_moves(f, move_toks),
            }
        }
    } else {
        Err(SpecErr::UnknownPositionSource)
    }
}

/// The position a command leaves behind: `newgame` resets it, a successful
/// `position` replaces it, everything else keeps it.
pub open spec fn fen_after_command(fen: Seq<char>, toks: Seq<Seq<char>>) -> Seq<char> {
    if toks.len() == 0 {
        fen
    } else if toks[0] == "newgame"@ {
        start_fen()
    } else if toks[0] == "position"@ {
        if toks.len() >= 2 {
            match spec_parse_position(toks.drop_first()) {
                Result::Ok(f) => f,
                Result::Err(_) => fen,
            }
        } else {
            fen
        }
    } else {
        fen
    }
}

/// The diagnostic a command produces: only a failing `position` command
/// produces one.
pub open spec fn err_of_command(toks: Seq<Seq<char>>) -> Option<SpecErr> {
    if toks.len() >= 2 && toks[0] == "position"@ {
        match spec_parse_position(toks.drop_first()) {
            Result::Ok(_) => None,
            Result::Err(e) => Some(e),
        }
    } else {
        None
    }
}

fn is_file_exec(c: char) -> (r: bool)
    ensures
        r == is_file(c),
{
    ('a' as u32) <= (c as u32) && (c as u32) <= ('h' as u32)
}

fn is_rank_exec(c: char) -> (r: bool)
    ensures
        r == is_rank(c),
{
    ('1' as u32) <= (c as u32) && (c as u32) <= ('8' as u32)
}

/// Bring a move token to its normal form, or reject it.
fn normalize_move(t: &str) -> (r: Option<String>)
    ensures
        match r {
            Option::Some(s) => norm_move(t@) == Some(s@) && wf_move_text(s@),
            Option::None => norm_move(t@) is None,
        },
{
    let n = t.unicode_len();
    if n < 4 {
        return None;
    }
    let c0 = t.get_char(0);
    let c1 = t.get_char(1);
    let c2 = t.get_char(2);
    let c3 = t.get_char(3);
    if !(is_file_exec(c0) && is_rank_exec(c1) && is_file_exec(c2) && is_rank_exec(c3)) {
        return None;
    }
    if n >= 5 {
        let c4 = t.get_char(4);
        if c4 == 'q' || c4 == 'r' || c4 == 'b' || c4 == 'n' {
            let s = String::from_str(t.substring_char(0, 5));
            return Some(s);
        }
    }
    let s = String::from_str(t.substring_char(0, 4));
    Some(s)
}

/// Join the tokens at positions `from..to` with single spaces.
fn join_tokens(toks: &Vec<String>, from: usize, to: usize) -> (r: String)
    requires
        from <= to <= toks@.len(),
    ensures
        r@ == join_sp(views_of(toks@).subrange(from as int, to as int)),
{
    let mut s = String::new();
    let mut k = from;
    while k < to
        invariant
            from <= k <= to <= toks@.len(),
            s@ == join_sp(views_of(toks@).subrange(from as int, k as int)),
        decreases to - k,
    {
        proof {
            reveal_strlit(" ");
            let v = views_of(toks@);
            let prev = v.subrange(from as int, k as int);
            let next = v.subrange(from as int, k as int + 1);
            assert(next.drop_last() =~= prev);
            assert(next.last() == toks@[k as int]@);
            if k == from {
                assert(join_sp(next) == toks@[k as int]@);
                assert(s@ + toks@[k as int]@ =~= join_sp(next));
            } else {
                assert(" "@ =~= seq![' ']);
                assert(s@ + " "@ + toks@[k as int]@ =~= join_sp(next));
            }
        }
        if k > from {
            s.append(" ");
        }
        s.append(toks[k].as_str());
        k += 1;
    }
    s
}

/// Reconstruct the position a `position` command names. `toks` is the
/// whole command, `toks[0]` the `position` keyword itself; the result is
/// the fully reconstructed board, or the first error met — in which case
/// the caller must leave its state untouched.
fn parse_position(toks: &Vec<String>) -> (r: Result<chess::Board, ParseError>)
    requires
        toks@.len() >= 2,
    ensures
        ({
            let args = views_of(toks@).subrange(1, views_of(toks@).len() as int);
            match r {
                Result::Ok(b) => spec_parse_position(args) == Result::<Seq<char>, SpecErr>::Ok(
                    board_fen(b),
                ),
                Result::Err(e) => spec_parse_position(args) == Result::<Seq<char>, SpecErr>::Err(
                    e@,
                ),
            }
        }),
{
    let n = toks.len();
    let ghost args = views_of(toks@).subrange(1, n as int);
    let mut j: usize = 1;
    while j < n && !str_eq(toks[j].as_str(), "moves")
        invariant
            1 <= j <= n,
            n == toks@.len(),
            args == views_of(toks@).subrange(1, n as int),
            find_moves(args, 0) == find_moves(args, j - 1),
        decreases n - j,
    {
        proof {
            assert(args[j - 1] == toks@[j as int]@);
        }
        j += 1;
    }
    proof {
        if j == n {
            assert(find_moves(args, j - 1) == args.len());
        } else {
            assert(args[j - 1] == toks@[j as int]@);
        }
        assert(find_moves(args, 0) == j - 1);
    }
    let ghost mi = find_moves(args, 0);
    let ghost mts: Seq<Seq<char>> = if mi < args.len() {
        args.subrange(mi + 1, args.len() as int)
    } else {
        Seq::empty()
    };
    let mut board: chess::Board;
    if str_eq(toks[1].as_str(), "startpos") {
        board = start_board();
    } else if str_eq(toks[1].as_str(), "fen") {
        if j <= 2 {
            return Err(ParseError::EmptyFen);
        }
        let ftext = join_tokens(toks, 2, j);
        proof {
            assert(views_of(toks@).subrange(2, j as int) =~= args.subrange(1, mi));
        }
        match parse_fen(ftext.as_str()) {
            Option::Some(b) => {
                board = b;
            },
            Option::None => {
                return Err(ParseError::InvalidFen(ftext));
            },
        }
    } else {
        proof {
            assert(args[0] == toks@[1]@);
        }
        return Err(ParseError::UnknownPositionSource);
    }
    proof {
        assert(spec_parse_position(args) == spec_apply_moves(board_fen(board), mts));
    }
    if j < n {
        proof {
            assert(mts =~= args.subrange(j as int, args.len() as int));
            assert(mts.subrange(0, mts.len() as int) =~= mts);
        }
        let mut k = j + 1;
        while k < n
            invariant
                j + 1 <= k <= n,
                j < n,
                n == toks@.len(),
                args == views_of(toks@).subrange(1, n as int),
                mts == args.subrange(j as int, args.len() as int),
                spec_apply_moves(board_fen(board), mts.subrange(k - j - 1, mts.len() as int))
                    == spec_parse_position(args),
            decreases n - k,
        {
            let ghost p = k - j - 1;
            let ghost rest = mts.subrange(p, mts.len() as int);
            proof {
                assert(rest[0] == mts[p]);
                assert(mts[p] == args[k - 1]);
                assert(args[k - 1] == toks@[k as int]@);
            }
            match normalize_move(toks[k].as_str()) {
                Option::None => {
                    return Err(ParseError::InvalidMove(toks[k].clone()));
                },
                Option::Some(nt) => {
                    let mv = move_of_text(nt.as_str()).unwrap();
                    if !board_legal(&board, &mv) {
                        return Err(ParseError::InvalidMove(toks[k].clone()));
                    }
                    proof {
                        assert(rest.drop_first() =~= mts.subrange(p + 1, mts.len() as int));
                    }
                    board = apply_move(&board, &mv);
                },
            }
            k += 1;
        }
        proof {
            assert(mts.subrange(k - j - 1, mts.len() as int) =~= Seq::<Seq<char>>::empty());
        }
    }
    Ok(board)
}

/// The reply lines of a `handshake` command: name line, author line,
/// acknowledgement sentinel, in that order.
pub open spec fn handshake_lines(name: Seq<char>, author: Seq<char>) -> Seq<Seq<char>> {
    seq!["id name "@ + name, "id author "@ + author, "handshakeok"@]
}

/// The session: owner of the one authoritative position, plus the
/// diagnostic left behind by the most recent command, if any.
pub struct UciHandler {
    current_position: chess::Board,
    last_error: Option<ParseError>,
}

impl UciHandler {
    /// The model of the held position: its FEN text.
    pub closed spec fn fen(&self) -> Seq<char> {
        board_fen(self.current_position)
    }

    /// The diagnostic of the most recent command, at specification level.
    pub closed spec fn err(&self) -> Option<SpecErr> {
        match self.last_error {
            Option::None => None,
            Option::Some(e) => Some(e@),
        }
    }

    /// A fresh session holds the standard initial position.
    pub fn new() -> (h: UciHandler)
        ensures
            h.fen() == start_fen(),
            h.err() is None,
    {
        UciHandler { current_position: start_board(), last_error: None }
    }

    /// The FEN text of the held position.
    pub fn current_fen(&self) -> (r: String)
        ensures
            r@ == self.fen(),
    {
        board_to_fen(&self.current_position)
    }

    /// The diagnostic the most recent command produced, `None` when it
    /// produced none.
    pub fn last_error(&self) -> (r: &Option<ParseError>)
        ensures
            self.err() == (match *r {
                Option::None => None::<SpecErr>,
                Option::Some(e) => Some(e@),
            }),
    {
        &self.last_error
    }

    /// Process one command line: dispatch on the first token, update the
    /// held position for `newgame` and successful `position` commands, and
    /// return the protocol reply lines. A failed `position` command leaves
    /// the position untouched and is visible only through [`Self::last_error`];
    /// empty, `quit` and unrecognized lines produce nothing.
    pub fn handle_command(&mut self, cmd: &str, engine: &mut Engine) -> (lines: Vec<String>)
        ensures
            ({
                let toks = spec_tokens(cmd@);
                &&& final(self).fen() == fen_after_command(old(self).fen(), toks)
                &&& final(self).err() == err_of_command(toks)
                &&& *final(engine) == *old(engine)
                &&& (toks.len() == 0 ==> lines@.len() == 0)
                &&& (toks.len() > 0 && toks[0] == "handshake"@ ==> views_of(lines@)
                    == handshake_lines(old(engine).name@, old(engine).author@))
                &&& (toks.len() > 0 && toks[0] == "readinesscheck"@ ==> views_of(lines@)
                    == seq!["readyok"@])
                &&& (toks.len() > 0 && toks[0] == "go"@ ==> ({
                    let ll = legal_list(old(self).fen());
                    &&& (ll.len() == 0 ==> lines@.len() == 0)
                    &&& (ll.len() > 0 ==> lines@.len() == 1 && (exists|mv: Seq<char>|
                        #[trigger] ll.contains(mv) && lines@[0]@ == "bestmove "@ + mv))
                }))
                &&& (toks.len() > 0 && toks[0] != "handshake"@ && toks[0] != "readinesscheck"@
                    && toks[0] != "go"@ ==> lines@.len() == 0)
            }),
    {
        proof {
            reveal_strlit("handshake");
            reveal_strlit("readinesscheck");
            reveal_strlit("newgame");
            reveal_strlit("position");
            reveal_strlit("go");
            assert("handshake"@.len() == 9);
            assert("readinesscheck"@.len() == 14);
            assert("newgame"@.len() == 7);
            assert("position"@.len() == 8);
            assert("go"@.len() == 2);
        }
        self.last_error = None;
        let toks = tokenize(cmd);
        if toks.len() == 0 {
            return Vec::new();
        }
        if str_eq(toks[0].as_str(), "handshake") {
            let mut out: Vec<String> = Vec::new();
            out.push(String::from_str("id name ").concat(engine.name.as_str()));
            out.push(String::from_str("id author ").concat(engine.author.as_str()));
            out.push(String::from_str("handshakeok"));
            proof {
                assert(views_of(out@) =~= handshake_lines(engine.name@, engine.author@));
            }
            out
        } else if str_eq(toks[0].as_str(), "readinesscheck") {
            let mut out: Vec<String> = Vec::new();
            out.push(String::from_str("readyok"));
            proof {
                assert(views_of(out@) =~= seq!["readyok"@]);
            }
            out
        } else if str_eq(toks[0].as_str(), "newgame") {
            self.current_position = start_board();
            Vec::new()
        } else if str_eq(toks[0].as_str(), "position") {
            if toks.len() >= 2 {
                proof {
                    assert(views_of(toks@).subrange(1, views_of(toks@).len() as int)
                        =~= spec_tokens(cmd@).drop_first());
                }
                match parse_position(&toks) {
                    Result::Ok(b) => {
                        self.current_position = b;
                    },
                    Result::Err(e) => {
                        self.last_error = Some(e);
                    },
                }
            }
            Vec::new()
        } else if str_eq(toks[0].as_str(), "go") {
            match engine.get_random_move(&self.current_position) {
                Option::Some(m) => {
                    let mt = move_to_text(&m);
                    let line = String::from_str("bestmove ").concat(mt.as_str());
                    let mut out: Vec<String> = Vec::new();
                    out.push(line);
                    proof {
                        let ll = legal_list(old(self).fen());
                        assert(ll.contains(move_text(m)));
                        assert(views_of(out@)[0] == "bestmove "@ + move_text(m));
                    }
                    out
                },
                Option::None => Vec::new(),
            }
        } else {
            Vec::new()
        }
    }
}

/// Issuing `newgame` twice in a row is equivalent to issuing it once: the
/// session ends at the standard initial position either way.
pub proof fn lemma_newgame_idempotent(fen: Seq<char>, toks: Seq<Seq<char>>)
    ensures
        toks.len() > 0 && toks[0] == "newgame"@ ==> fen_after_command(
            fen_after_command(fen, toks),
            toks,
        ) == fen_after_command(fen, toks),
{
}

/// A `position` command that fails — for an unknown source, a bad FEN, or
/// a malformed or illegal move token — leaves the position unchanged.
pub proof fn lemma_failed_position_unchanged(fen: Seq<char>, toks: Seq<Seq<char>>)
    ensures
        toks.len() >= 2 && toks[0] == "position"@ && spec_parse_position(toks.drop_first()) is Err
            ==> fen_after_command(fen, toks) == fen,
{
    reveal_strlit("position");
    reveal_strlit("newgame");
    assert("position"@.len() == 8);
    assert("newgame"@.len() == 7);
}

/// `position startpos moves m1 … mn`, with every move legal in turn, ends
/// at exactly the fold of the library's move application over the moves,
/// applied one at a time from the standard initial position — whatever
/// position the session held before.
pub proof fn lemma_startpos_moves(fen: Seq<char>, ms: Seq<Seq<char>>)
    ensures
        spec_apply_moves(start_fen(), ms) is Ok ==> fen_after_command(
            fen,
            seq!["position"@, "startpos"@, "moves"@] + ms,
        ) == spec_apply_moves(start_fen(), ms)->Ok_0,
{
    reveal_strlit("position");
    reveal_strlit("newgame");
    reveal_strlit("startpos");
    reveal_strlit("moves");
    assert("position"@.len() == 8);
    assert("newgame"@.len() == 7);
    assert("startpos"@.len() == 8);
    assert("moves"@.len() == 5);
    if spec_apply_moves(start_fen(), ms) is Ok {
        let t = seq!["position"@, "startpos"@, "moves"@] + ms;
        let args = t.drop_first();
        assert(args =~= seq!["startpos"@, "moves"@] + ms);
        assert(find_moves(args, 0) == find_moves(args, 1));
        assert(find_moves(args, 1) == 1);
        assert(args.subrange(2, args.len() as int) =~= ms);
    }
}

} // verus!

