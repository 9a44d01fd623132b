//! Whitespace tokenization and character-level string helpers.
//!
//! Every command line is split into whitespace-separated tokens before
//! dispatch; [`spec_tokens`] is the mathematical form of that split and
//! [`tokenize`] is the executable one, proved to agree with it.

use vstd::prelude::*;

verus! {

/// The whitespace characters the tokenizer splits on.
pub open spec fn is_ws(c: char) -> bool {
    c == ' ' || c == '\t' || c == '\n' || c == '\r'
}

/// The index right after the token that starts at `i`: the first position
/// at or after `i` that holds whitespace, or the end of the text.
pub open spec fn token_end(s: Seq<char>, i: int) -> int
    decreases s.len() - i when 0 <= i <= s.len()
{
    if i == s.len() {
        i
    } else if is_ws(s[i]) {
        i
    } else {
        token_end(s, i + 1)
    }
}

pub proof fn lemma_token_end_bounds(s: Seq<char>, i: int)
    requires
        0 <= i <= s.len(),
    ensures
        i <= token_end(s, i) <= s.len(),
    decreases s.len() - i,
{
    if i < s.len() && !is_ws(s[i]) {
        lemma_token_end_bounds(s, i + 1);
    }
}

/// The tokens of `s` that start at or after position `i`.
pub open spec fn tokens_from(s: Seq<char>, i: int) -> Seq<Seq<char>>
    decreases s.len() - i when 0 <= i <= s.len() via tokens_from_dec
{
    if i == s.len() {
        seq![]
    } else if is_ws(s[i]) {
        tokens_from(s, i + 1)
    } else {
        seq![s.subrange(i, token_end(s, i))] + tokens_from(s, token_end(s, i))
    }
}

#[via_fn]
proof fn tokens_from_dec(s: Seq<char>, i: int) {
    if 0 <= i < s.len() && !is_ws(s[i]) {
        lemma_token_end_bounds(s, i + 1);
    }
}

/// The whitespace-separated tokens of `s`, in order.
pub open spec fn spec_tokens(s: Seq<char>) -> Seq<Seq<char>> {
    tokens_from(s, 0)
}

/// The character sequences of a sequence of strings.
pub open spec fn views_of(ts: Seq<String>) -> Seq<Seq<char>> {
    ts.map_values(|t: String| t@)
}

pub proof fn lemma_views_of_push(ts: Seq<String>, t: String)
    ensures
        views_of(ts.push(t)) == views_of(ts).push(t@),
{
    assert(views_of(ts.push(t)) =~= views_of(ts).push(t@));
}

/// Character-by-character string equality.
pub fn str_eq(a: &str, b: &str) -> (r: bool)
    ensures
        r == (a@ == b@),
{
    let na = a.unicode_len();
    let nb = b.unicode_len();
    if na != nb {
        return false;
    }
    let mut i: usize = 0;
    while i < na
        invariant
            na == a@.len(),
            na == b@.len(),
            i <= na,
            forall|j: int| 0 <= j < i ==> a@[j] == b@[j],
        decreases na - i,
    {
        if a.get_char(i) != b.get_char(i) {
            return false;
        }
        i += 1;
    }
    proof {
        assert(a@ =~= b@);
    }
    true
}

fn is_ws_exec(c: char) -> (r: bool)
    ensures
        r == is_ws(c),
{
    c == ' ' || c == '\t' || c == '\n' || c == '\r'
}

/// Split a line into its whitespace-separated tokens.
pub fn tokenize(line: &str) -> (toks: Vec<String>)
    ensures
        views_of(toks@) == spec_tokens(line@),
{
    let n = line.unicode_len();
    let mut toks: Vec<String> = Vec::new();
    let mut i: usize = 0;
    while i < n
        invariant
            n == line@.len(),
            i <= n,
            views_of(toks@) + tokens_from(line@, i as int) == spec_tokens(line@),
        decreases n - i,
    {
        let c = line.get_char(i);
        if is_ws_exec(c) {
            i += 1;
        } else {
            let start = i;
            proof {
                lemma_token_end_bounds(line@, start as int);
            }
            i += 1;
            while i < n && !is_ws_exec(line.get_char(i))
                invariant
                    n == line@.len(),
                    start < i <= n,
                    token_end(line@, start as int) == token_end(line@, i as int),
                decreases n - i,
            {
                i += 1;
            }
            proof {
                assert(token_end(line@, start as int) == i as int);
            }
            let tok = String::from_str(line.substring_char(start, i));
            proof {
                let s = line@;
                let gi = start as int;
                assert(tokens_from(s, gi) == seq![s.subrange(gi, token_end(s, gi))] + tokens_from(
                    s,
                    token_end(s, gi),
                ));
                lemma_views_of_push(toks@, tok);
                assert(views_of(toks@.push(tok)) + tokens_from(s, i as int) =~= views_of(toks@)
                    + tokens_from(s, gi));
            }
            toks.push(tok);
        }
    }
    proof {
        assert(views_of(toks@) + tokens_from(line@, n as int) =~= views_of(toks@));
    }
    toks
}

} // verus!
