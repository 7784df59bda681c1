//! The schema tokenizer.
//!
//! Turns schema text into the token sequence the parser consumes:
//! keywords and identifiers, string literals (double-quoted, without
//! escape sequences), decimal integer literals, and punctuation.  A
//! function body is an opaque payload that the host hands over as a
//! pre-split [`Tok::Body`] token; the tokenizer itself produces no body
//! token, so the text forms it serves are the flat module description
//! and declarations without bodies.
//!
//! Lexing fails with a [`LexError`] holding the index of the first
//! character that starts no token (or the text length, for an
//! unterminated string literal).  `tokenize` is proved equal to the
//! specification function `sp_tokenize`, and its reported error
//! position to `sp_lex_failure_at`.

use vstd::prelude::*;
use crate::token::{tokens_view, Tok, TokV};

verus! {

/// A lexical failure: `at` is the index of the first character that
/// starts no token, or the text length when a string literal never
/// closes — as `sp_lex_failure_at` states it.
#[derive(Clone, Copy, Debug, PartialEq, Eq, Structural)]
pub struct LexError {
    pub at: usize,
}

/// Whether a character is horizontal or vertical whitespace.
pub open spec fn is_ws_char(c: char) -> bool {
    c == ' ' || c == '\n' || c == '\t' || c == '\r'
}

/// Whether a character may open an identifier.
pub open spec fn is_ident_start_char(c: char) -> bool {
    ||| ('a' as u32) <= (c as u32) && (c as u32) <= ('z' as u32)
    ||| ('A' as u32) <= (c as u32) && (c as u32) <= ('Z' as u32)
    ||| c == '_'
}

/// Whether a character is a decimal digit.
pub open spec fn is_digit_char(c: char) -> bool {
    ('0' as u32) <= (c as u32) && (c as u32) <= ('9' as u32)
}

/// Whether a character may continue an identifier.
pub open spec fn is_ident_char(c: char) -> bool {
    is_ident_start_char(c) || is_digit_char(c)
}

/// The numeric value of a digit character.
pub open spec fn digit_val(c: char) -> nat {
    ((c as u32) - ('0' as u32)) as nat
}

/// The first index at or after `i` whose character is not whitespace.
pub open spec fn sp_skip_ws(s: Seq<char>, i: int) -> int
    decreases s.len() - i,
{
    if i < s.len() && is_ws_char(s[i]) {
        sp_skip_ws(s, i + 1)
    } else {
        i
    }
}

/// The first index at or after `i` whose character does not continue an
/// identifier.
pub open spec fn sp_ident_end(s: Seq<char>, i: int) -> int
    decreases s.len() - i,
{
    if i < s.len() && is_ident_char(s[i]) {
        sp_ident_end(s, i + 1)
    } else {
        i
    }
}

/// The first index at or after `i` whose character is not a digit.
pub open spec fn sp_digit_end(s: Seq<char>, i: int) -> int
    decreases s.len() - i,
{
    if i < s.len() && is_digit_char(s[i]) {
        sp_digit_end(s, i + 1)
    } else {
        i
    }
}

/// The index of the first `"` at or after `i`, if any.
pub open spec fn sp_find_quote(s: Seq<char>, i: int) -> Option<int>
    decreases s.len() - i,
{
    if i < s.len() {
        if s[i] == '"' {
            Option::Some(i)
        } else {
            sp_find_quote(s, i + 1)
        }
    } else {
        Option::None
    }
}

/// The decimal value of a digit run.
pub open spec fn sp_digits_val(s: Seq<char>) -> nat
    decreases s.len(),
{
    if s.len() == 0 {
        0
    } else {
        sp_digits_val(s.drop_last()) * 10 + digit_val(s.last())
    }
}

/// The keyword or identifier token a word stands for.
pub open spec fn sp_classify(w: Seq<char>) -> TokV {
    if w == "module"@ {
        TokV::KwModule
    } else if w == "enum"@ {
        TokV::KwEnum
    } else if w == "struct"@ {
        TokV::KwStruct
    } else if w == "fn"@ {
        TokV::KwFn
    } else if w == "fn_c"@ {
        TokV::KwFnC
    } else if w == "fn_py"@ {
        TokV::KwFnPy
    } else if w == "comment"@ {
        TokV::KwComment
    } else if w == "comment_c"@ {
        TokV::KwCommentC
    } else if w == "comment_py"@ {
        TokV::KwCommentPy
    } else {
        TokV::Ident(w)
    }
}

/// One token read at `i`, which must be in bounds and not whitespace:
/// the token and the index just past it, or nothing when no token
/// starts there.
pub open spec fn sp_next(s: Seq<char>, i: int) -> Option<(TokV, int)> {
    if i < s.len() && is_ident_start_char(s[i]) {
        let j = sp_ident_end(s, i + 1);
        Option::Some((sp_classify(s.subrange(i, j)), j))
    } else if i < s.len() && is_digit_char(s[i]) {
        let j = sp_digit_end(s, i + 1);
        if sp_digits_val(s.subrange(i, j)) <= usize::MAX as nat {
            Option::Some((TokV::IntLit(sp_digits_val(s.subrange(i, j))), j))
        } else {
            Option::None
        }
    } else if i < s.len() && s[i] == '"' {
        match sp_find_quote(s, i + 1) {
            Option::Some(q) => Option::Some((TokV::StrLit(s.subrange(i + 1, q)), q + 1)),
            Option::None => Option::None,
        }
    } else if i + 2 <= s.len() && s[i] == '-' && s[i + 1] == '>' {
        Option::Some((TokV::Arrow, i + 2))
    } else if i < s.len() && s[i] == '=' {
        Option::Some((TokV::Eq, i + 1))
    } else if i < s.len() && s[i] == ',' {
        Option::Some((TokV::Comma, i + 1))
    } else if i < s.len() && s[i] == ':' {
        Option::Some((TokV::Colon, i + 1))
    } else if i < s.len() && s[i] == ';' {
        Option::Some((TokV::Semi, i + 1))
    } else if i < s.len() && s[i] == '(' {
        Option::Some((TokV::LParen, i + 1))
    } else if i < s.len() && s[i] == ')' {
        Option::Some((TokV::RParen, i + 1))
    } else if i < s.len() && s[i] == '[' {
        Option::Some((TokV::LBracket, i + 1))
    } else if i < s.len() && s[i] == ']' {
        Option::Some((TokV::RBracket, i + 1))
    } else if i < s.len() && s[i] == '{' {
        Option::Some((TokV::LBrace, i + 1))
    } else if i < s.len() && s[i] == '}' {
        Option::Some((TokV::RBrace, i + 1))
    } else {
        Option::None
    }
}

/// Whitespace skipping stays between its start and the end of the text.
proof fn lemma_skip_ws_bounds(s: Seq<char>, i: int)
    requires
        0 <= i <= s.len(),
    ensures
        i <= sp_skip_ws(s, i) <= s.len(),
    decreases s.len() - i,
{
    if i < s.len() && is_ws_char(s[i]) {
        lemma_skip_ws_bounds(s, i + 1);
    }
}

/// An identifier scan stays between its start and the end of the text.
proof fn lemma_ident_end_bounds(s: Seq<char>, i: int)
    requires
        0 <= i <= s.len(),
    ensures
        i <= sp_ident_end(s, i) <= s.len(),
    decreases s.len() - i,
{
    if i < s.len() && is_ident_char(s[i]) {
        lemma_ident_end_bounds(s, i + 1);
    }
}

/// A digit scan stays between its start and the end of the text.
proof fn lemma_digit_end_bounds(s: Seq<char>, i: int)
    requires
        0 <= i <= s.len(),
    ensures
        i <= sp_digit_end(s, i) <= s.len(),
    decreases s.len() - i,
{
    if i < s.len() && is_digit_char(s[i]) {
        lemma_digit_end_bounds(s, i + 1);
    }
}

/// A found closing quote lies between the scan's start and the end of
/// the text.
proof fn lemma_find_quote_bounds(s: Seq<char>, i: int)
    requires
        0 <= i <= s.len(),
    ensures
        sp_find_quote(s, i) matches Option::Some(q) ==> i <= q < s.len(),
    decreases s.len() - i,
{
    if i < s.len() && s[i] != '"' {
        lemma_find_quote_bounds(s, i + 1);
    }
}

/// A token read in bounds consumes at least one character and stays in
/// bounds.
proof fn lemma_sp_next_progress(s: Seq<char>, i: int)
    requires
        0 <= i <= s.len(),
    ensures
        sp_next(s, i) matches Option::Some((tok, j)) ==> i < j <= s.len(),
{
    if i < s.len() && is_ident_start_char(s[i]) {
        lemma_ident_end_bounds(s, i + 1);
    } else if i < s.len() && is_digit_char(s[i]) {
        lemma_digit_end_bounds(s, i + 1);
    } else if i < s.len() && s[i] == '"' {
        lemma_find_quote_bounds(s, i + 1);
    }
}

/// The token sequence of the text from `i` on: whitespace, then either
/// the end of the text or one token and the rest.
pub open spec fn sp_tokenize_from(s: Seq<char>, i: int) -> Option<Seq<TokV>>
    decreases s.len() - i,
        via sp_tokenize_from_dec
{
    if i < 0 {
        Option::None
    } else {
        let w = sp_skip_ws(s, i);
        if w == s.len() {
            Option::Some(Seq::empty())
        } else {
            match sp_next(s, w) {
                Option::Some((tok, j)) => match sp_tokenize_from(s, j) {
                    Option::Some(rest) => Option::Some(seq![tok] + rest),
                    Option::None => Option::None,
                },
                Option::None => Option::None,
            }
        }
    }
}

#[via_fn]
proof fn sp_tokenize_from_dec(s: Seq<char>, i: int) {
    if 0 <= i <= s.len() {
        lemma_skip_ws_bounds(s, i);
        lemma_sp_next_progress(s, sp_skip_ws(s, i));
    } else if i > s.len() {
        lemma_skip_ws_unfold_oob(s, i);
    }
}

/// Past the end of the text, whitespace skipping is the identity.
proof fn lemma_skip_ws_unfold_oob(s: Seq<char>, i: int)
    requires
        i > s.len(),
    ensures
        sp_skip_ws(s, i) == i,
{
}

/// The token sequence of the whole text, if every character belongs to
/// a token.
pub open spec fn sp_tokenize(s: Seq<char>) -> Option<Seq<TokV>> {
    sp_tokenize_from(s, 0)
}

/// The position a failed lex reports, scanning from `i` as
/// `sp_tokenize_from` does: the index of the first character that
/// starts no token, or the text length when an unterminated string
/// literal is to blame.
pub open spec fn sp_lex_failure_at(s: Seq<char>, i: int) -> int
    decreases s.len() - i,
        via sp_lex_failure_at_dec
{
    if i < 0 {
        0
    } else {
        let w = sp_skip_ws(s, i);
        if w == s.len() {
            w
        } else {
            match sp_next(s, w) {
                Option::Some((tok, j)) => sp_lex_failure_at(s, j),
                Option::None => if s[w] == '"' && sp_find_quote(s, w + 1) is None {
                    s.len() as int
                } else {
                    w
                },
            }
        }
    }
}

#[via_fn]
proof fn sp_lex_failure_at_dec(s: Seq<char>, i: int) {
    if 0 <= i <= s.len() {
        lemma_skip_ws_bounds(s, i);
        lemma_sp_next_progress(s, sp_skip_ws(s, i));
    } else if i > s.len() {
        lemma_skip_ws_unfold_oob(s, i);
    }
}


/// Digit scanning sees only digits.
proof fn lemma_digit_end_chars(s: Seq<char>, i: int)
    requires
        0 <= i <= s.len(),
    ensures
        forall|k: int| i <= k < sp_digit_end(s, i) ==> is_digit_char(#[trigger] s[k]),
    decreases s.len() - i,
{
    if i < s.len() && is_digit_char(s[i]) {
        lemma_digit_end_chars(s, i + 1);
    }
}

/// A digit run's prefix never exceeds the whole run's value.
proof fn lemma_digits_prefix(s: Seq<char>, m: int)
    requires
        0 <= m <= s.len(),
    ensures
        sp_digits_val(s.take(m)) <= sp_digits_val(s),
    decreases s.len(),
{
    if m < s.len() {
        assert(s.take(m) =~= s.drop_last().take(m));
        lemma_digits_prefix(s.drop_last(), m);
    } else {
        assert(s.take(m) =~= s);
    }
}

/// The first non-whitespace position at or after `i`.
fn skip_ws_exec(text: &str, i: usize) -> (r: usize)
    requires
        i <= text@.len(),
    ensures
        r as int == sp_skip_ws(text@, i as int),
        i <= r <= text@.len(),
{
    let n: usize = text.unicode_len();
    let mut pos: usize = i;
    while pos < n
        invariant
            i <= pos <= n,
            n == text@.len(),
            sp_skip_ws(text@, i as int) == sp_skip_ws(text@, pos as int),
        decreases n - pos,
    {
        let c: char = text.get_char(pos);
        if c == ' ' || c == '\n' || c == '\t' || c == '\r' {
            pos = pos + 1;
        } else {
            return pos;
        }
    }
    pos
}

/// The first position at or after `i` that does not continue an
/// identifier.
fn scan_ident_end(text: &str, i: usize) -> (r: usize)
    requires
        i <= text@.len(),
    ensures
        r as int == sp_ident_end(text@, i as int),
        i <= r <= text@.len(),
{
    let n: usize = text.unicode_len();
    let mut pos: usize = i;
    while pos < n
        invariant
            i <= pos <= n,
            n == text@.len(),
            sp_ident_end(text@, i as int) == sp_ident_end(text@, pos as int),
        decreases n - pos,
    {
        let c: char = text.get_char(pos);
        let cu: u32 = c as u32;
        let ident_char: bool = (cu >= 'a' as u32 && cu <= 'z' as u32) || (cu >= 'A' as u32 && cu
            <= 'Z' as u32) || c == '_' || (cu >= '0' as u32 && cu <= '9' as u32);
        if ident_char {
            pos = pos + 1;
        } else {
            return pos;
        }
    }
    pos
}

/// The first position at or after `i` that is not a digit.
fn scan_digit_end(text: &str, i: usize) -> (r: usize)
    requires
        i <= text@.len(),
    ensures
        r as int == sp_digit_end(text@, i as int),
        i <= r <= text@.len(),
{
    let n: usize = text.unicode_len();
    let mut pos: usize = i;
    while pos < n
        invariant
            i <= pos <= n,
            n == text@.len(),
            sp_digit_end(text@, i as int) == sp_digit_end(text@, pos as int),
        decreases n - pos,
    {
        let c: char = text.get_char(pos);
        let cu: u32 = c as u32;
        if cu >= '0' as u32 && cu <= '9' as u32 {
            pos = pos + 1;
        } else {
            return pos;
        }
    }
    pos
}

/// The position of the first `"` at or after `i`, if any.
fn find_quote(text: &str, i: usize) -> (r: Option<usize>)
    requires
        i <= text@.len(),
    ensures
        (match r {
            Option::Some(q) => sp_find_quote(text@, i as int) == Option::Some(q as int) && i <= q
                < text@.len(),
            Option::None => sp_find_quote(text@, i as int) is None,
        }),
{
    let n: usize = text.unicode_len();
    let mut pos: usize = i;
    while pos < n
        invariant
            i <= pos <= n,
            n == text@.len(),
            sp_find_quote(text@, i as int) == sp_find_quote(text@, pos as int),
        decreases n - pos,
    {
        let c: char = text.get_char(pos);
        if c == '"' {
            return Option::Some(pos);
        }
        pos = pos + 1;
    }
    Option::None
}

/// The keyword or identifier token a word stands for.
fn classify(w: String) -> (r: Tok)
    ensures
        r@ == sp_classify(w@),
{
    if w == String::from_str("module") {
        Tok::KwModule
    } else if w == String::from_str("enum") {
        Tok::KwEnum
    } else if w == String::from_str("struct") {
        Tok::KwStruct
    } else if w == String::from_str("fn") {
        Tok::KwFn
    } else if w == String::from_str("fn_c") {
        Tok::KwFnC
    } else if w == String::from_str("fn_py") {
        Tok::KwFnPy
    } else if w == String::from_str("comment") {
        Tok::KwComment
    } else if w == String::from_str("comment_c") {
        Tok::KwCommentC
    } else if w == String::from_str("comment_py") {
        Tok::KwCommentPy
    } else {
        Tok::Ident(w)
    }
}

/// The value of the digit run `text[i..j]`, unless it exceeds the
/// machine's integer range.
fn scan_int(text: &str, i: usize, j: usize) -> (r: Option<usize>)
    requires
        i <= j <= text@.len(),
        forall|k: int| i <= k < j ==> is_digit_char(#[trigger] text@[k]),
    ensures
        (match r {
            Option::Some(v) => sp_digits_val(text@.subrange(i as int, j as int)) == v as nat,
            Option::None => sp_digits_val(text@.subrange(i as int, j as int)) > usize::MAX as nat,
        }),
{
    let ghost digits = text@.subrange(i as int, j as int);
    let mut acc: usize = 0;
    let mut pos: usize = i;
    proof {
        assert(digits.take(0) =~= Seq::<char>::empty());
    }
    while pos < j
        invariant
            i <= pos <= j <= text@.len(),
            digits == text@.subrange(i as int, j as int),
            digits.len() == j - i,
            forall|k: int| i <= k < j ==> is_digit_char(#[trigger] text@[k]),
            acc as nat == sp_digits_val(digits.take(pos - i)),
        decreases j - pos,
    {
        let c: char = text.get_char(pos);
        let cu: u32 = c as u32;
        proof {
            assert(text@[pos as int] == digits[pos - i]);
            assert(is_digit_char(digits[pos - i]));
        }
        let d: usize = (cu - '0' as u32) as usize;
        proof {
            assert(digits.take(pos - i + 1).drop_last() =~= digits.take(pos - i));
            assert(digits.take(pos - i + 1).last() == digits[pos - i]);
        }
        let stepped: Option<usize> = match acc.checked_mul(10) {
            Option::Some(x) => x.checked_add(d),
            Option::None => Option::None,
        };
        match stepped {
            Option::Some(v) => {
                acc = v;
            },
            Option::None => {
                proof {
                    assert(sp_digits_val(digits.take(pos - i + 1)) > usize::MAX as nat);
                    lemma_digits_prefix(digits, pos - i + 1);
                }
                return Option::None;
            },
        }
        pos = pos + 1;
    }
    proof {
        assert(digits.take(j - i) =~= digits);
    }
    Option::Some(acc)
}

/// One token read at `i`, which must be in bounds and not whitespace.
fn next_token(text: &str, i: usize) -> (r: Result<(Tok, usize), LexError>)
    requires
        i < text@.len(),
    ensures
        (match r {
            Result::Ok(p) => sp_next(text@, i as int) == Option::Some((p.0@, p.1 as int)) && i
                < p.1 <= text@.len(),
            Result::Err(e) => sp_next(text@, i as int) is None && e.at as int == (
            if text@[i as int] == '"' && sp_find_quote(text@, i as int + 1) is None {
                text@.len() as int
            } else {
                i as int
            }),
        }),
{
    proof {
        lemma_sp_next_progress(text@, i as int);
    }
    let n: usize = text.unicode_len();
    let c: char = text.get_char(i);
    let cu: u32 = c as u32;
    let ident_start: bool = (cu >= 'a' as u32 && cu <= 'z' as u32) || (cu >= 'A' as u32 && cu
        <= 'Z' as u32) || c == '_';
    if ident_start {
        let j: usize = scan_ident_end(text, i + 1);
        let word: String = text.substring_char(i, j).to_owned();
        proof {
            assert(word@ == text@.subrange(i as int, j as int));
        }
        return Result::Ok((classify(word), j));
    }
    if cu >= '0' as u32 && cu <= '9' as u32 {
        let j: usize = scan_digit_end(text, i + 1);
        proof {
            lemma_digit_end_chars(text@, i + 1);
        }
        match scan_int(text, i, j) {
            Option::Some(v) => {
                return Result::Ok((Tok::IntLit(v), j));
            },
            Option::None => {
                return Result::Err(LexError { at: i });
            },
        }
    }
    if c == '"' {
        match find_quote(text, i + 1) {
            Option::Some(q) => {
                let lit: String = text.substring_char(i + 1, q).to_owned();
                return Result::Ok((Tok::StrLit(lit), q + 1));
            },
            Option::None => {
                return Result::Err(LexError { at: n });
            },
        }
    }
    if c == '-' {
        if i + 1 < n && text.get_char(i + 1) == '>' {
            return Result::Ok((Tok::Arrow, i + 2));
        }
        return Result::Err(LexError { at: i });
    }
    if c == '=' {
        return Result::Ok((Tok::Eq, i + 1));
    }
    if c == ',' {
        return Result::Ok((Tok::Comma, i + 1));
    }
    if c == ':' {
        return Result::Ok((Tok::Colon, i + 1));
    }
    if c == ';' {
        return Result::Ok((Tok::Semi, i + 1));
    }
    if c == '(' {
        return Result::Ok((Tok::LParen, i + 1));
    }
    if c == ')' {
        return Result::Ok((Tok::RParen, i + 1));
    }
    if c == '[' {
        return Result::Ok((Tok::LBracket, i + 1));
    }
    if c == ']' {
        return Result::Ok((Tok::RBracket, i + 1));
    }
    if c == '{' {
        return Result::Ok((Tok::LBrace, i + 1));
    }
    if c == '}' {
        return Result::Ok((Tok::RBrace, i + 1));
    }
    Result::Err(LexError { at: i })
}

/// Splits schema text into tokens.  Fails with the position of the
/// first character that starts no token (the text length, for an
/// unterminated string literal).
pub fn tokenize(text: &str) -> (r: Result<Vec<Tok>, LexError>)
    ensures
        (match r {
            Result::Ok(toks) => sp_tokenize(text@) == Option::Some(tokens_view(toks@)),
            Result::Err(e) => sp_tokenize(text@) is None && e.at as int == sp_lex_failure_at(
                text@,
                0,
            ),
        }),
{
    let ghost t = text@;
    let n: usize = text.unicode_len();
    let mut toks: Vec<Tok> = Vec::new();
    let mut pos: usize = 0;
    proof {
        assert(tokens_view(toks@) =~= Seq::<TokV>::empty());
    }
    loop
        invariant
            pos <= n,
            n == t.len(),
            t == text@,
            (match sp_tokenize_from(t, pos as int) {
                Option::Some(rest) => sp_tokenize(t) == Option::Some(tokens_view(toks@) + rest),
                Option::None => sp_tokenize(t) is None && sp_lex_failure_at(t, 0)
                    == sp_lex_failure_at(t, pos as int),
            }),
        decreases n - pos,
    {
        let w: usize = skip_ws_exec(text, pos);
        if w == n {
            proof {
                assert(tokens_view(toks@) + Seq::<TokV>::empty() =~= tokens_view(toks@));
            }
            return Result::Ok(toks);
        }
        match next_token(text, w) {
            Result::Ok((tok, j)) => {
                let ghost prev = tokens_view(toks@);
                let ghost tv = tok@;
                toks.push(tok);
                proof {
                    assert(tokens_view(toks@) =~= prev.push(tv));
                    if let Option::Some(rest2) = sp_tokenize_from(t, j as int) {
                        assert((prev + seq![tv]) + rest2 =~= prev + (seq![tv] + rest2));
                    }
                    assert(prev.push(tv) =~= prev + seq![tv]);
                    if sp_tokenize_from(t, j as int) is None {
                        assert(sp_lex_failure_at(t, pos as int) == sp_lex_failure_at(t, j as int));
                    }
                }
                pos = j;
            },
            Result::Err(e) => {
                return Result::Err(e);
            },
        }
    }
}

} // verus!
