//! The lexer: converts a raw query string into an ordered sequence of
//! tokens. Scanning is specified by `scan_step`, which gives the token and
//! the new position for every character position; `spec_tokens` is the full
//! token sequence of a query with whitespace tokens stripped.
//!
//! Scanning rules, in priority order at each position: single-character
//! structural tokens; one-or-two-character comparison operators; a space;
//! numeric literals (an optional leading minus, digits, and at most one
//! embedded decimal point); string literals in double quotes (an
//! unterminated string becomes an `UnknownToken`); otherwise an
//! identifier/keyword scan up to the next stop character.

use vstd::prelude::*;
use vstd::string::*;

use crate::tokens::{keyword_kind_opt, lookup_keyword, token_views, Token, TokenModel, TokenType};

verus! {

/// The three interchangeable end-of-query marker characters.
pub open spec fn is_eoq_char(c: char) -> bool {
    c == ';' || c == '!' || c == '.'
}

/// Characters that always form a one-character structural token.
pub open spec fn is_single_char(c: char) -> bool {
    is_eoq_char(c) || c == '(' || c == ')' || c == ','
}

/// The kind of a one-character structural token.
pub open spec fn single_kind(c: char) -> TokenType {
    if is_eoq_char(c) {
        TokenType::EoqToken
    } else if c == ')' {
        TokenType::CloseParen
    } else if c == '(' {
        TokenType::OpenParen
    } else {
        TokenType::Comma
    }
}

/// Characters that start a one-or-two-character comparison operator.
pub open spec fn is_op_char(c: char) -> bool {
    c == '<' || c == '>' || c == '='
}

/// Decimal digits.
pub open spec fn is_digit(c: char) -> bool {
    '0' <= c && c <= '9'
}

/// Characters that end an identifier/keyword scan.
pub open spec fn is_stop_char(c: char) -> bool {
    is_single_char(c) || is_op_char(c) || c == '"' || c == ' '
}

/// The first position at or after `pos` that does not hold a digit.
pub open spec fn digits_end(q: Seq<char>, pos: int) -> int
    decreases q.len() - pos,
{
    if 0 <= pos < q.len() && is_digit(q[pos]) {
        digits_end(q, pos + 1)
    } else {
        pos
    }
}

/// Where a numeric literal starting at `pos` ends: an optional minus sign,
/// a run of digits, and, if a decimal point directly followed by a digit
/// comes next, the point and a further run of digits. A point with no digit
/// after it never extends the literal (so a closing `.` delimiter stays a
/// delimiter), and neither does a second point.
pub open spec fn number_end(q: Seq<char>, pos: int) -> int {
    let p1: int = if 0 <= pos < q.len() && q[pos] == '-' {
        pos + 1
    } else {
        pos
    };
    let p2: int = digits_end(q, p1);
    if 0 <= p2 && p2 + 1 < q.len() && q[p2] == '.' && is_digit(q[p2 + 1]) {
        digits_end(q, p2 + 1)
    } else {
        p2
    }
}

/// The first position at or after `pos` that holds a stop character.
pub open spec fn ident_end(q: Seq<char>, pos: int) -> int
    decreases q.len() - pos,
{
    if 0 <= pos < q.len() && !is_stop_char(q[pos]) {
        ident_end(q, pos + 1)
    } else {
        pos
    }
}

/// The first position at or after `pos` that holds a double quote.
pub open spec fn quote_pos(q: Seq<char>, pos: int) -> Option<int>
    decreases q.len() - pos,
{
    if 0 <= pos < q.len() {
        if q[pos] == '"' {
            Some(pos)
        } else {
            quote_pos(q, pos + 1)
        }
    } else {
        None
    }
}

pub proof fn lemma_digits_end(q: Seq<char>, pos: int)
    requires
        0 <= pos <= q.len(),
    ensures
        pos <= digits_end(q, pos) <= q.len(),
    decreases q.len() - pos,
{
    if pos < q.len() && is_digit(q[pos]) {
        lemma_digits_end(q, pos + 1);
    }
}

pub proof fn lemma_ident_end(q: Seq<char>, pos: int)
    requires
        0 <= pos <= q.len(),
    ensures
        pos <= ident_end(q, pos) <= q.len(),
    decreases q.len() - pos,
{
    if pos < q.len() && !is_stop_char(q[pos]) {
        lemma_ident_end(q, pos + 1);
    }
}

pub proof fn lemma_quote_pos(q: Seq<char>, pos: int)
    requires
        0 <= pos,
    ensures
        quote_pos(q, pos) matches Some(j) ==> pos <= j < q.len() && q[j] == '"',
    decreases q.len() - pos,
{
    if 0 <= pos < q.len() && q[pos] != '"' {
        lemma_quote_pos(q, pos + 1);
    }
}

/// One scanning step: the token read at `pos` and the position after it.
pub struct ScanStep {
    pub token: TokenModel,
    pub end: int,
}

/// What the lexer reads at character position `pos` of `q`.
pub open spec fn scan_step(q: Seq<char>, pos: int) -> ScanStep
    recommends
        0 <= pos < q.len(),
{
    let c = q[pos];
    if is_single_char(c) {
        ScanStep {
            token: TokenModel {
                kind: single_kind(c),
                literal: Seq::empty(),
                lexeme: seq![c],
            },
            end: pos + 1,
        }
    } else if is_op_char(c) {
        if c == '=' {
            ScanStep {
                token: TokenModel { kind: TokenType::Equal, literal: Seq::empty(), lexeme: seq![c] },
                end: pos + 1,
            }
        } else {
            let two = pos + 1 < q.len() && q[pos + 1] == '=';
            let end: int = if two {
                pos + 2
            } else {
                pos + 1
            };
            let k = if c == '>' {
                if two {
                    TokenType::Gte
                } else {
                    TokenType::Gt
                }
            } else {
                if two {
                    TokenType::Lte
                } else {
                    TokenType::Lt
                }
            };
            ScanStep {
                token: TokenModel { kind: k, literal: Seq::empty(), lexeme: q.subrange(pos, end) },
                end,
            }
        }
    } else if c == ' ' {
        ScanStep {
            token: TokenModel {
                kind: TokenType::WhitespaceToken,
                literal: seq![' '],
                lexeme: seq![' '],
            },
            end: pos + 1,
        }
    } else if is_digit(c) || (c == '-' && pos + 1 < q.len() && is_digit(q[pos + 1])) {
        let end: int = number_end(q, pos);
        ScanStep {
            token: TokenModel {
                kind: TokenType::NumberLiteral,
                literal: q.subrange(pos, end),
                lexeme: q.subrange(pos, end),
            },
            end,
        }
    } else if c == '"' {
        match quote_pos(q, pos + 1) {
            Some(j) => ScanStep {
                token: TokenModel {
                    kind: TokenType::StringLiteral,
                    literal: q.subrange(pos + 1, j),
                    lexeme: q.subrange(pos, j + 1),
                },
                end: j + 1,
            },
            None => ScanStep {
                token: TokenModel {
                    kind: TokenType::UnknownToken,
                    literal: Seq::empty(),
                    lexeme: q.subrange(pos, q.len() as int),
                },
                end: q.len() as int,
            },
        }
    } else {
        let end: int = ident_end(q, pos);
        let w = q.subrange(pos, end);
        match keyword_kind_opt(w) {
            Some(k) => ScanStep {
                token: TokenModel { kind: k, literal: Seq::empty(), lexeme: w },
                end,
            },
            None => ScanStep {
                token: TokenModel { kind: TokenType::Identifier, literal: w, lexeme: w },
                end,
            },
        }
    }
}

/// Every scanning step consumes at least one character and stays inside the
/// input.
pub proof fn lemma_scan_step_progress(q: Seq<char>, pos: int)
    requires
        0 <= pos < q.len(),
    ensures
        pos < scan_step(q, pos).end <= q.len(),
{
    let c = q[pos];
    if is_single_char(c) || is_op_char(c) || c == ' ' {
    } else if is_digit(c) || (c == '-' && pos + 1 < q.len() && is_digit(q[pos + 1])) {
        let p1: int = if q[pos] == '-' {
            pos + 1
        } else {
            pos
        };
        assert(p1 < q.len() && is_digit(q[p1]));
        lemma_digits_end(q, p1 + 1);
        assert(digits_end(q, p1) == digits_end(q, p1 + 1));
        let p2: int = digits_end(q, p1);
        if 0 <= p2 < q.len() && q[p2] == '.' {
            lemma_digits_end(q, p2 + 1);
        }
    } else if c == '"' {
        lemma_quote_pos(q, pos + 1);
    } else {
        assert(!is_stop_char(c));
        lemma_ident_end(q, pos + 1);
        assert(ident_end(q, pos) == ident_end(q, pos + 1));
    }
}

/// The raw token sequence of `q` from position `pos` on, whitespace
/// included.
pub open spec fn tokenize_raw(q: Seq<char>, pos: int) -> Seq<TokenModel>
    decreases q.len() - pos,
        when 0 <= pos <= q.len()
        via tokenize_raw_decreases
{
    if pos >= q.len() {
        Seq::empty()
    } else {
        seq![scan_step(q, pos).token] + tokenize_raw(q, scan_step(q, pos).end)
    }
}

#[via_fn]
proof fn tokenize_raw_decreases(q: Seq<char>, pos: int) {
    if pos < q.len() {
        lemma_scan_step_progress(q, pos);
    }
}

/// A token sequence with all whitespace tokens removed, order kept.
pub open spec fn drop_ws(s: Seq<TokenModel>) -> Seq<TokenModel>
    decreases s.len(),
{
    if s.len() == 0 {
        Seq::empty()
    } else if s.last().kind == TokenType::WhitespaceToken {
        drop_ws(s.drop_last())
    } else {
        drop_ws(s.drop_last()).push(s.last())
    }
}

/// The token sequence the lexer hands to the parser: the raw scan of the
/// whole input with whitespace stripped.
pub open spec fn spec_tokens(q: Seq<char>) -> Seq<TokenModel> {
    drop_ws(tokenize_raw(q, 0))
}

/// The lexer's result: the ordered token sequence of one query string.
#[derive(Debug)]
pub struct Lexer {
    pub tokens: Vec<Token>,
}

fn char_is_digit(c: char) -> (b: bool)
    ensures
        b == is_digit(c),
{
    '0' <= c && c <= '9'
}

fn char_is_single(c: char) -> (b: bool)
    ensures
        b == is_single_char(c),
{
    c == ';' || c == '!' || c == '.' || c == '(' || c == ')' || c == ','
}

fn char_is_op(c: char) -> (b: bool)
    ensures
        b == is_op_char(c),
{
    c == '<' || c == '>' || c == '='
}

fn char_is_stop(c: char) -> (b: bool)
    ensures
        b == is_stop_char(c),
{
    char_is_single(c) || char_is_op(c) || c == '"' || c == ' '
}

/// Scans the digit run beginning at `start`.
fn scan_digits(query: &str, start: usize) -> (end: usize)
    requires
        start <= query@.len(),
    ensures
        end as int == digits_end(query@, start as int),
        start <= end <= query@.len(),
{
    let n = query.unicode_len();
    let mut i: usize = start;
    while i < n && char_is_digit(query.get_char(i))
        invariant
            n == query@.len(),
            start <= i <= n,
            digits_end(query@, start as int) == digits_end(query@, i as int),
        decreases n - i,
    {
        i += 1;
    }
    i
}

/// Where the numeric literal beginning at `start` ends.
fn scan_number(query: &str, start: usize) -> (end: usize)
    requires
        start < query@.len(),
    ensures
        end as int == number_end(query@, start as int),
        start <= end <= query@.len(),
{
    let n = query.unicode_len();
    let mut i: usize = start;
    if query.get_char(i) == '-' {
        i += 1;
    }
    let d1 = scan_digits(query, i);
    proof {
        lemma_digits_end(query@, i as int);
    }
    if d1 < n && n - d1 > 1 && query.get_char(d1) == '.' && char_is_digit(query.get_char(d1 + 1)) {
        let d2 = scan_digits(query, d1 + 1);
        d2
    } else {
        d1
    }
}

/// Looks for the closing double quote strictly after `start`.
fn scan_string(query: &str, start: usize) -> (r: Option<usize>)
    requires
        start < query@.len(),
    ensures
        r matches Some(j) ==> quote_pos(query@, start as int + 1) == Some(j as int),
        r is None ==> quote_pos(query@, start as int + 1) is None,
{
    let n = query.unicode_len();
    let mut i: usize = start + 1;
    while i < n
        invariant
            n == query@.len(),
            start + 1 <= i <= n,
            quote_pos(query@, start as int + 1) == quote_pos(query@, i as int),
        decreases n - i,
    {
        if query.get_char(i) == '"' {
            return Some(i);
        }
        i += 1;
    }
    None
}

/// Scans an identifier or keyword up to the next stop character.
fn scan_identifier(query: &str, start: usize) -> (end: usize)
    requires
        start <= query@.len(),
    ensures
        end as int == ident_end(query@, start as int),
        start <= end <= query@.len(),
{
    let n = query.unicode_len();
    let mut i: usize = start;
    while i < n && !char_is_stop(query.get_char(i))
        invariant
            n == query@.len(),
            start <= i <= n,
            ident_end(query@, start as int) == ident_end(query@, i as int),
        decreases n - i,
    {
        i += 1;
    }
    i
}

fn single_token_kind(c: char) -> (k: TokenType)
    ensures
        k == single_kind(c),
{
    if c == ';' || c == '!' || c == '.' {
        TokenType::EoqToken
    } else if c == ')' {
        TokenType::CloseParen
    } else if c == '(' {
        TokenType::OpenParen
    } else {
        TokenType::Comma
    }
}

/// Reads the token at `*current` and advances `*current` past it.
fn next_token(query: &str, current: &mut usize) -> (t: Token)
    requires
        *old(current) < query@.len(),
    ensures
        t@ == scan_step(query@, *old(current) as int).token,
        *final(current) as int == scan_step(query@, *old(current) as int).end,
{
    let n = query.unicode_len();
    let pos = *current;
    let c = query.get_char(pos);
    if char_is_single(c) {
        let lex = query.substring_char(pos, pos + 1).to_owned();
        proof {
            assert(query@.subrange(pos as int, pos as int + 1) =~= seq![c]);
        }
        *current = pos + 1;
        Token::new(single_token_kind(c), &String::new(), &lex)
    } else if char_is_op(c) {
        if c == '=' {
            let lex = query.substring_char(pos, pos + 1).to_owned();
            proof {
                assert(query@.subrange(pos as int, pos as int + 1) =~= seq![c]);
            }
            *current = pos + 1;
            Token::new(TokenType::Equal, &String::new(), &lex)
        } else {
            let two = pos + 1 < n && query.get_char(pos + 1) == '=';
            let end = if two {
                pos + 2
            } else {
                pos + 1
            };
            let k = if c == '>' {
                if two {
                    TokenType::Gte
                } else {
                    TokenType::Gt
                }
            } else {
                if two {
                    TokenType::Lte
                } else {
                    TokenType::Lt
                }
            };
            let lex = query.substring_char(pos, end).to_owned();
            *current = end;
            Token::new(k, &String::new(), &lex)
        }
    } else if c == ' ' {
        let lex = query.substring_char(pos, pos + 1).to_owned();
        proof {
            assert(query@.subrange(pos as int, pos as int + 1) =~= seq![' ']);
        }
        *current = pos + 1;
        Token::new(TokenType::WhitespaceToken, &lex, &lex)
    } else if char_is_digit(c) || (c == '-' && pos + 1 < n && char_is_digit(
        query.get_char(pos + 1),
    )) {
        let end = scan_number(query, pos);
        proof {
            lemma_scan_step_progress(query@, pos as int);
        }
        let lex = query.substring_char(pos, end).to_owned();
        *current = end;
        Token::new(TokenType::NumberLiteral, &lex, &lex)
    } else if c == '"' {
        match scan_string(query, pos) {
            Some(j) => {
                proof {
                    lemma_quote_pos(query@, pos as int + 1);
                }
                let lit = query.substring_char(pos + 1, j).to_owned();
                let lex = query.substring_char(pos, j + 1).to_owned();
                *current = j + 1;
                Token::new(TokenType::StringLiteral, &lit, &lex)
            },
            None => {
                let lex = query.substring_char(pos, n).to_owned();
                *current = n;
                Token::new(TokenType::UnknownToken, &String::new(), &lex)
            },
        }
    } else {
        let end = scan_identifier(query, pos);
        let w = query.substring_char(pos, end);
        let lex = w.to_owned();
        *current = end;
        match lookup_keyword(w) {
            Some(k) => Token::new(k, &String::new(), &lex),
            None => Token::new(TokenType::Identifier, &lex, &lex),
        }
    }
}

impl Lexer {
    /// Scans the whole input into tokens. Scanning never fails: an
    /// unterminated string literal becomes an `UnknownToken` for the parser
    /// to report, so the result is always `Ok`, and its token sequence is
    /// exactly `spec_tokens` of the input.
    pub fn new(query: &String) -> (r: Result<Lexer, String>)
        ensures
            r is Ok,
            r matches Ok(lexer) ==> token_views(lexer.tokens@) == spec_tokens(query@),
    {
        let qs: &str = query.as_str();
        let n = qs.unicode_len();
        let mut out: Vec<Token> = Vec::new();
        let mut current: usize = 0;
        let ghost mut raw: Seq<TokenModel> = Seq::empty();
        proof {
            assert(raw + tokenize_raw(query@, 0) =~= tokenize_raw(query@, 0));
        }
        while current < n
            invariant
                n == query@.len(),
                qs@ == query@,
                current <= n,
                tokenize_raw(query@, 0) == raw + tokenize_raw(query@, current as int),
                token_views(out@) == drop_ws(raw),
            decreases n - current,
        {
            proof {
                lemma_scan_step_progress(query@, current as int);
            }
            let ghost old_raw = raw;
            let ghost old_out = out@;
            let t = next_token(qs, &mut current);
            proof {
                raw = raw.push(t@);
            }
            if t.token_type != TokenType::WhitespaceToken {
                out.push(t);
            }
            proof {
                assert(old_raw.push(t@).drop_last() =~= old_raw);
                if t@.kind != TokenType::WhitespaceToken {
                    assert(token_views(old_out.push(t)) =~= token_views(old_out).push(t@));
                }
                assert(raw + tokenize_raw(query@, current as int) =~= old_raw + (seq![t@]
                    + tokenize_raw(query@, current as int)));
            }
        }
        proof {
            assert(tokenize_raw(query@, n as int) =~= Seq::<TokenModel>::empty());
            assert(raw + Seq::<TokenModel>::empty() =~= raw);
        }
        Ok(Lexer { tokens: out })
    }
}

/// Scans a query string into tokens; see `Lexer::new`.
pub fn scan_tokens(query: &String) -> (r: Result<Lexer, String>)
    ensures
        r is Ok,
        r matches Ok(lexer) ==> token_views(lexer.tokens@) == spec_tokens(query@),
{
    Lexer::new(query)
}

} // verus!
