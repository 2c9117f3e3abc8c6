//! The post-processor parser: the optional trailing clause chain entered by
//! a `then`-like keyword after the filter. It repeatedly consumes clause
//! keywords until the end-of-query token: an `and` token is a pure
//! separator, a `limit` clause requires a number literal whose text is a
//! 32-bit integer (a fractional limit is a parse error), and any other
//! token is an error. Additional clause kinds would become new match arms.

use vstd::prelude::*;
use vstd::string::*;

use crate::colors::{colorize, sp_colorize, AnsiColor};
use crate::lexer::is_digit;
use crate::parser::helpers::{
    join_lex, join_lexemes, sp_valid_len_msg, valid_len_error,
};
use crate::tokens::{token_views, Token, TokenModel, TokenType};

verus! {

/// A parsed `limit` clause: the row count and the source slice.
#[derive(Debug, PartialEq)]
pub struct LimitNode {
    pub limit: i32,
    pub literal: String,
}

/// The parsed post-processor chain; currently only a `limit` clause. A
/// later `limit` clause replaces an earlier one.
#[derive(Debug, PartialEq)]
pub struct PostProcessorNode {
    pub limit: Option<LimitNode>,
}

/// The model of a `limit` clause.
pub struct LimitV {
    pub limit: i32,
    pub literal: Seq<char>,
}

/// The model of a post-processor chain.
pub struct PostV {
    pub limit: Option<LimitV>,
}

impl View for LimitNode {
    type V = LimitV;

    open spec fn view(&self) -> LimitV {
        LimitV { limit: self.limit, literal: self.literal@ }
    }
}

impl View for PostProcessorNode {
    type V = PostV;

    open spec fn view(&self) -> PostV {
        PostV {
            limit: match self.limit {
                Some(l) => Some(l@),
                None => None,
            },
        }
    }
}

/// The view of an optional post-processor.
pub open spec fn opt_post_view(o: Option<PostProcessorNode>) -> Option<PostV> {
    match o {
        Some(p) => Some(p@),
        None => None,
    }
}

/// The diagnostic for an unexpected token inside the clause chain.
pub open spec fn msg_pp_unexpected() -> Seq<char> {
    "Unexpected token, expected post-processor entrance keyword or list continuation!"@
}

/// The diagnostic for a `limit` clause without a number literal.
pub open spec fn msg_limit_number() -> Seq<char> {
    "Limit post-processor expects a number literal!"@
}

/// The diagnostic for a `limit` count that is not a 32-bit integer.
pub open spec fn msg_limit_integer() -> Seq<char> {
    "Limit post-processor expects 32-bit integer!"@
}

/// Whether every character of `s` is a decimal digit.
pub open spec fn all_digits(s: Seq<char>) -> bool {
    forall|i: int| 0 <= i < s.len() ==> is_digit(s[i])
}

/// The value of a digit string.
pub open spec fn digits_val(s: Seq<char>) -> int
    decreases s.len(),
{
    if s.len() == 0 {
        0
    } else {
        digits_val(s.drop_last()) * 10 + (s.last() as int - '0' as int)
    }
}

/// How a number literal's text reads as a 32-bit integer: an optional
/// leading minus sign followed by decimal digits only, with the value in
/// range; anything else (in particular a decimal point) does not parse.
pub open spec fn sp_parse_i32(s: Seq<char>) -> Option<i32> {
    let neg = s.len() > 0 && s[0] == '-';
    let ds = if neg {
        s.drop_first()
    } else {
        s
    };
    if ds.len() == 0 || !all_digits(ds) {
        None
    } else {
        let v = if neg {
            -digits_val(ds)
        } else {
            digits_val(ds)
        };
        if i32::MIN <= v <= i32::MAX {
            Some(v as i32)
        } else {
            None
        }
    }
}

proof fn lemma_digits_val_nonneg(s: Seq<char>)
    requires
        all_digits(s),
    ensures
        digits_val(s) >= 0,
    decreases s.len(),
{
    if s.len() > 0 {
        assert(all_digits(s.drop_last())) by {
            assert(forall|i: int| 0 <= i < s.len() - 1 ==> s.drop_last()[i] == s[i]);
        }
        lemma_digits_val_nonneg(s.drop_last());
    }
}

/// Reads a number literal's text as a 32-bit integer.
fn parse_i32_text(s: &str) -> (r: Option<i32>)
    ensures
        r == sp_parse_i32(s@),
{
    let n = s.unicode_len();
    let neg = n > 0 && s.get_char(0) == '-';
    let start: usize = if neg {
        1
    } else {
        0
    };
    let ghost ds = if neg {
        s@.drop_first()
    } else {
        s@
    };
    proof {
        assert(ds =~= s@.subrange(start as int, n as int));
    }
    if start >= n {
        proof {
            assert(ds.len() == 0);
        }
        return None;
    }
    let mut acc: u64 = 0;
    let mut big = false;
    let mut i: usize = start;
    proof {
        assert(s@.subrange(start as int, start as int) =~= Seq::<char>::empty());
    }
    while i < n
        invariant
            n == s@.len(),
            start <= i <= n,
            neg == (s@.len() > 0 && s@[0] == '-'),
            start == (if neg {
                1int
            } else {
                0int
            }),
            ds == s@.subrange(start as int, n as int),
            forall|j: int| start <= j < i ==> is_digit(s@[j]),
            !big ==> acc as int == digits_val(s@.subrange(start as int, i as int)) && acc
                <= 0x8000_0000,
            big ==> digits_val(s@.subrange(start as int, i as int)) > 0x8000_0000,
        decreases n - i,
    {
        let c = s.get_char(i);
        if !('0' <= c && c <= '9') {
            proof {
                assert(ds[i as int - start as int] == s@[i as int]);
                assert(!all_digits(ds));
            }
            return None;
        }
        let d: u64 = (c as u32 - '0' as u32) as u64;
        let ghost pre = s@.subrange(start as int, i as int);
        let ghost cur = s@.subrange(start as int, i as int + 1);
        proof {
            assert(cur.drop_last() =~= pre);
            assert(cur.last() == s@[i as int]);
            assert(all_digits(pre));
            lemma_digits_val_nonneg(pre);
        }
        if big {
            proof {
                assert(digits_val(cur) == digits_val(pre) * 10 + (s@[i as int] as int
                    - '0' as int));
                assert(digits_val(pre) * 10 > digits_val(pre)) by {
                    assert(digits_val(pre) > 0x8000_0000);
                }
            }
        } else {
            acc = acc * 10 + d;
            if acc > 0x8000_0000 {
                big = true;
            }
        }
        i += 1;
    }
    proof {
        assert(s@.subrange(start as int, n as int) == ds);
        assert(all_digits(ds));
        assert(ds.len() > 0);
        lemma_digits_val_nonneg(ds);
    }
    if neg {
        if big {
            return None;
        }
        if acc == 0x8000_0000 {
            Some(i32::MIN)
        } else {
            Some(-(acc as i32))
        }
    } else {
        if big || acc > 0x7FFF_FFFF {
            return None;
        }
        Some(acc as i32)
    }
}

/// The decimal digit characters.
pub open spec fn sp_digit_char(d: int) -> char {
    if d == 0 {
        '0'
    } else if d == 1 {
        '1'
    } else if d == 2 {
        '2'
    } else if d == 3 {
        '3'
    } else if d == 4 {
        '4'
    } else if d == 5 {
        '5'
    } else if d == 6 {
        '6'
    } else if d == 7 {
        '7'
    } else if d == 8 {
        '8'
    } else {
        '9'
    }
}

/// The decimal rendering of a nonnegative integer.
pub open spec fn sp_nat_str(n: int) -> Seq<char>
    decreases n,
{
    if n < 10 {
        seq![sp_digit_char(n)]
    } else {
        sp_nat_str(n / 10).push(sp_digit_char(n % 10))
    }
}

/// The decimal rendering of an integer.
pub open spec fn sp_i32_str(v: int) -> Seq<char> {
    if v < 0 {
        seq!['-'] + sp_nat_str(-v)
    } else {
        sp_nat_str(v)
    }
}

fn digit_str(d: u64) -> (r: &'static str)
    requires
        d < 10,
    ensures
        r@ == seq![sp_digit_char(d as int)],
{
    if d == 0 {
        proof {
            reveal_strlit("0");
            assert("0"@ =~= seq!['0']);
        }
        "0"
    } else if d == 1 {
        proof {
            reveal_strlit("1");
            assert("1"@ =~= seq!['1']);
        }
        "1"
    } else if d == 2 {
        proof {
            reveal_strlit("2");
            assert("2"@ =~= seq!['2']);
        }
        "2"
    } else if d == 3 {
        proof {
            reveal_strlit("3");
            assert("3"@ =~= seq!['3']);
        }
        "3"
    } else if d == 4 {
        proof {
            reveal_strlit("4");
            assert("4"@ =~= seq!['4']);
        }
        "4"
    } else if d == 5 {
        proof {
            reveal_strlit("5");
            assert("5"@ =~= seq!['5']);
        }
        "5"
    } else if d == 6 {
        proof {
            reveal_strlit("6");
            assert("6"@ =~= seq!['6']);
        }
        "6"
    } else if d == 7 {
        proof {
            reveal_strlit("7");
            assert("7"@ =~= seq!['7']);
        }
        "7"
    } else if d == 8 {
        proof {
            reveal_strlit("8");
            assert("8"@ =~= seq!['8']);
        }
        "8"
    } else {
        proof {
            reveal_strlit("9");
            assert("9"@ =~= seq!['9']);
        }
        "9"
    }
}

/// Renders a nonnegative integer in decimal.
fn nat_to_string(n: u64) -> (r: String)
    ensures
        r@ == sp_nat_str(n as int),
    decreases n,
{
    if n < 10 {
        digit_str(n).to_owned()
    } else {
        proof {
            assert(n / 10 < n) by (nonlinear_arith)
                requires
                    n >= 10,
            ;
        }
        let mut s = nat_to_string(n / 10);
        s.append(digit_str(n % 10));
        proof {
            assert(sp_nat_str(n as int / 10).push(sp_digit_char(n as int % 10)) =~= sp_nat_str(
                n as int / 10,
            ) + seq![sp_digit_char(n as int % 10)]);
        }
        s
    }
}

/// The SQL text of a `limit` clause.
pub open spec fn sp_sql_limit(l: LimitV) -> Seq<char> {
    "LIMIT "@ + sp_i32_str(l.limit as int)
}

/// The SQL text of a post-processor chain.
pub open spec fn sp_sql_post(p: PostV) -> Seq<char> {
    match p.limit {
        Some(l) => sp_sql_limit(l),
        None => Seq::empty(),
    }
}

/// The echo text of a post-processor chain: the source slice of its
/// clauses.
pub open spec fn sp_echo_post(p: PostV) -> Seq<char> {
    match p.limit {
        Some(l) => l.literal,
        None => Seq::empty(),
    }
}

/// Parses the count of a `limit` clause at `pos` (the clause keyword stands
/// at `pos - 1`; the captured slice covers both).
pub open spec fn sp_limit(t: Seq<TokenModel>, pos: int) -> Result<(LimitV, int), Seq<char>> {
    if pos >= t.len() {
        Err(sp_valid_len_msg(t.subrange(0, pos)))
    } else if t[pos].kind != TokenType::NumberLiteral {
        Err(msg_limit_number())
    } else {
        match sp_parse_i32(t[pos].literal) {
            None => Err(msg_limit_integer()),
            Some(v) => Ok(
                (LimitV { limit: v, literal: join_lex(t.subrange(pos - 1, pos + 1)) }, pos + 1),
            ),
        }
    }
}

/// Parses the clause chain after the entrance keyword: `and` separates,
/// `limit` clauses update the limit (the last one wins), the end-of-query
/// token ends the chain without being consumed.
pub open spec fn sp_pp_items(t: Seq<TokenModel>, pos: int, cur: Option<LimitV>) -> Result<
    (PostV, int),
    Seq<char>,
>
    decreases t.len() - pos,
{
    if pos >= t.len() {
        Err(sp_valid_len_msg(t.subrange(0, pos)))
    } else if t[pos].kind == TokenType::EoqToken {
        Ok((PostV { limit: cur }, pos))
    } else if t[pos].kind == TokenType::And {
        sp_pp_items(t, pos + 1, cur)
    } else if t[pos].kind == TokenType::LimitKeyword {
        match sp_limit(t, pos + 1) {
            Err(e) => Err(e),
            Ok((lv, p2)) => if pos < p2 <= t.len() {
                sp_pp_items(t, p2, Some(lv))
            } else {
                Err(msg_pp_unexpected())
            },
        }
    } else {
        Err(msg_pp_unexpected())
    }
}

/// Parses an optional post-processor at `pos`: present exactly when the
/// token there is a post-processor entrance keyword.
pub open spec fn sp_postprocessor(t: Seq<TokenModel>, pos: int) -> Result<
    (Option<PostV>, int),
    Seq<char>,
> {
    if pos >= t.len() {
        Err(sp_valid_len_msg(t.subrange(0, pos)))
    } else if t[pos].kind != TokenType::PostProcessorEntrance {
        Ok((None, pos))
    } else {
        match sp_pp_items(t, pos + 1, None) {
            Err(e) => Err(e),
            Ok((pv, end)) => Ok((Some(pv), end)),
        }
    }
}

impl LimitNode {
    /// Parses the count of a `limit` clause at `*idx`; the clause keyword
    /// already consumed stands at `*idx - 1`.
    pub fn parse(tokens: &Vec<Token>, idx: &mut usize) -> (r: Result<LimitNode, String>)
        requires
            1 <= *old(idx) <= tokens@.len(),
        ensures
            ({
                let sp = sp_limit(token_views(tokens@), *old(idx) as int);
                &&& (sp matches Ok(p) ==> r matches Ok(l) && l@ == p.0 && *final(idx) as int
                    == p.1 && *old(idx) < *final(idx) <= tokens@.len())
                &&& (sp matches Err(m) ==> r matches Err(s) && s@ == m)
            }),
    {
        if *idx >= tokens.len() {
            return Err(valid_len_error(tokens, *idx));
        }
        let tk: &Token = &tokens[*idx];
        if tk.token_type != TokenType::NumberLiteral {
            return Err(
                "Limit post-processor expects a number literal!".to_owned(),
            );
        }
        let parsed = parse_i32_text(tk.literal.as_str());
        match parsed {
            None => Err("Limit post-processor expects 32-bit integer!".to_owned()),
            Some(v) => {
                let lit = join_lexemes(tokens, *idx - 1, *idx + 1);
                *idx += 1;
                Ok(LimitNode { limit: v, literal: lit })
            },
        }
    }

    /// The colorized echo and SQL of the clause.
    pub fn transpile_color(&self) -> (r: (String, String))
        ensures
            r.0@ == sp_colorize(self@.literal, AnsiColor::Magenta),
            r.1@ == sp_colorize(sp_sql_limit(self@), AnsiColor::Magenta),
    {
        let sql = self.transpile_raw();
        (colorize(self.literal.as_str(), AnsiColor::Magenta), colorize(
            sql.as_str(),
            AnsiColor::Magenta,
        ))
    }

    /// The raw SQL of the clause: `LIMIT` and the count.
    pub fn transpile_raw(&self) -> (r: String)
        ensures
            r@ == sp_sql_limit(self@),
    {
        let mut s = "LIMIT ".to_owned();
        if self.limit < 0 {
            let m: u64 = (-(self.limit as i64)) as u64;
            s.append("-");
            let digits = nat_to_string(m);
            s.append(digits.as_str());
            proof {
                reveal_strlit("-");
                assert("-"@ =~= seq!['-']);
                assert("LIMIT "@ + "-"@ + sp_nat_str(m as int) =~= "LIMIT "@ + (seq!['-']
                    + sp_nat_str(m as int)));
            }
        } else {
            let digits = nat_to_string(self.limit as u64);
            s.append(digits.as_str());
        }
        s
    }
}

impl PostProcessorNode {
    /// Handles one clause-chain token at `*idx`: skips an `and` separator,
    /// parses a `limit` clause into `final_node`, and rejects anything
    /// else.
    pub fn handle_postprocessor(
        tokens: &Vec<Token>,
        final_node: &mut PostProcessorNode,
        idx: &mut usize,
    ) -> (r: Result<(), String>)
        requires
            *old(idx) <= tokens@.len(),
        ensures
            ({
                let vs = token_views(tokens@);
                let pos = *old(idx) as int;
                &&& (pos >= vs.len() ==> (r matches Err(s) && s@ == sp_valid_len_msg(
                    vs.subrange(0, pos),
                )))
                &&& (pos < vs.len() && vs[pos].kind == TokenType::And ==> r is Ok && *final(idx)
                    as int == pos + 1 && *final(final_node) == *old(final_node))
                &&& (pos < vs.len() && vs[pos].kind == TokenType::LimitKeyword ==> ({
                    let sp = sp_limit(vs, pos + 1);
                    &&& (sp matches Ok(p) ==> r is Ok && final(final_node)@ == (PostV {
                        limit: Some(p.0),
                    }) && *final(idx) as int == p.1 && pos < p.1 <= vs.len())
                    &&& (sp matches Err(m) ==> r matches Err(s) && s@ == m)
                }))
                &&& (pos < vs.len() && vs[pos].kind != TokenType::And && vs[pos].kind
                    != TokenType::LimitKeyword ==> (r matches Err(s) && s@
                    == msg_pp_unexpected()))
            }),
    {
        if *idx >= tokens.len() {
            return Err(valid_len_error(tokens, *idx));
        }
        let kind = (&tokens[*idx]).token_type;
        if kind == TokenType::And {
            *idx += 1;
            Ok(())
        } else if kind == TokenType::LimitKeyword {
            *idx += 1;
            match LimitNode::parse(tokens, idx) {
                Ok(l) => {
                    final_node.limit = Some(l);
                    Ok(())
                },
                Err(e) => Err(e),
            }
        } else {
            Err(
                "Unexpected token, expected post-processor entrance keyword or list continuation!".to_owned(),
            )
        }
    }

    /// Consumes clause-chain tokens into `final_node` until the
    /// end-of-query token, which is left unconsumed.
    pub fn recurse_build(
        tokens: &Vec<Token>,
        final_node: &mut PostProcessorNode,
        idx: &mut usize,
    ) -> (r: Result<(), String>)
        requires
            *old(idx) <= tokens@.len(),
        ensures
            ({
                let sp = sp_pp_items(token_views(tokens@), *old(idx) as int, old(final_node)@.limit);
                &&& (sp matches Ok(p) ==> r is Ok && final(final_node)@ == p.0 && *final(idx)
                    as int == p.1 && *old(idx) <= *final(idx) <= tokens@.len())
                &&& (sp matches Err(m) ==> r matches Err(s) && s@ == m)
            }),
    {
        let ghost vs = token_views(tokens@);
        let ghost pos0 = *old(idx) as int;
        let ghost limit0 = old(final_node)@.limit;
        loop
            invariant
                vs == token_views(tokens@),
                pos0 == *old(idx) as int,
                limit0 == old(final_node)@.limit,
                pos0 <= *idx as int <= tokens@.len(),
                sp_pp_items(vs, pos0, limit0) == sp_pp_items(vs, *idx as int, final_node@.limit),
            decreases tokens@.len() - *idx,
        {
            if *idx >= tokens.len() {
                return Err(valid_len_error(tokens, *idx));
            }
            if (&tokens[*idx]).token_type == TokenType::EoqToken {
                return Ok(());
            }
            let ghost loop_pos = *idx as int;
            let ghost loop_limit = final_node@.limit;
            match PostProcessorNode::handle_postprocessor(tokens, final_node, idx) {
                Ok(()) => {},
                Err(e) => {
                    return Err(e);
                },
            }
        }
    }

    /// Parses an optional post-processor at `*idx`: present exactly when
    /// the token there is a post-processor entrance keyword.
    pub fn parse(tokens: &Vec<Token>, idx: &mut usize) -> (r: Result<
        Option<PostProcessorNode>,
        String,
    >)
        requires
            *old(idx) <= tokens@.len(),
        ensures
            ({
                let sp = sp_postprocessor(token_views(tokens@), *old(idx) as int);
                &&& (sp matches Ok(p) ==> r matches Ok(o) && opt_post_view(o) == p.0
                    && *final(idx) as int == p.1 && *old(idx) <= *final(idx) <= tokens@.len())
                &&& (sp matches Err(m) ==> r matches Err(s) && s@ == m)
            }),
    {
        if *idx >= tokens.len() {
            return Err(valid_len_error(tokens, *idx));
        }
        if (&tokens[*idx]).token_type != TokenType::PostProcessorEntrance {
            return Ok(None);
        }
        *idx += 1;
        let mut final_node = PostProcessorNode { limit: None };
        match PostProcessorNode::recurse_build(tokens, &mut final_node, idx) {
            Ok(()) => Ok(Some(final_node)),
            Err(e) => Err(e),
        }
    }

    /// The colorized echo and SQL of the chain.
    pub fn transpile_color(&self) -> (r: (String, String))
        ensures
            r.0@ == (match self@.limit {
                Some(l) => sp_colorize(l.literal, AnsiColor::Magenta),
                None => Seq::<char>::empty(),
            }),
            r.1@ == (match self@.limit {
                Some(l) => sp_colorize(sp_sql_limit(l), AnsiColor::Magenta),
                None => Seq::<char>::empty(),
            }),
    {
        match &self.limit {
            Some(l) => l.transpile_color(),
            None => (String::new(), String::new()),
        }
    }

    /// The raw SQL of the chain: its `limit` clause, or nothing.
    pub fn transpile_raw(&self) -> (r: String)
        ensures
            r@ == sp_sql_post(self@),
    {
        match &self.limit {
            Some(l) => l.transpile_raw(),
            None => String::new(),
        }
    }
}

} // verus!
