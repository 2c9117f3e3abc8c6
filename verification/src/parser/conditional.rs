//! The condition expression parser: recursive descent for boolean filter
//! expressions with the standard precedence rules. `and` binds tighter than
//! `or`, parentheses override, and chains associate to the left, so
//! `a and b or c` parses as `Or(And(a, b), c)`.
//!
//! Grammar:
//! ```text
//! Condition  := OrExpr
//! OrExpr     := AndExpr ( "or" AndExpr )*
//! AndExpr    := Primary ( "and" Primary )*
//! Primary    := "(" OrExpr ")" | Expression
//! Expression := Identifier ComparisonOp (StringLiteral | NumberLiteral)
//! ```
//! The whole condition terminates at an end-of-query or post-processor
//! entrance token; reaching either with a parenthesis still open is an
//! error, as is an unmatched closing parenthesis.

use vstd::prelude::*;
use vstd::string::*;

use crate::parser::helpers::{
    join_cond, join_condition, sp_valid_len_msg, sp_valid_until, valid_len_error,
    valid_until_warning,
};
use crate::tokens::{token_views, Token, TokenModel, TokenType};

verus! {

/// The boolean connectives of a condition tree.
#[derive(Debug, Clone, Copy, PartialEq, Eq, Structural)]
pub enum OperandType {
    And,
    Or,
}

/// A parsed filter condition: the expression tree and the source slice it
/// was built from (with `is` rendered as `=`).
#[derive(Debug, PartialEq)]
pub struct ConditionNode {
    pub condition: ConditionChild,
    pub literal: String,
}

/// One node of the condition tree.
#[derive(Debug, PartialEq)]
pub enum ConditionChild {
    Op(Box<OperandNode>),
    Expr(Box<ExpressionNode>),
    Bool(Box<BoolNode>),
}

/// An inner `and`/`or` node with its two operands.
#[derive(Debug, PartialEq)]
pub struct OperandNode {
    pub op_type: OperandType,
    pub ls: ConditionChild,
    pub rs: ConditionChild,
}

/// A single comparison `identifier op literal`.
#[derive(Debug, PartialEq)]
pub struct ExpressionNode {
    pub identifier: Token,
    pub comparison_operator: Token,
    pub literal: Token,
}

/// A constant boolean leaf: the neutral element of a connective (`true` for
/// `and`, `false` for `or`). Part of the condition tree model for an empty
/// branch; the grammar above never produces one itself.
#[derive(Debug, PartialEq)]
pub struct BoolNode {
    pub value: bool,
}

/// The mathematical model of a condition tree.
pub enum CondV {
    Op { op: OperandType, ls: Box<CondV>, rs: Box<CondV> },
    Expr { identifier: TokenModel, comparison_operator: TokenModel, literal: TokenModel },
    Bool { value: bool },
}

/// The model of a parsed condition: tree plus captured source slice.
pub struct CondNodeV {
    pub condition: CondV,
    pub literal: Seq<char>,
}

pub open spec fn cond_child_view(c: &ConditionChild) -> CondV
    decreases c,
{
    match c {
        ConditionChild::Op(op) => CondV::Op {
            op: op.op_type,
            ls: Box::new(cond_child_view(&op.ls)),
            rs: Box::new(cond_child_view(&op.rs)),
        },
        ConditionChild::Expr(e) => CondV::Expr {
            identifier: e.identifier@,
            comparison_operator: e.comparison_operator@,
            literal: e.literal@,
        },
        ConditionChild::Bool(b) => CondV::Bool { value: b.value },
    }
}

impl View for ConditionChild {
    type V = CondV;

    open spec fn view(&self) -> CondV {
        cond_child_view(self)
    }
}

impl View for ExpressionNode {
    type V = CondV;

    open spec fn view(&self) -> CondV {
        CondV::Expr {
            identifier: self.identifier@,
            comparison_operator: self.comparison_operator@,
            literal: self.literal@,
        }
    }
}

impl View for ConditionNode {
    type V = CondNodeV;

    open spec fn view(&self) -> CondNodeV {
        CondNodeV { condition: self.condition@, literal: self.literal@ }
    }
}

/// The diagnostic for a token that cannot start or continue a condition.
pub open spec fn msg_cond_unexpected() -> Seq<char> {
    "Unexpected token found while parsing conditional expression!"@
}

/// The diagnostic for a condition that ends with open parentheses.
pub open spec fn msg_unclosed_paren() -> Seq<char> {
    "Found end of conditional, but there are unclosed parentheses!"@
}

/// The comparison operators accepted between an identifier and a literal.
pub open spec fn is_comparator(k: TokenType) -> bool {
    k == TokenType::Equal || k == TokenType::Lte || k == TokenType::Lt || k == TokenType::Gt || k
        == TokenType::Gte
}

/// Parses `Expression := Identifier ComparisonOp (StringLiteral | NumberLiteral)`.
pub open spec fn sp_expression(t: Seq<TokenModel>, pos: int) -> Result<(CondV, int), Seq<char>> {
    if pos + 2 >= t.len() {
        Err(sp_valid_len_msg(t))
    } else if t[pos].kind != TokenType::Identifier {
        Err(sp_valid_until(t, pos))
    } else if !is_comparator(t[pos + 1].kind) {
        Err(sp_valid_until(t, pos + 1))
    } else if t[pos + 2].kind != TokenType::StringLiteral && t[pos + 2].kind
        != TokenType::NumberLiteral {
        Err(sp_valid_until(t, pos + 2))
    } else {
        Ok(
            (
                CondV::Expr {
                    identifier: t[pos],
                    comparison_operator: t[pos + 1],
                    literal: t[pos + 2],
                },
                pos + 3,
            ),
        )
    }
}

/// Parses `Primary := "(" OrExpr ")" | Expression`.
pub open spec fn sp_primary(t: Seq<TokenModel>, pos: int) -> Result<(CondV, int), Seq<char>>
    decreases t.len() - pos, 0int,
{
    if 0 <= pos < t.len() && t[pos].kind == TokenType::OpenParen {
        match sp_or(t, pos + 1) {
            Err(e) => Err(e),
            Ok((v, p2)) => if p2 < t.len() && t[p2].kind == TokenType::CloseParen {
                Ok((v, p2 + 1))
            } else if p2 < t.len() && !(t[p2].kind == TokenType::EoqToken || t[p2].kind
                == TokenType::PostProcessorEntrance) {
                Err(msg_cond_unexpected())
            } else {
                Err(msg_unclosed_paren())
            },
        }
    } else if 0 <= pos < t.len() && t[pos].kind != TokenType::Identifier {
        Err(msg_cond_unexpected())
    } else {
        sp_expression(t, pos)
    }
}

/// Parses the `( "and" Primary )*` tail of an `AndExpr`, extending `lv` to
/// a left-leaning tree.
pub open spec fn sp_and_rest(t: Seq<TokenModel>, pos: int, lv: CondV) -> Result<
    (CondV, int),
    Seq<char>,
>
    decreases t.len() - pos, 2int,
{
    if 0 <= pos < t.len() && t[pos].kind == TokenType::And {
        match sp_primary(t, pos + 1) {
            Err(e) => Err(e),
            Ok((rv, p2)) => if pos < p2 <= t.len() {
                sp_and_rest(
                    t,
                    p2,
                    CondV::Op { op: OperandType::And, ls: Box::new(lv), rs: Box::new(rv) },
                )
            } else {
                Err(msg_cond_unexpected())
            },
        }
    } else {
        Ok((lv, pos))
    }
}

/// Parses `AndExpr := Primary ( "and" Primary )*`.
pub open spec fn sp_and(t: Seq<TokenModel>, pos: int) -> Result<(CondV, int), Seq<char>>
    decreases t.len() - pos, 1int,
{
    match sp_primary(t, pos) {
        Err(e) => Err(e),
        Ok((lv, p2)) => if pos < p2 <= t.len() {
            sp_and_rest(t, p2, lv)
        } else {
            Err(msg_cond_unexpected())
        },
    }
}

/// Parses the `( "or" AndExpr )*` tail of an `OrExpr`.
pub open spec fn sp_or_rest(t: Seq<TokenModel>, pos: int, lv: CondV) -> Result<
    (CondV, int),
    Seq<char>,
>
    decreases t.len() - pos, 4int,
{
    if 0 <= pos < t.len() && t[pos].kind == TokenType::Or {
        match sp_and(t, pos + 1) {
            Err(e) => Err(e),
            Ok((rv, p2)) => if pos < p2 <= t.len() {
                sp_or_rest(
                    t,
                    p2,
                    CondV::Op { op: OperandType::Or, ls: Box::new(lv), rs: Box::new(rv) },
                )
            } else {
                Err(msg_cond_unexpected())
            },
        }
    } else {
        Ok((lv, pos))
    }
}

/// Parses `OrExpr := AndExpr ( "or" AndExpr )*`.
pub open spec fn sp_or(t: Seq<TokenModel>, pos: int) -> Result<(CondV, int), Seq<char>>
    decreases t.len() - pos, 3int,
{
    match sp_and(t, pos) {
        Err(e) => Err(e),
        Ok((lv, p2)) => if pos < p2 <= t.len() {
            sp_or_rest(t, p2, lv)
        } else {
            Err(msg_cond_unexpected())
        },
    }
}

/// Parses a whole condition and captures the source slice it consumed.
pub open spec fn sp_condition(t: Seq<TokenModel>, pos: int) -> Result<
    (CondNodeV, int),
    Seq<char>,
> {
    match sp_or(t, pos) {
        Err(e) => Err(e),
        Ok((v, end)) => Ok(
            (CondNodeV { condition: v, literal: join_cond(t.subrange(pos, end)) }, end),
        ),
    }
}

impl ExpressionNode {
    /// Parses a single comparison at `*idx` and advances `*idx` past it.
    pub fn parse(tokens: &Vec<Token>, idx: &mut usize) -> (r: Result<ExpressionNode, String>)
        requires
            *old(idx) <= tokens@.len(),
        ensures
            ({
                let sp = sp_expression(token_views(tokens@), *old(idx) as int);
                &&& (sp matches Ok(p) ==> r matches Ok(e) && e@ == p.0 && *final(idx) as int
                    == p.1 && *old(idx) < *final(idx) <= tokens@.len())
                &&& (sp matches Err(m) ==> r matches Err(s) && s@ == m)
            }),
    {
        if tokens.len() - *idx < 3 {
            proof {
                assert(token_views(tokens@).subrange(0, tokens@.len() as int) =~= token_views(
                    tokens@,
                ));
            }
            return Err(valid_len_error(tokens, tokens.len()));
        }
        let t0: &Token = &tokens[*idx];
        if t0.token_type != TokenType::Identifier {
            return Err(valid_until_warning(tokens, idx));
        }
        let identifier = Token::new(t0.token_type, &t0.literal, &t0.lexeme);
        *idx += 1;
        let t1: &Token = &tokens[*idx];
        if !(t1.token_type == TokenType::Equal || t1.token_type == TokenType::Lte || t1.token_type
            == TokenType::Lt || t1.token_type == TokenType::Gt || t1.token_type
            == TokenType::Gte) {
            return Err(valid_until_warning(tokens, idx));
        }
        let comparison_operator = Token::new(t1.token_type, &t1.literal, &t1.lexeme);
        *idx += 1;
        let t2: &Token = &tokens[*idx];
        if !(t2.token_type == TokenType::StringLiteral || t2.token_type
            == TokenType::NumberLiteral) {
            return Err(valid_until_warning(tokens, idx));
        }
        let literal = Token::new(t2.token_type, &t2.literal, &t2.lexeme);
        *idx += 1;
        Ok(ExpressionNode { identifier, comparison_operator, literal })
    }
}

/// Parses `Primary := "(" OrExpr ")" | Expression` at `*idx`.
fn parse_primary(tokens: &Vec<Token>, idx: &mut usize) -> (r: Result<ConditionChild, String>)
    requires
        *old(idx) <= tokens@.len(),
    ensures
        ({
            let sp = sp_primary(token_views(tokens@), *old(idx) as int);
            &&& (sp matches Ok(p) ==> r matches Ok(c) && c@ == p.0 && *final(idx) as int == p.1
                && *old(idx) < *final(idx) <= tokens@.len())
            &&& (sp matches Err(m) ==> r matches Err(s) && s@ == m)
        }),
    decreases tokens@.len() - *idx, 0int,
{
    if *idx < tokens.len() && (&tokens[*idx]).token_type == TokenType::OpenParen {
        *idx += 1;
        let inner = match recurse_build_or(tokens, idx) {
            Ok(c) => c,
            Err(e) => {
                return Err(e);
            },
        };
        if *idx < tokens.len() && (&tokens[*idx]).token_type == TokenType::CloseParen {
            *idx += 1;
            Ok(inner)
        } else if *idx < tokens.len() && !((&tokens[*idx]).token_type == TokenType::EoqToken || (
        &tokens[*idx]).token_type == TokenType::PostProcessorEntrance) {
            Err(msg_unexpected_string())
        } else {
            Err(msg_unclosed_string())
        }
    } else if *idx < tokens.len() && (&tokens[*idx]).token_type != TokenType::Identifier {
        Err(msg_unexpected_string())
    } else {
        match ExpressionNode::parse(tokens, idx) {
            Ok(e) => Ok(ConditionChild::Expr(Box::new(e))),
            Err(m) => Err(m),
        }
    }
}

fn msg_unexpected_string() -> (r: String)
    ensures
        r@ == msg_cond_unexpected(),
{
    "Unexpected token found while parsing conditional expression!".to_owned()
}

fn msg_unclosed_string() -> (r: String)
    ensures
        r@ == msg_unclosed_paren(),
{
    "Found end of conditional, but there are unclosed parentheses!".to_owned()
}

/// Parses `AndExpr := Primary ( "and" Primary )*` at `*idx`, building a
/// left-leaning tree.
fn parse_and_level(tokens: &Vec<Token>, idx: &mut usize) -> (r: Result<ConditionChild, String>)
    requires
        *old(idx) <= tokens@.len(),
    ensures
        ({
            let sp = sp_and(token_views(tokens@), *old(idx) as int);
            &&& (sp matches Ok(p) ==> r matches Ok(c) && c@ == p.0 && *final(idx) as int == p.1
                && *old(idx) < *final(idx) <= tokens@.len())
            &&& (sp matches Err(m) ==> r matches Err(s) && s@ == m)
        }),
    decreases tokens@.len() - *idx, 1int,
{
    let ghost pos0 = *idx as int;
    let ghost vs = token_views(tokens@);
    let mut acc = match parse_primary(tokens, idx) {
        Ok(c) => c,
        Err(e) => {
            return Err(e);
        },
    };
    while *idx < tokens.len() && (&tokens[*idx]).token_type == TokenType::And
        invariant
            vs == token_views(tokens@),
            pos0 == *old(idx) as int,
            pos0 < *idx as int <= tokens@.len(),
            sp_and(vs, pos0) == sp_and_rest(vs, *idx as int, acc@),
        decreases tokens@.len() - *idx,
    {
        let ghost loop_pos = *idx as int;
        let ghost accv = acc@;
        proof {
            assert(vs[loop_pos].kind == TokenType::And);
        }
        *idx += 1;
        let rv = match parse_primary(tokens, idx) {
            Ok(c) => c,
            Err(e) => {
                proof {
                    assert(sp_primary(vs, loop_pos + 1) is Err);
                    assert(sp_and_rest(vs, loop_pos, accv) == sp_primary(vs, loop_pos + 1));
                }
                return Err(e);
            },
        };
        proof {
            let p = sp_primary(vs, loop_pos + 1)->Ok_0;
            assert(sp_and_rest(vs, loop_pos, accv) == sp_and_rest(
                vs,
                p.1,
                CondV::Op { op: OperandType::And, ls: Box::new(accv), rs: Box::new(p.0) },
            ));
        }
        acc = ConditionChild::Op(
            Box::new(OperandNode { op_type: OperandType::And, ls: acc, rs: rv }),
        );
    }
    Ok(acc)
}

/// Parses `OrExpr := AndExpr ( "or" AndExpr )*` at `*idx`, building a
/// left-leaning tree. This is the whole-condition entry of the recursion.
fn recurse_build_or(tokens: &Vec<Token>, idx: &mut usize) -> (r: Result<ConditionChild, String>)
    requires
        *old(idx) <= tokens@.len(),
    ensures
        ({
            let sp = sp_or(token_views(tokens@), *old(idx) as int);
            &&& (sp matches Ok(p) ==> r matches Ok(c) && c@ == p.0 && *final(idx) as int == p.1
                && *old(idx) < *final(idx) <= tokens@.len())
            &&& (sp matches Err(m) ==> r matches Err(s) && s@ == m)
        }),
    decreases tokens@.len() - *idx, 2int,
{
    let ghost pos0 = *idx as int;
    let ghost vs = token_views(tokens@);
    let mut acc = match parse_and_level(tokens, idx) {
        Ok(c) => c,
        Err(e) => {
            return Err(e);
        },
    };
    while *idx < tokens.len() && (&tokens[*idx]).token_type == TokenType::Or
        invariant
            vs == token_views(tokens@),
            pos0 == *old(idx) as int,
            pos0 < *idx as int <= tokens@.len(),
            sp_or(vs, pos0) == sp_or_rest(vs, *idx as int, acc@),
        decreases tokens@.len() - *idx,
    {
        let ghost loop_pos = *idx as int;
        let ghost accv = acc@;
        proof {
            assert(vs[loop_pos].kind == TokenType::Or);
        }
        *idx += 1;
        let rv = match parse_and_level(tokens, idx) {
            Ok(c) => c,
            Err(e) => {
                proof {
                    assert(sp_and(vs, loop_pos + 1) is Err);
                    assert(sp_or_rest(vs, loop_pos, accv) == sp_and(vs, loop_pos + 1));
                }
                return Err(e);
            },
        };
        proof {
            let p = sp_and(vs, loop_pos + 1)->Ok_0;
            assert(sp_or_rest(vs, loop_pos, accv) == sp_or_rest(
                vs,
                p.1,
                CondV::Op { op: OperandType::Or, ls: Box::new(accv), rs: Box::new(p.0) },
            ));
        }
        acc = ConditionChild::Op(
            Box::new(OperandNode { op_type: OperandType::Or, ls: acc, rs: rv }),
        );
    }
    Ok(acc)
}

impl ConditionNode {
    /// Parses a boolean expression at `*idx`; the tree of the whole `or`
    /// level. Exposed for building conditions without the surrounding
    /// bookkeeping of `parse`.
    pub fn recurse_build(tokens: &Vec<Token>, idx: &mut usize) -> (r: Result<
        ConditionChild,
        String,
    >)
        requires
            *old(idx) <= tokens@.len(),
        ensures
            ({
                let sp = sp_or(token_views(tokens@), *old(idx) as int);
                &&& (sp matches Ok(p) ==> r matches Ok(c) && c@ == p.0 && *final(idx) as int
                    == p.1 && *old(idx) < *final(idx) <= tokens@.len())
                &&& (sp matches Err(m) ==> r matches Err(s) && s@ == m)
            }),
    {
        recurse_build_or(tokens, idx)
    }

    /// Parses a whole filter condition at `*idx` and records the source
    /// slice it consumed, with every `Equal` token rendered as `=`.
    pub fn parse(tokens: &Vec<Token>, idx: &mut usize) -> (r: Result<ConditionNode, String>)
        requires
            *old(idx) <= tokens@.len(),
        ensures
            ({
                let sp = sp_condition(token_views(tokens@), *old(idx) as int);
                &&& (sp matches Ok(p) ==> r matches Ok(c) && c@ == p.0 && *final(idx) as int
                    == p.1 && *old(idx) < *final(idx) <= tokens@.len())
                &&& (sp matches Err(m) ==> r matches Err(s) && s@ == m)
            }),
    {
        let start = *idx;
        let cond = match recurse_build_or(tokens, idx) {
            Ok(c) => c,
            Err(e) => {
                return Err(e);
            },
        };
        let lit = join_condition(tokens, start, *idx);
        Ok(ConditionNode { condition: cond, literal: lit })
    }

    /// The condition rendered for the colorized echo: the captured source
    /// slice.
    pub fn transpile_color(&self) -> (r: String)
        ensures
            r@ == self@.literal,
    {
        self.literal.clone()
    }

    /// The condition rendered for raw SQL: the captured source slice.
    pub fn transpile_raw(&self) -> (r: String)
        ensures
            r@ == self@.literal,
    {
        self.literal.clone()
    }
}

} // verus!
