//! Laws of the language pipeline that relate several functions. Each law is
//! stated over the specification model that the executable functions are
//! verified against, and proved here:
//!
//! - a query without its end-of-query delimiter never processes
//!   (`lemma_missing_delimiter`);
//! - the three delimiter characters are interchangeable
//!   (`lemma_delimiters_interchangeable`);
//! - keyword synonyms do not change whether a query parses nor the SQL it
//!   produces (`lemma_synonym_equivalence`);
//! - the two list separators build the same name list
//!   (`lemma_list_separators_interchangeable`).

use vstd::prelude::*;

use crate::lexer::{
    digits_end, drop_ws, ident_end, is_digit, is_eoq_char, is_op_char, is_single_char,
    is_stop_char, lemma_digits_end, lemma_ident_end, lemma_quote_pos, lemma_scan_step_progress,
    number_end, quote_pos, scan_step, single_kind, spec_tokens, tokenize_raw,
};
use crate::parser::conditional::{
    sp_and, sp_and_rest, sp_condition, sp_expression, sp_or, sp_or_rest, sp_primary, CondV,
};
use crate::parser::database::{
    sp_create, sp_database, sp_destroy, sp_show, sp_sql_db, sp_use,
};
use crate::parser::get::{
    sp_columns, sp_filter, sp_get, sp_sql_get, sp_table, FilterV,
};
use crate::parser::helpers::{cond_sep, cond_text, join_cond, sp_ident_list};
use crate::parser::postprocessor::{
    sp_limit, sp_postprocessor, sp_pp_items, LimitV, PostV,
};
use crate::parser::{drop_nulls, sp_implied_action, sp_parse, sp_query, sp_sql_query};
use crate::sp_process;
use crate::tokens::{TokenModel, TokenType};

verus! {

/// Token kinds whose lexeme never reaches the generated SQL: the keyword
/// kinds (several of which have synonym surface forms), the interchangeable
/// end-of-query delimiters, and the discarded fillers. An `Equal` token
/// renders as `=` whatever its surface form was, so it belongs here too.
pub open spec fn lexeme_free_kind(k: TokenType) -> bool {
    ||| k == TokenType::Equal
    ||| k == TokenType::EoqToken
    ||| k == TokenType::NullToken
    ||| k == TokenType::Get
    ||| k == TokenType::From
    ||| k == TokenType::CreateKeyword
    ||| k == TokenType::DeleteKeyword
    ||| k == TokenType::UseKeyword
    ||| k == TokenType::ShowKeyword
    ||| k == TokenType::WildcardKeyword
    ||| k == TokenType::FilterKeyword
    ||| k == TokenType::PostProcessorEntrance
    ||| k == TokenType::LimitKeyword
    ||| k == TokenType::Database
    ||| k == TokenType::SortHelper
    ||| k == TokenType::SortType
    ||| k == TokenType::Not
}

/// Two tokens that differ at most in the surface form of a keyword: same
/// kind, same decoded literal, and equal lexemes unless the kind's lexeme
/// never reaches the SQL. Substituting one keyword synonym for another
/// (`find` for `get`, `is` for `=`, `.` for `;`) relates the token
/// sequences of the two queries pointwise by this relation.
pub open spec fn syn_tok(a: TokenModel, b: TokenModel) -> bool {
    a.kind == b.kind && a.literal == b.literal && (a.lexeme == b.lexeme || lexeme_free_kind(
        a.kind,
    ))
}

/// The pointwise lifting of `syn_tok` to token sequences.
pub open spec fn syn_toks(s: Seq<TokenModel>, t: Seq<TokenModel>) -> bool {
    s.len() == t.len() && forall|i: int| 0 <= i < s.len() ==> syn_tok(s[i], t[i])
}

/// Two tokens that are either identical or both list separators (a comma
/// or an `and`).
pub open spec fn sep_tok(a: TokenModel, b: TokenModel) -> bool {
    a == b || ((a.kind == TokenType::Comma || a.kind == TokenType::And) && (b.kind
        == TokenType::Comma || b.kind == TokenType::And))
}

/// The pointwise lifting of `sep_tok` to token sequences.
pub open spec fn sep_toks(s: Seq<TokenModel>, t: Seq<TokenModel>) -> bool {
    s.len() == t.len() && forall|i: int| 0 <= i < s.len() ==> sep_tok(s[i], t[i])
}

/// A query whose token stream is empty or does not end on the end-of-query
/// delimiter never processes; appending one of the delimiters is the only
/// way in.
pub proof fn lemma_missing_delimiter(q: Seq<char>)
    requires
        spec_tokens(q).len() == 0 || spec_tokens(q).last().kind != TokenType::EoqToken,
    ensures
        sp_process(q) is None,
{
}

/// The two list separators are interchangeable: exchanging commas and
/// `and` tokens at the separator positions of an identifier list changes
/// neither whether the list parses, nor the names, nor where it ends.
pub proof fn lemma_list_separators_interchangeable(
    t1: Seq<TokenModel>,
    t2: Seq<TokenModel>,
    pos: int,
)
    requires
        sep_toks(t1, t2),
    ensures
        (sp_ident_list(t1, pos) is Ok) == (sp_ident_list(t2, pos) is Ok),
        sp_ident_list(t1, pos) matches Ok(p1) ==> (sp_ident_list(t2, pos) matches Ok(p2) && p1
            == p2),
    decreases t1.len() - pos,
{
    if pos < 0 || pos >= t1.len() {
    } else {
        assert(sep_tok(t1[pos], t2[pos]));
        if t1[pos].kind != TokenType::Identifier {
        } else {
            assert(t1[pos] == t2[pos]);
            if pos + 1 < t1.len() && (t1[pos + 1].kind == TokenType::And || t1[pos + 1].kind
                == TokenType::Comma) {
                assert(sep_tok(t1[pos + 1], t2[pos + 1]));
                lemma_list_separators_interchangeable(t1, t2, pos + 2);
            } else {
                if pos + 1 < t1.len() {
                    assert(sep_tok(t1[pos + 1], t2[pos + 1]));
                }
            }
        }
    }
}

/// Equal condition texts of related tokens over the range `[a, b)`.
pub open spec fn cond_texts_equal(t1: Seq<TokenModel>, t2: Seq<TokenModel>, a: int, b: int) -> bool {
    forall|i: int| a <= i < b ==> cond_text(t1[i]) == cond_text(t2[i])
}

proof fn lemma_syn_expression(t1: Seq<TokenModel>, t2: Seq<TokenModel>, pos: int)
    requires
        syn_toks(t1, t2),
        0 <= pos,
    ensures
        ({
            let r1 = sp_expression(t1, pos);
            let r2 = sp_expression(t2, pos);
            &&& (r1 is Ok <==> r2 is Ok)
            &&& (r1 matches Ok(p1) ==> (r2 matches Ok(p2) && p1.1 == p2.1 && pos <= p1.1
                <= t1.len() && cond_texts_equal(t1, t2, pos, p1.1)))
        }),
{
    if pos + 2 < t1.len() {
        assert(syn_tok(t1[pos], t2[pos]));
        assert(syn_tok(t1[pos + 1], t2[pos + 1]));
        assert(syn_tok(t1[pos + 2], t2[pos + 2]));
    }
}

proof fn lemma_syn_primary(t1: Seq<TokenModel>, t2: Seq<TokenModel>, pos: int)
    requires
        syn_toks(t1, t2),
        0 <= pos,
    ensures
        ({
            let r1 = sp_primary(t1, pos);
            let r2 = sp_primary(t2, pos);
            &&& (r1 is Ok <==> r2 is Ok)
            &&& (r1 matches Ok(p1) ==> (r2 matches Ok(p2) && p1.1 == p2.1 && pos <= p1.1
                <= t1.len() && cond_texts_equal(t1, t2, pos, p1.1)))
        }),
    decreases t1.len() - pos, 0int,
{
    if 0 <= pos < t1.len() {
        assert(syn_tok(t1[pos], t2[pos]));
    }
    if 0 <= pos < t1.len() && t1[pos].kind == TokenType::OpenParen {
        lemma_syn_or(t1, t2, pos + 1);
        match sp_or(t1, pos + 1) {
            Ok((v1, p2)) => {
                if p2 < t1.len() {
                    assert(syn_tok(t1[p2], t2[p2]));
                }
                if p2 < t1.len() && t1[p2].kind == TokenType::CloseParen {
                    assert forall|i: int| pos <= i < p2 + 1 implies cond_text(t1[i]) == cond_text(
                        t2[i],
                    ) by {
                        assert(syn_tok(t1[i], t2[i]));
                        if i == pos || i == p2 {
                        } else {
                            assert(cond_texts_equal(t1, t2, pos + 1, p2));
                        }
                    }
                }
            },
            Err(_) => {},
        }
    } else if 0 <= pos < t1.len() && t1[pos].kind != TokenType::Identifier {
    } else {
        lemma_syn_expression(t1, t2, pos);
    }
}

proof fn lemma_syn_and_rest(
    t1: Seq<TokenModel>,
    t2: Seq<TokenModel>,
    pos: int,
    lv1: CondV,
    lv2: CondV,
)
    requires
        syn_toks(t1, t2),
        0 <= pos,
    ensures
        ({
            let r1 = sp_and_rest(t1, pos, lv1);
            let r2 = sp_and_rest(t2, pos, lv2);
            &&& (r1 is Ok <==> r2 is Ok)
            &&& (r1 matches Ok(p1) ==> (r2 matches Ok(p2) && p1.1 == p2.1 && pos <= p1.1
                && cond_texts_equal(t1, t2, pos, p1.1)))
        }),
    decreases t1.len() - pos, 2int,
{
    if 0 <= pos < t1.len() {
        assert(syn_tok(t1[pos], t2[pos]));
    }
    if 0 <= pos < t1.len() && t1[pos].kind == TokenType::And {
        lemma_syn_primary(t1, t2, pos + 1);
        match sp_primary(t1, pos + 1) {
            Ok((rv1, p2)) => {
                if pos < p2 <= t1.len() {
                    let nlv1 = CondV::Op {
                        op: crate::parser::conditional::OperandType::And,
                        ls: Box::new(lv1),
                        rs: Box::new(rv1),
                    };
                    let nlv2 = CondV::Op {
                        op: crate::parser::conditional::OperandType::And,
                        ls: Box::new(lv2),
                        rs: Box::new(sp_primary(t2, pos + 1)->Ok_0.0),
                    };
                    lemma_syn_and_rest(t1, t2, p2, nlv1, nlv2);
                    match sp_and_rest(t1, p2, nlv1) {
                        Ok((_, end)) => {
                            assert forall|i: int| pos <= i < end implies cond_text(t1[i])
                                == cond_text(t2[i]) by {
                                if i == pos {
                                    assert(syn_tok(t1[i], t2[i]));
                                } else if i < p2 {
                                    assert(cond_texts_equal(t1, t2, pos + 1, p2));
                                } else {
                                    assert(cond_texts_equal(t1, t2, p2, end));
                                }
                            }
                        },
                        Err(_) => {},
                    }
                }
            },
            Err(_) => {},
        }
    }
}

proof fn lemma_syn_and(t1: Seq<TokenModel>, t2: Seq<TokenModel>, pos: int)
    requires
        syn_toks(t1, t2),
        0 <= pos,
    ensures
        ({
            let r1 = sp_and(t1, pos);
            let r2 = sp_and(t2, pos);
            &&& (r1 is Ok <==> r2 is Ok)
            &&& (r1 matches Ok(p1) ==> (r2 matches Ok(p2) && p1.1 == p2.1 && pos <= p1.1
                && cond_texts_equal(t1, t2, pos, p1.1)))
        }),
    decreases t1.len() - pos, 1int,
{
    lemma_syn_primary(t1, t2, pos);
    match sp_primary(t1, pos) {
        Ok((lv1, p2)) => {
            if pos < p2 <= t1.len() {
                lemma_syn_and_rest(t1, t2, p2, lv1, sp_primary(t2, pos)->Ok_0.0);
                match sp_and_rest(t1, p2, lv1) {
                    Ok((_, end)) => {
                        assert forall|i: int| pos <= i < end implies cond_text(t1[i]) == cond_text(
                            t2[i],
                        ) by {
                            if i < p2 {
                                assert(cond_texts_equal(t1, t2, pos, p2));
                            } else {
                                assert(cond_texts_equal(t1, t2, p2, end));
                            }
                        }
                    },
                    Err(_) => {},
                }
            }
        },
        Err(_) => {},
    }
}

proof fn lemma_syn_or_rest(
    t1: Seq<TokenModel>,
    t2: Seq<TokenModel>,
    pos: int,
    lv1: CondV,
    lv2: CondV,
)
    requires
        syn_toks(t1, t2),
        0 <= pos,
    ensures
        ({
            let r1 = sp_or_rest(t1, pos, lv1);
            let r2 = sp_or_rest(t2, pos, lv2);
            &&& (r1 is Ok <==> r2 is Ok)
            &&& (r1 matches Ok(p1) ==> (r2 matches Ok(p2) && p1.1 == p2.1 && pos <= p1.1
                && cond_texts_equal(t1, t2, pos, p1.1)))
        }),
    decreases t1.len() - pos, 4int,
{
    if 0 <= pos < t1.len() {
        assert(syn_tok(t1[pos], t2[pos]));
    }
    if 0 <= pos < t1.len() && t1[pos].kind == TokenType::Or {
        lemma_syn_and(t1, t2, pos + 1);
        match sp_and(t1, pos + 1) {
            Ok((rv1, p2)) => {
                if pos < p2 <= t1.len() {
                    let nlv1 = CondV::Op {
                        op: crate::parser::conditional::OperandType::Or,
                        ls: Box::new(lv1),
                        rs: Box::new(rv1),
                    };
                    let nlv2 = CondV::Op {
                        op: crate::parser::conditional::OperandType::Or,
                        ls: Box::new(lv2),
                        rs: Box::new(sp_and(t2, pos + 1)->Ok_0.0),
                    };
                    lemma_syn_or_rest(t1, t2, p2, nlv1, nlv2);
                    match sp_or_rest(t1, p2, nlv1) {
                        Ok((_, end)) => {
                            assert forall|i: int| pos <= i < end implies cond_text(t1[i])
                                == cond_text(t2[i]) by {
                                if i == pos {
                                    assert(syn_tok(t1[i], t2[i]));
                                } else if i < p2 {
                                    assert(cond_texts_equal(t1, t2, pos + 1, p2));
                                } else {
                                    assert(cond_texts_equal(t1, t2, p2, end));
                                }
                            }
                        },
                        Err(_) => {},
                    }
                }
            },
            Err(_) => {},
        }
    }
}

proof fn lemma_syn_or(t1: Seq<TokenModel>, t2: Seq<TokenModel>, pos: int)
    requires
        syn_toks(t1, t2),
        0 <= pos,
    ensures
        ({
            let r1 = sp_or(t1, pos);
            let r2 = sp_or(t2, pos);
            &&& (r1 is Ok <==> r2 is Ok)
            &&& (r1 matches Ok(p1) ==> (r2 matches Ok(p2) && p1.1 == p2.1 && pos <= p1.1
                && cond_texts_equal(t1, t2, pos, p1.1)))
        }),
    decreases t1.len() - pos, 3int,
{
    lemma_syn_and(t1, t2, pos);
    match sp_and(t1, pos) {
        Ok((lv1, p2)) => {
            if pos < p2 <= t1.len() {
                lemma_syn_or_rest(t1, t2, p2, lv1, sp_and(t2, pos)->Ok_0.0);
                match sp_or_rest(t1, p2, lv1) {
                    Ok((_, end)) => {
                        assert forall|i: int| pos <= i < end implies cond_text(t1[i]) == cond_text(
                            t2[i],
                        ) by {
                            if i < p2 {
                                assert(cond_texts_equal(t1, t2, pos, p2));
                            } else {
                                assert(cond_texts_equal(t1, t2, p2, end));
                            }
                        }
                    },
                    Err(_) => {},
                }
            }
        },
        Err(_) => {},
    }
}

proof fn lemma_syn_condition(t1: Seq<TokenModel>, t2: Seq<TokenModel>, pos: int)
    requires
        syn_toks(t1, t2),
        0 <= pos,
    ensures
        ({
            let r1 = sp_condition(t1, pos);
            let r2 = sp_condition(t2, pos);
            &&& (r1 is Ok <==> r2 is Ok)
            &&& (r1 matches Ok(p1) ==> (r2 matches Ok(p2) && p1.1 == p2.1 && pos <= p1.1
                <= t1.len() && p1.0.literal == p2.0.literal))
        }),
{
    lemma_syn_or(t1, t2, pos);
    match sp_or(t1, pos) {
        Ok((v1, end)) => {
            lemma_sp_rest_end_bound(t1, pos);
            let s1 = t1.subrange(pos, end);
            let s2 = t2.subrange(pos, end);
            assert forall|i: int| 0 <= i < s1.len() implies s1[i].kind == s2[i].kind && cond_text(
                s1[i],
            ) == cond_text(s2[i]) by {
                assert(syn_tok(t1[pos + i], t2[pos + i]));
                assert(cond_texts_equal(t1, t2, pos, end));
            }
            lemma_join_cond_pointwise(s1, s2);
        },
        Err(_) => {},
    }
}

/// The end position of a successful parse is bounded by the sequence
/// length, by induction over the grammar.
proof fn lemma_sp_rest_end_bound(t: Seq<TokenModel>, pos: int)
    requires
        0 <= pos,
    ensures
        sp_or(t, pos) matches Ok(p) ==> pos <= p.1 <= t.len(),
        sp_and(t, pos) matches Ok(p) ==> pos <= p.1 <= t.len(),
        sp_primary(t, pos) matches Ok(p) ==> pos <= p.1 <= t.len(),
    decreases t.len() - pos, 5int,
{
    lemma_sp_rest_end_bound_primary(t, pos);
    match sp_primary(t, pos) {
        Ok((lv, p2)) => {
            if pos < p2 <= t.len() {
                lemma_sp_and_rest_end_bound(t, p2, lv);
                match sp_and_rest(t, p2, lv) {
                    Ok((av, p3)) => {
                        if pos < p3 <= t.len() {
                            lemma_sp_or_rest_end_bound(t, p3, av);
                        }
                    },
                    Err(_) => {},
                }
            }
        },
        Err(_) => {},
    }
}

proof fn lemma_sp_rest_end_bound_primary(t: Seq<TokenModel>, pos: int)
    requires
        0 <= pos,
    ensures
        sp_primary(t, pos) matches Ok(p) ==> pos <= p.1 <= t.len(),
    decreases t.len() - pos, 0int,
{
    if 0 <= pos < t.len() && t[pos].kind == TokenType::OpenParen {
        lemma_sp_rest_end_bound(t, pos + 1);
    }
}

proof fn lemma_sp_and_rest_end_bound(t: Seq<TokenModel>, pos: int, lv: CondV)
    requires
        0 <= pos <= t.len(),
    ensures
        sp_and_rest(t, pos, lv) matches Ok(p) ==> pos <= p.1 <= t.len(),
    decreases t.len() - pos, 2int,
{
    if 0 <= pos < t.len() && t[pos].kind == TokenType::And {
        match sp_primary(t, pos + 1) {
            Ok((rv, p2)) => {
                if pos < p2 <= t.len() {
                    lemma_sp_and_rest_end_bound(
                        t,
                        p2,
                        CondV::Op {
                            op: crate::parser::conditional::OperandType::And,
                            ls: Box::new(lv),
                            rs: Box::new(rv),
                        },
                    );
                }
            },
            Err(_) => {},
        }
    }
}

proof fn lemma_sp_or_rest_end_bound(t: Seq<TokenModel>, pos: int, lv: CondV)
    requires
        0 <= pos <= t.len(),
    ensures
        sp_or_rest(t, pos, lv) matches Ok(p) ==> pos <= p.1 <= t.len(),
    decreases t.len() - pos, 4int,
{
    if 0 <= pos < t.len() && t[pos].kind == TokenType::Or {
        match sp_and(t, pos + 1) {
            Ok((rv, p2)) => {
                if pos < p2 <= t.len() {
                    lemma_sp_or_rest_end_bound(
                        t,
                        p2,
                        CondV::Op {
                            op: crate::parser::conditional::OperandType::Or,
                            ls: Box::new(lv),
                            rs: Box::new(rv),
                        },
                    );
                }
            },
            Err(_) => {},
        }
    }
}

/// Pointwise equal condition texts and kinds give equal condition-clause
/// renderings.
proof fn lemma_join_cond_pointwise(s1: Seq<TokenModel>, s2: Seq<TokenModel>)
    requires
        s1.len() == s2.len(),
        forall|i: int| 0 <= i < s1.len() ==> s1[i].kind == s2[i].kind && cond_text(s1[i])
            == cond_text(s2[i]),
    ensures
        join_cond(s1) == join_cond(s2),
    decreases s1.len(),
{
    if s1.len() > 1 {
        lemma_join_cond_pointwise(s1.drop_last(), s2.drop_last());
        assert(cond_sep(s1[s1.len() - 2], s1.last()) == cond_sep(s2[s2.len() - 2], s2.last()));
    }
}
/// Related optional `limit` clauses: both absent, or both present with the
/// same count.
pub open spec fn rel_limit(a: Option<LimitV>, b: Option<LimitV>) -> bool {
    match (a, b) {
        (Option::None, Option::None) => true,
        (Option::Some(x), Option::Some(y)) => x.limit == y.limit,
        _ => false,
    }
}

/// Related optional post-processors: both absent, or both present with
/// related limits.
pub open spec fn rel_post(a: Option<PostV>, b: Option<PostV>) -> bool {
    match (a, b) {
        (Option::None, Option::None) => true,
        (Option::Some(x), Option::Some(y)) => rel_limit(x.limit, y.limit),
        _ => false,
    }
}

/// Related optional filters: both absent, or both present with the same
/// condition rendering.
pub open spec fn rel_filter(a: Option<FilterV>, b: Option<FilterV>) -> bool {
    match (a, b) {
        (Option::None, Option::None) => true,
        (Option::Some(x), Option::Some(y)) => x.condition.literal == y.condition.literal,
        _ => false,
    }
}

proof fn lemma_syn_ident_list(t1: Seq<TokenModel>, t2: Seq<TokenModel>, pos: int)
    requires
        syn_toks(t1, t2),
    ensures
        ({
            let r1 = sp_ident_list(t1, pos);
            let r2 = sp_ident_list(t2, pos);
            &&& (r1 is Ok <==> r2 is Ok)
            &&& (r1 matches Ok(p1) ==> (r2 matches Ok(p2) && p1 == p2 && pos < p1.1 <= t1.len()))
        }),
    decreases t1.len() - pos,
{
    if pos < 0 || pos >= t1.len() {
    } else {
        assert(syn_tok(t1[pos], t2[pos]));
        if t1[pos].kind == TokenType::Identifier {
            if pos + 1 < t1.len() {
                assert(syn_tok(t1[pos + 1], t2[pos + 1]));
            }
            if pos + 1 < t1.len() && (t1[pos + 1].kind == TokenType::And || t1[pos + 1].kind
                == TokenType::Comma) {
                lemma_syn_ident_list(t1, t2, pos + 2);
            }
        }
    }
}

proof fn lemma_syn_table(t1: Seq<TokenModel>, t2: Seq<TokenModel>, pos: int)
    requires
        syn_toks(t1, t2),
        0 <= pos,
    ensures
        ({
            let r1 = sp_table(t1, pos);
            let r2 = sp_table(t2, pos);
            &&& (r1 is Ok <==> r2 is Ok)
            &&& (r1 matches Ok(p1) ==> (r2 matches Ok(p2) && p1.1 == p2.1 && pos < p1.1
                <= t1.len() && p1.0.table_name == p2.0.table_name))
        }),
{
    if pos < t1.len() {
        assert(syn_tok(t1[pos], t2[pos]));
    }
    if pos + 1 < t1.len() {
        assert(syn_tok(t1[pos + 1], t2[pos + 1]));
    }
}

proof fn lemma_syn_columns(t1: Seq<TokenModel>, t2: Seq<TokenModel>, pos: int)
    requires
        syn_toks(t1, t2),
        0 <= pos,
    ensures
        ({
            let r1 = sp_columns(t1, pos);
            let r2 = sp_columns(t2, pos);
            &&& (r1 is Ok <==> r2 is Ok)
            &&& (r1 matches Ok(p1) ==> (r2 matches Ok(p2) && p1.1 == p2.1 && pos < p1.1
                <= t1.len() && p1.0.is_wildcard == p2.0.is_wildcard && p1.0.column_names
                == p2.0.column_names))
        }),
{
    if pos < t1.len() {
        assert(syn_tok(t1[pos], t2[pos]));
    }
    lemma_syn_ident_list(t1, t2, pos);
}

proof fn lemma_syn_filter(t1: Seq<TokenModel>, t2: Seq<TokenModel>, pos: int)
    requires
        syn_toks(t1, t2),
        0 <= pos,
    ensures
        ({
            let r1 = sp_filter(t1, pos);
            let r2 = sp_filter(t2, pos);
            &&& (r1 is Ok <==> r2 is Ok)
            &&& (r1 matches Ok(p1) ==> (r2 matches Ok(p2) && p1.1 == p2.1 && pos <= p1.1
                && rel_filter(p1.0, p2.0)))
        }),
{
    if pos < t1.len() {
        assert(syn_tok(t1[pos], t2[pos]));
    }
    if 0 <= pos < t1.len() && t1[pos].kind == TokenType::FilterKeyword {
        lemma_syn_condition(t1, t2, pos + 1);
    }
}

proof fn lemma_syn_limit(t1: Seq<TokenModel>, t2: Seq<TokenModel>, pos: int)
    requires
        syn_toks(t1, t2),
        0 <= pos,
    ensures
        ({
            let r1 = sp_limit(t1, pos);
            let r2 = sp_limit(t2, pos);
            &&& (r1 is Ok <==> r2 is Ok)
            &&& (r1 matches Ok(p1) ==> (r2 matches Ok(p2) && p1.1 == p2.1 && pos < p1.1
                <= t1.len() && p1.0.limit == p2.0.limit))
        }),
{
    if pos < t1.len() {
        assert(syn_tok(t1[pos], t2[pos]));
    }
}

proof fn lemma_syn_pp_items(
    t1: Seq<TokenModel>,
    t2: Seq<TokenModel>,
    pos: int,
    cur1: Option<LimitV>,
    cur2: Option<LimitV>,
)
    requires
        syn_toks(t1, t2),
        0 <= pos,
        rel_limit(cur1, cur2),
    ensures
        ({
            let r1 = sp_pp_items(t1, pos, cur1);
            let r2 = sp_pp_items(t2, pos, cur2);
            &&& (r1 is Ok <==> r2 is Ok)
            &&& (r1 matches Ok(p1) ==> (r2 matches Ok(p2) && p1.1 == p2.1 && pos <= p1.1
                < t1.len() && rel_limit(p1.0.limit, p2.0.limit)))
        }),
    decreases t1.len() - pos,
{
    if pos >= t1.len() {
    } else {
        assert(syn_tok(t1[pos], t2[pos]));
        if t1[pos].kind == TokenType::EoqToken {
        } else if t1[pos].kind == TokenType::And {
            lemma_syn_pp_items(t1, t2, pos + 1, cur1, cur2);
        } else if t1[pos].kind == TokenType::LimitKeyword {
            lemma_syn_limit(t1, t2, pos + 1);
            match sp_limit(t1, pos + 1) {
                Ok((lv1, p2)) => {
                    if pos < p2 <= t1.len() {
                        lemma_syn_pp_items(
                            t1,
                            t2,
                            p2,
                            Some(lv1),
                            Some(sp_limit(t2, pos + 1)->Ok_0.0),
                        );
                    }
                },
                Err(_) => {},
            }
        }
    }
}

proof fn lemma_syn_postprocessor(t1: Seq<TokenModel>, t2: Seq<TokenModel>, pos: int)
    requires
        syn_toks(t1, t2),
        0 <= pos,
    ensures
        ({
            let r1 = sp_postprocessor(t1, pos);
            let r2 = sp_postprocessor(t2, pos);
            &&& (r1 is Ok <==> r2 is Ok)
            &&& (r1 matches Ok(p1) ==> (r2 matches Ok(p2) && p1.1 == p2.1 && pos <= p1.1
                < t1.len() && rel_post(p1.0, p2.0)))
        }),
{
    if pos < t1.len() {
        assert(syn_tok(t1[pos], t2[pos]));
    }
    if 0 <= pos < t1.len() && t1[pos].kind == TokenType::PostProcessorEntrance {
        lemma_syn_pp_items(t1, t2, pos + 1, None, None);
    }
}

proof fn lemma_syn_get(t1: Seq<TokenModel>, t2: Seq<TokenModel>, pos: int)
    requires
        syn_toks(t1, t2),
        0 <= pos,
    ensures
        ({
            let r1 = sp_get(t1, pos);
            let r2 = sp_get(t2, pos);
            &&& (r1 is Ok <==> r2 is Ok)
            &&& (r1 matches Ok(p1) ==> (r2 matches Ok(p2) && p1.1 == p2.1 && sp_sql_get(p1.0)
                == sp_sql_get(p2.0)))
        }),
{
    if pos < t1.len() {
        lemma_syn_columns(t1, t2, pos);
        match sp_columns(t1, pos) {
            Err(_) => {},
            Ok((cols1, p1)) => {
                lemma_syn_table(t1, t2, p1);
                match sp_table(t1, p1) {
                    Err(_) => {},
                    Ok((tab1, p2)) => {
                        lemma_syn_filter(t1, t2, p2);
                        match sp_filter(t1, p2) {
                            Err(_) => {},
                            Ok((fil1, p3)) => {
                                lemma_syn_postprocessor(t1, t2, p3);
                                match sp_postprocessor(t1, p3) {
                                    Err(_) => {},
                                    Ok((post1, p4)) => {
                                        assert(syn_tok(t1[p4], t2[p4]));
                                    },
                                }
                            },
                        }
                    },
                }
            },
        }
    }
}
proof fn lemma_syn_database(
    t1: Seq<TokenModel>,
    t2: Seq<TokenModel>,
    pos: int,
    action: crate::parser::ImpliedAction,
)
    requires
        syn_toks(t1, t2),
        0 <= pos,
    ensures
        ({
            let r1 = sp_database(t1, pos, action);
            let r2 = sp_database(t2, pos, action);
            &&& (r1 is Ok <==> r2 is Ok)
            &&& (r1 matches Ok(p1) ==> (r2 matches Ok(p2) && p1.1 == p2.1 && sp_sql_db(p1.0)
                == sp_sql_db(p2.0)))
        }),
{
    if pos < t1.len() {
        assert(syn_tok(t1[pos], t2[pos]));
        if pos + 1 < t1.len() {
            assert(syn_tok(t1[pos + 1], t2[pos + 1]));
        }
        match action {
            crate::parser::ImpliedAction::Create => {
                match sp_create(t1, pos) {
                    Ok((cv, end)) => {
                        assert(syn_tok(t1[end], t2[end]));
                    },
                    Err(_) => {},
                }
            },
            crate::parser::ImpliedAction::Use => {
                match sp_use(t1, pos) {
                    Ok((uv, end)) => {
                        assert(syn_tok(t1[end], t2[end]));
                    },
                    Err(_) => {},
                }
            },
            crate::parser::ImpliedAction::Show => {
                match sp_show(t1, pos) {
                    Ok((sv, end)) => {
                        assert(syn_tok(t1[end], t2[end]));
                    },
                    Err(_) => {},
                }
            },
            crate::parser::ImpliedAction::Delete => {
                lemma_syn_ident_list(t1, t2, pos);
                match sp_destroy(t1, pos) {
                    Ok((dv, end)) => {
                        assert(syn_tok(t1[end], t2[end]));
                    },
                    Err(_) => {},
                }
            },
        }
    }
}
proof fn lemma_syn_query(t1: Seq<TokenModel>, t2: Seq<TokenModel>, pos: int)
    requires
        syn_toks(t1, t2),
        0 <= pos,
    ensures
        ({
            let r1 = sp_query(t1, pos);
            let r2 = sp_query(t2, pos);
            &&& (r1 is Ok <==> r2 is Ok)
            &&& (r1 matches Ok(p1) ==> (r2 matches Ok(p2) && sp_sql_query(p1.0) == sp_sql_query(
                p2.0,
            )))
        }),
{
    if pos < t1.len() {
        assert(syn_tok(t1[pos], t2[pos]));
        if t1[pos].kind == TokenType::Get {
            lemma_syn_get(t1, t2, pos + 1);
        } else if crate::parser::is_action_kind(t1[pos].kind) {
            if pos + 1 < t1.len() {
                assert(syn_tok(t1[pos + 1], t2[pos + 1]));
                if t1[pos + 1].kind == TokenType::Database {
                    match sp_implied_action(t1[pos].kind) {
                        Ok(a) => {
                            lemma_syn_database(t1, t2, pos + 2, a);
                        },
                        Err(_) => {},
                    }
                }
            }
        }
    }
}

proof fn lemma_syn_drop_nulls(t1: Seq<TokenModel>, t2: Seq<TokenModel>)
    requires
        syn_toks(t1, t2),
    ensures
        syn_toks(drop_nulls(t1), drop_nulls(t2)),
    decreases t1.len(),
{
    if t1.len() > 0 {
        assert(syn_tok(t1.last(), t2.last()));
        assert(syn_toks(t1.drop_last(), t2.drop_last())) by {
            assert forall|i: int| 0 <= i < t1.len() - 1 implies syn_tok(
                t1.drop_last()[i],
                t2.drop_last()[i],
            ) by {
                assert(syn_tok(t1[i], t2[i]));
            }
        }
        lemma_syn_drop_nulls(t1.drop_last(), t2.drop_last());
        if t1.last().kind != TokenType::NullToken {
            let d1 = drop_nulls(t1.drop_last());
            let d2 = drop_nulls(t2.drop_last());
            assert forall|i: int| 0 <= i < d1.push(t1.last()).len() implies syn_tok(
                d1.push(t1.last())[i],
                d2.push(t2.last())[i],
            ) by {
                if i < d1.len() {
                    assert(syn_tok(d1[i], d2[i]));
                }
            }
        }
    }
}

/// Synonym equivalence: two token sequences that differ only in the
/// surface forms of keyword tokens parse alike, and when they parse, they
/// produce identical SQL. Substituting one synonym of a keyword for
/// another in an otherwise identical query relates the queries' token
/// sequences exactly this way, so the substitution never changes the SQL
/// output.
pub proof fn lemma_synonym_equivalence(t1: Seq<TokenModel>, t2: Seq<TokenModel>)
    requires
        syn_toks(t1, t2),
    ensures
        (sp_parse(t1) is Ok) == (sp_parse(t2) is Ok),
        sp_parse(t1) matches Ok(q1) ==> (sp_parse(t2) matches Ok(q2) && sp_sql_query(q1)
            == sp_sql_query(q2)),
{
    lemma_syn_drop_nulls(t1, t2);
    lemma_syn_query(drop_nulls(t1), drop_nulls(t2), 0);
}

/// The end-of-query token a delimiter character scans to.
pub open spec fn eoq_model(d: char) -> TokenModel {
    TokenModel { kind: TokenType::EoqToken, literal: Seq::empty(), lexeme: seq![d] }
}

proof fn lemma_digits_end_append(q: Seq<char>, d: char, pos: int)
    requires
        !is_digit(d),
        0 <= pos <= q.len(),
    ensures
        digits_end(q.push(d), pos) == digits_end(q, pos),
    decreases q.len() - pos,
{
    let q2 = q.push(d);
    if pos < q.len() {
        assert(q2[pos] == q[pos]);
        if is_digit(q[pos]) {
            lemma_digits_end_append(q, d, pos + 1);
        }
    } else {
        assert(q2[pos] == d);
    }
}

proof fn lemma_ident_end_append(q: Seq<char>, d: char, pos: int)
    requires
        is_stop_char(d),
        0 <= pos <= q.len(),
    ensures
        ident_end(q.push(d), pos) == ident_end(q, pos),
    decreases q.len() - pos,
{
    let q2 = q.push(d);
    if pos < q.len() {
        assert(q2[pos] == q[pos]);
        if !is_stop_char(q[pos]) {
            lemma_ident_end_append(q, d, pos + 1);
        }
    } else {
        assert(q2[pos] == d);
    }
}

proof fn lemma_quote_pos_append(q: Seq<char>, d: char, pos: int)
    requires
        d != '"',
        0 <= pos,
    ensures
        quote_pos(q.push(d), pos) == quote_pos(q, pos),
    decreases q.len() + 1 - pos,
{
    let q2 = q.push(d);
    if pos < q.len() {
        assert(q2[pos] == q[pos]);
        if q[pos] != '"' {
            lemma_quote_pos_append(q, d, pos + 1);
        }
    } else if pos == q.len() {
        assert(q2[pos] == d);
        assert(quote_pos(q2, pos + 1) is None);
        assert(quote_pos(q, pos) is None);
    } else {
        assert(quote_pos(q2, pos) is None);
        assert(quote_pos(q, pos) is None);
    }
}

/// Appending a delimiter character does not change the token scanned at
/// any earlier position, as long as that token is not an unterminated
/// string fragment.
proof fn lemma_scan_step_append(q: Seq<char>, d: char, pos: int)
    requires
        is_eoq_char(d),
        0 <= pos < q.len(),
        scan_step(q, pos).token.kind != TokenType::UnknownToken,
    ensures
        scan_step(q.push(d), pos) == scan_step(q, pos),
        pos < scan_step(q, pos).end <= q.len(),
{
    let q2 = q.push(d);
    lemma_scan_step_progress(q, pos);
    let c = q[pos];
    assert(q2[pos] == c);
    assert(!is_digit(d));
    assert(d != '=' && d != '"');
    if is_single_char(c) {
    } else if is_op_char(c) {
        if c != '=' {
            let end = scan_step(q, pos).end;
            if pos + 1 < q.len() {
                assert(q2[pos + 1] == q[pos + 1]);
            } else {
                assert(q2[pos + 1] == d);
            }
            assert(q2.subrange(pos, end) =~= q.subrange(pos, end));
        }
    } else if c == ' ' {
    } else if is_digit(c) || (c == '-' && pos + 1 < q.len() && is_digit(q[pos + 1])) {
        if pos + 1 < q.len() {
            assert(q2[pos + 1] == q[pos + 1]);
        } else {
            assert(q2[pos + 1] == d);
        }
        let p1: int = if c == '-' {
            pos + 1
        } else {
            pos
        };
        lemma_digits_end(q, p1);
        lemma_digits_end_append(q, d, p1);
        let p2 = digits_end(q, p1);
        if p2 < q.len() {
            assert(q2[p2] == q[p2]);
            if p2 + 1 < q.len() {
                assert(q2[p2 + 1] == q[p2 + 1]);
            } else {
                assert(q2[p2 + 1] == d);
            }
            if p2 + 1 < q.len() && q[p2] == '.' && is_digit(q[p2 + 1]) {
                lemma_digits_end_append(q, d, p2 + 1);
                lemma_digits_end(q, p2 + 1);
            }
        } else {
            assert(q2[p2] == d);
        }
        assert(number_end(q2, pos) == number_end(q, pos));
        let end = number_end(q, pos);
        assert(q2.subrange(pos, end) =~= q.subrange(pos, end));
    } else if c == '"' {
        lemma_quote_pos_append(q, d, pos + 1);
        match quote_pos(q, pos + 1) {
            Some(j) => {
                lemma_quote_pos(q, pos + 1);
                assert(q2.subrange(pos + 1, j) =~= q.subrange(pos + 1, j));
                assert(q2.subrange(pos, j + 1) =~= q.subrange(pos, j + 1));
            },
            None => {
                assert(false);
            },
        }
    } else {
        assert(is_stop_char(d));
        lemma_ident_end(q, pos);
        lemma_ident_end_append(q, d, pos);
        let end = ident_end(q, pos);
        assert(q2.subrange(pos, end) =~= q.subrange(pos, end));
    }
}

/// Appending a delimiter character appends exactly one end-of-query token
/// to the raw scan, as long as the scan does not end in an unterminated
/// string fragment.
proof fn lemma_tokenize_append(q: Seq<char>, d: char, pos: int)
    requires
        is_eoq_char(d),
        0 <= pos <= q.len(),
        tokenize_raw(q, pos).len() == 0 || tokenize_raw(q, pos).last().kind
            != TokenType::UnknownToken,
    ensures
        tokenize_raw(q.push(d), pos) == tokenize_raw(q, pos).push(eoq_model(d)),
    decreases q.len() - pos,
{
    let q2 = q.push(d);
    if pos == q.len() {
        assert(q2[pos] == d);
        assert(is_single_char(d));
        assert(single_kind(d) == TokenType::EoqToken);
        assert(scan_step(q2, pos).token == eoq_model(d));
        assert(scan_step(q2, pos).end == pos + 1);
        assert(tokenize_raw(q2, pos + 1) =~= Seq::<TokenModel>::empty());
        assert(tokenize_raw(q, pos) =~= Seq::<TokenModel>::empty());
        assert(tokenize_raw(q2, pos) =~= seq![eoq_model(d)] + Seq::<TokenModel>::empty());
        assert(tokenize_raw(q2, pos) =~= tokenize_raw(q, pos).push(eoq_model(d)));
    } else {
        lemma_scan_step_progress(q, pos);
        let st = scan_step(q, pos);
        assert(st.token.kind != TokenType::UnknownToken) by {
            if st.token.kind == TokenType::UnknownToken {
                assert(st.end == q.len());
                assert(tokenize_raw(q, q.len() as int) =~= Seq::<TokenModel>::empty());
                assert(tokenize_raw(q, pos) =~= seq![st.token]);
            }
        }
        lemma_scan_step_append(q, d, pos);
        if tokenize_raw(q, st.end).len() > 0 {
            assert(tokenize_raw(q, pos).last() == tokenize_raw(q, st.end).last());
        }
        lemma_tokenize_append(q, d, st.end);
        assert(tokenize_raw(q2, pos) =~= tokenize_raw(q, pos).push(eoq_model(d)));
    }
}

/// When the raw scan ends in an unterminated string fragment, appending a
/// delimiter character only extends that fragment: the scan still ends in
/// an `UnknownToken`.
proof fn lemma_tokenize_append_unterminated(q: Seq<char>, d: char, pos: int)
    requires
        is_eoq_char(d),
        0 <= pos <= q.len(),
        tokenize_raw(q, pos).len() > 0,
        tokenize_raw(q, pos).last().kind == TokenType::UnknownToken,
    ensures
        tokenize_raw(q.push(d), pos).len() > 0,
        tokenize_raw(q.push(d), pos).last().kind == TokenType::UnknownToken,
    decreases q.len() - pos,
{
    let q2 = q.push(d);
    assert(pos < q.len());
    lemma_scan_step_progress(q, pos);
    let st = scan_step(q, pos);
    if st.token.kind == TokenType::UnknownToken {
        assert(st.end == q.len());
        assert(q2[pos] == q[pos]);
        lemma_quote_pos_append(q, d, pos + 1);
        assert(scan_step(q2, pos).token.kind == TokenType::UnknownToken);
        assert(scan_step(q2, pos).end == q2.len() as int);
        assert(tokenize_raw(q2, q2.len() as int) =~= Seq::<TokenModel>::empty());
        assert(tokenize_raw(q2, pos) =~= seq![scan_step(q2, pos).token]);
    } else {
        lemma_scan_step_append(q, d, pos);
        assert(tokenize_raw(q, st.end).len() > 0) by {
            if tokenize_raw(q, st.end).len() == 0 {
                assert(tokenize_raw(q, pos) =~= seq![st.token]);
            }
        }
        assert(tokenize_raw(q, pos).last() == tokenize_raw(q, st.end).last());
        lemma_tokenize_append_unterminated(q, d, st.end);
        assert(tokenize_raw(q2, pos).last() == tokenize_raw(q2, st.end).last());
    }
}

/// Stripping whitespace keeps the last token when it is not whitespace.
proof fn lemma_drop_ws_last(s: Seq<TokenModel>)
    requires
        s.len() > 0,
        s.last().kind != TokenType::WhitespaceToken,
    ensures
        drop_ws(s).len() > 0,
        drop_ws(s).last() == s.last(),
{
    assert(drop_ws(s) == drop_ws(s.drop_last()).push(s.last()));
}

proof fn lemma_drop_ws_push(s: Seq<TokenModel>, e: TokenModel)
    requires
        e.kind != TokenType::WhitespaceToken,
    ensures
        drop_ws(s.push(e)) == drop_ws(s).push(e),
{
    assert(s.push(e).drop_last() =~= s);
}

/// The three end-of-query delimiters are interchangeable: appending any
/// one of `.`, `!` or `;` to a query body yields a query that processes
/// exactly when the others do, and all three produce identical SQL. (A
/// body whose scan ends in an unterminated string fragment is invalid
/// under every delimiter, since the appended character only extends the
/// fragment.)
pub proof fn lemma_delimiters_interchangeable(q: Seq<char>, d1: char, d2: char)
    requires
        is_eoq_char(d1),
        is_eoq_char(d2),
    ensures
        (sp_process(q.push(d1)) is Some) == (sp_process(q.push(d2)) is Some),
        sp_process(q.push(d1)) matches Some(v1) ==> (sp_process(q.push(d2)) matches Some(v2)
            && sp_sql_query(v1) == sp_sql_query(v2)),
{
    if tokenize_raw(q, 0).len() > 0 && tokenize_raw(q, 0).last().kind
        == TokenType::UnknownToken {
        lemma_tokenize_append_unterminated(q, d1, 0);
        lemma_tokenize_append_unterminated(q, d2, 0);
        lemma_drop_ws_last(tokenize_raw(q.push(d1), 0));
        lemma_drop_ws_last(tokenize_raw(q.push(d2), 0));
        lemma_missing_delimiter(q.push(d1));
        lemma_missing_delimiter(q.push(d2));
    } else {
        lemma_tokenize_append(q, d1, 0);
        lemma_tokenize_append(q, d2, 0);
        lemma_drop_ws_push(tokenize_raw(q, 0), eoq_model(d1));
        lemma_drop_ws_push(tokenize_raw(q, 0), eoq_model(d2));
        let base = spec_tokens(q);
        let toks1 = base.push(eoq_model(d1));
        let toks2 = base.push(eoq_model(d2));
        assert(spec_tokens(q.push(d1)) == toks1);
        assert(spec_tokens(q.push(d2)) == toks2);
        assert(syn_toks(toks1, toks2)) by {
            assert forall|i: int| 0 <= i < toks1.len() implies syn_tok(toks1[i], toks2[i]) by {
                if i < base.len() {
                    assert(toks1[i] == base[i]);
                    assert(toks2[i] == base[i]);
                } else {
                    assert(toks1[i] == eoq_model(d1));
                    assert(toks2[i] == eoq_model(d2));
                }
            }
        }
        lemma_synonym_equivalence(toks1, toks2);
        assert(toks1.last() == eoq_model(d1));
        assert(toks2.last() == eoq_model(d2));
    }
}

} // verus!
