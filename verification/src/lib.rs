//! EAQL: a small controlled-English query language that compiles to SQL.
//!
//! The pipeline is: lexer (string to tokens), parser (tokens to a typed
//! abstract syntax tree), and generator (tree to SQL text plus a "reduced
//! query" echo of the understood source). Each stage is specified against
//! a mathematical model of the language — `lexer::spec_tokens` for
//! scanning, `parser::sp_query` for the grammar, `parser::sp_sql_query`
//! and friends for generation — and the executable code is verified to
//! compute exactly those functions.

pub mod colors;
pub mod laws;
pub mod lexer;
pub mod parser;
pub mod tokens;
pub mod transpiler;
pub mod validator;

use vstd::prelude::*;

use crate::lexer::{scan_tokens, spec_tokens};
use crate::parser::{parse, sp_parse, Query, QueryV};
use crate::tokens::{token_views, TokenType};

verus! {

/// What processing a query string yields: the parsed query, provided the
/// token stream is non-empty, ends on an end-of-query token, and parses;
/// nothing otherwise.
pub open spec fn sp_process(q: Seq<char>) -> Option<QueryV> {
    let toks = spec_tokens(q);
    if toks.len() == 0 {
        None
    } else if toks.last().kind != TokenType::EoqToken {
        None
    } else {
        match sp_parse(toks) {
            Ok(qv) => Some(qv),
            Err(_) => None,
        }
    }
}

/// Processes one query string into its abstract syntax tree: tokenizes,
/// requires the final token to be the end-of-query delimiter, and parses.
/// Returns the tree exactly when `sp_process` yields one.
pub fn process_query(query: &String) -> (r: Option<Query>)
    ensures
        sp_process(query@) matches Some(qv) ==> r matches Some(ast) && ast@ == qv,
        sp_process(query@) is None ==> r is None,
{
    let lexer = match scan_tokens(query) {
        Ok(l) => l,
        Err(_) => {
            return None;
        },
    };
    let tokens = lexer.tokens;
    if tokens.len() != 0 && (&tokens[tokens.len() - 1]).token_type != TokenType::EoqToken {
        return None;
    }
    proof {
        if tokens@.len() > 0 {
            assert(token_views(tokens@).last() == tokens@[tokens@.len() - 1]@);
        }
    }
    match parse(&tokens) {
        Ok(ast) => Some(ast),
        Err(_) => None,
    }
}

} // verus!
