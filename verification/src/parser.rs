//! The statement parser: turns the lexer's token sequence into a typed
//! abstract syntax tree. A query is exactly one of two statement families:
//! a data-retrieval `get` statement, or a database lifecycle statement
//! entered by an action keyword (create / delete / use / show) followed by
//! a `database`-like keyword. Filler (`NullToken`) tokens carry no meaning
//! and are discarded before the grammar rules run.

pub mod conditional;
pub mod database;
pub mod get;
pub mod helpers;
pub mod postprocessor;

use vstd::prelude::*;
use vstd::string::*;

use crate::parser::database::{
    sp_database, sp_echo_color_db, sp_echo_db, sp_sql_color_db, sp_sql_db, DatabaseNode,
    DatabaseNodeV,
};
use crate::parser::get::{
    sp_echo_color_get, sp_echo_get, sp_get, sp_sql_color_get, sp_sql_get, GetNode, GetV,
};
use crate::parser::helpers::{sp_valid_len_msg, valid_len_error};
use crate::tokens::{token_views, Token, TokenModel, TokenType};

verus! {

/// The database action implied by a statement's leading keyword.
#[derive(Debug, Clone, Copy, PartialEq, Eq, Structural)]
pub enum ImpliedAction {
    Use,
    Delete,
    Create,
    Show,
}

/// A parsed query: exactly one of the two statement families.
#[derive(Debug)]
pub enum QueryKind {
    Get(GetNode),
    Database(DatabaseNode),
}

/// The abstract syntax tree of one query.
#[derive(Debug)]
pub struct Query {
    pub kind: QueryKind,
}

/// The model of a parsed query.
pub enum QueryV {
    Get(GetV),
    Database(DatabaseNodeV),
}

impl View for QueryKind {
    type V = QueryV;

    open spec fn view(&self) -> QueryV {
        match self {
            QueryKind::Get(g) => QueryV::Get(g@),
            QueryKind::Database(d) => QueryV::Database(d@),
        }
    }
}

impl View for Query {
    type V = QueryV;

    open spec fn view(&self) -> QueryV {
        self.kind@
    }
}

/// The diagnostic for an action keyword that implies no database action.
pub open spec fn msg_invalid_action() -> Seq<char> {
    "Invalid action token type encountered!"@
}

/// The diagnostic for an action keyword followed by an invalid target.
pub open spec fn msg_invalid_target() -> Seq<char> {
    "Query received an action keyword, but received an invalid target keyword. Valid targets are: `Database`"@
}

/// The diagnostic for a query whose leading token selects no statement
/// family.
pub open spec fn msg_no_action() -> Seq<char> {
    "Couldn't determine requested action. Please review documentation for valid query actions."@
}

/// The database action a token kind implies.
pub open spec fn sp_implied_action(k: TokenType) -> Result<ImpliedAction, Seq<char>> {
    if k == TokenType::CreateKeyword {
        Ok(ImpliedAction::Create)
    } else if k == TokenType::DeleteKeyword {
        Ok(ImpliedAction::Delete)
    } else if k == TokenType::ShowKeyword {
        Ok(ImpliedAction::Show)
    } else if k == TokenType::UseKeyword {
        Ok(ImpliedAction::Use)
    } else {
        Err(msg_invalid_action())
    }
}

impl ImpliedAction {
    /// The database action a token kind implies.
    pub fn try_from(value: TokenType) -> (r: Result<ImpliedAction, String>)
        ensures
            ({
                let sp = sp_implied_action(value);
                &&& (sp matches Ok(a) ==> r matches Ok(b) && a == b)
                &&& (sp matches Err(m) ==> r matches Err(s) && s@ == m)
            }),
    {
        match value {
            TokenType::CreateKeyword => Ok(ImpliedAction::Create),
            TokenType::DeleteKeyword => Ok(ImpliedAction::Delete),
            TokenType::ShowKeyword => Ok(ImpliedAction::Show),
            TokenType::UseKeyword => Ok(ImpliedAction::Use),
            _ => Err("Invalid action token type encountered!".to_owned()),
        }
    }
}

/// The keywords that start a database lifecycle statement.
pub open spec fn is_action_kind(k: TokenType) -> bool {
    k == TokenType::CreateKeyword || k == TokenType::DeleteKeyword || k == TokenType::UseKeyword
        || k == TokenType::ShowKeyword
}

/// Parses one query at `pos`: a `get` statement, or an action keyword
/// followed by a `database`-like keyword and the database statement.
pub open spec fn sp_query(t: Seq<TokenModel>, pos: int) -> Result<(QueryV, int), Seq<char>> {
    if pos >= t.len() {
        Err(sp_valid_len_msg(t.subrange(0, pos)))
    } else if t[pos].kind == TokenType::Get {
        match sp_get(t, pos + 1) {
            Err(e) => Err(e),
            Ok((g, end)) => Ok((QueryV::Get(g), end)),
        }
    } else if is_action_kind(t[pos].kind) {
        if pos + 1 >= t.len() {
            Err(sp_valid_len_msg(t.subrange(0, pos + 1)))
        } else if t[pos + 1].kind == TokenType::Database {
            match sp_implied_action(t[pos].kind) {
                Err(e) => Err(e),
                Ok(a) => match sp_database(t, pos + 2, a) {
                    Err(e) => Err(e),
                    Ok((d, end)) => Ok((QueryV::Database(d), end)),
                },
            }
        } else {
            Err(msg_invalid_target())
        }
    } else {
        Err(msg_no_action())
    }
}

/// A token sequence with all filler (`NullToken`) tokens removed, order
/// kept.
pub open spec fn drop_nulls(s: Seq<TokenModel>) -> Seq<TokenModel>
    decreases s.len(),
{
    if s.len() == 0 {
        Seq::empty()
    } else if s.last().kind == TokenType::NullToken {
        drop_nulls(s.drop_last())
    } else {
        drop_nulls(s.drop_last()).push(s.last())
    }
}

/// What parsing a token sequence yields: the query parsed from the
/// sequence with filler tokens discarded.
pub open spec fn sp_parse(vs: Seq<TokenModel>) -> Result<QueryV, Seq<char>> {
    match sp_query(drop_nulls(vs), 0) {
        Ok((q, _)) => Ok(q),
        Err(m) => Err(m),
    }
}

/// Copies `tokens` with all filler (`NullToken`) tokens removed.
fn strip_null_tokens(tokens: &Vec<Token>) -> (r: Vec<Token>)
    ensures
        token_views(r@) == drop_nulls(token_views(tokens@)),
{
    let mut out: Vec<Token> = Vec::new();
    let mut i: usize = 0;
    proof {
        assert(token_views(tokens@.subrange(0, 0)) =~= Seq::<TokenModel>::empty());
        assert(token_views(Seq::<Token>::empty()) =~= Seq::<TokenModel>::empty());
    }
    while i < tokens.len()
        invariant
            i <= tokens@.len(),
            token_views(out@) == drop_nulls(token_views(tokens@.subrange(0, i as int))),
        decreases tokens@.len() - i,
    {
        let tk: &Token = &tokens[i];
        let ghost old_out = out@;
        if tk.token_type != TokenType::NullToken {
            out.push(Token::new(tk.token_type, &tk.literal, &tk.lexeme));
        }
        proof {
            let pre = token_views(tokens@.subrange(0, i as int));
            let cur = token_views(tokens@.subrange(0, i as int + 1));
            assert(cur.drop_last() =~= pre);
            assert(cur.last() == tokens@[i as int]@);
            if tk.token_type != TokenType::NullToken {
                assert(token_views(out@) =~= token_views(old_out).push(tokens@[i as int]@));
            }
        }
        i += 1;
    }
    proof {
        assert(tokens@.subrange(0, tokens@.len() as int) =~= tokens@);
    }
    out
}

impl Query {
    /// Parses one query at `*idx` of an already filler-free token
    /// sequence.
    pub fn parse(tokens: &Vec<Token>, idx: &mut usize) -> (r: Result<Query, String>)
        requires
            *old(idx) <= tokens@.len(),
        ensures
            ({
                let sp = sp_query(token_views(tokens@), *old(idx) as int);
                &&& (sp matches Ok(p) ==> r matches Ok(q) && q@ == p.0 && *final(idx) as int
                    == p.1 && *old(idx) <= *final(idx) < tokens@.len())
                &&& (sp matches Err(m) ==> r matches Err(s) && s@ == m)
            }),
    {
        if *idx >= tokens.len() {
            return Err(valid_len_error(tokens, *idx));
        }
        let k = (&tokens[*idx]).token_type;
        if k == TokenType::Get {
            *idx += 1;
            match GetNode::parse(tokens, idx) {
                Ok(g) => Ok(Query { kind: QueryKind::Get(g) }),
                Err(e) => Err(e),
            }
        } else if k == TokenType::CreateKeyword || k == TokenType::DeleteKeyword || k
            == TokenType::UseKeyword || k == TokenType::ShowKeyword {
            if *idx + 1 >= tokens.len() {
                return Err(valid_len_error(tokens, *idx + 1));
            }
            if (&tokens[*idx + 1]).token_type == TokenType::Database {
                let action = match ImpliedAction::try_from(k) {
                    Ok(a) => a,
                    Err(e) => {
                        return Err(e);
                    },
                };
                *idx += 2;
                match DatabaseNode::parse(tokens, idx, action) {
                    Ok(d) => Ok(Query { kind: QueryKind::Database(d) }),
                    Err(e) => Err(e),
                }
            } else {
                Err(
                    "Query received an action keyword, but received an invalid target keyword. Valid targets are: `Database`".to_owned(),
                )
            }
        } else {
            Err(
                "Couldn't determine requested action. Please review documentation for valid query actions.".to_owned(),
            )
        }
    }

    /// The plain echo and SQL of the query, without the trailing `;`.
    pub fn transpile(&self) -> (r: (String, String))
        ensures
            r.0@ == sp_echo_query(self@),
            r.1@ == sp_sql_query(self@),
    {
        match &self.kind {
            QueryKind::Get(g) => g.transpile(),
            QueryKind::Database(d) => d.transpile(),
        }
    }

    /// The colorized echo and SQL of the query.
    pub fn transpile_color(&self) -> (r: (String, String))
        ensures
            r.0@ == sp_echo_color_query(self@),
            r.1@ == sp_sql_color_query(self@),
    {
        match &self.kind {
            QueryKind::Get(g) => g.transpile_color(),
            QueryKind::Database(d) => d.transpile_color(),
        }
    }

    /// The raw SQL of the query, without the trailing `;`.
    pub fn transpile_raw(&self) -> (r: String)
        ensures
            r@ == sp_sql_query(self@),
    {
        match &self.kind {
            QueryKind::Get(g) => g.transpile_raw(),
            QueryKind::Database(d) => d.transpile_raw(),
        }
    }
}

/// The SQL of a query, without the trailing `;`.
pub open spec fn sp_sql_query(q: QueryV) -> Seq<char> {
    match q {
        QueryV::Get(g) => sp_sql_get(g),
        QueryV::Database(d) => sp_sql_db(d),
    }
}

/// The echo of a query: the source slices of what the parser understood.
pub open spec fn sp_echo_query(q: QueryV) -> Seq<char> {
    match q {
        QueryV::Get(g) => sp_echo_get(g),
        QueryV::Database(d) => sp_echo_db(d),
    }
}

/// The colorized SQL of a query.
pub open spec fn sp_sql_color_query(q: QueryV) -> Seq<char> {
    match q {
        QueryV::Get(g) => sp_sql_color_get(g),
        QueryV::Database(d) => sp_sql_color_db(d),
    }
}

/// The colorized echo of a query.
pub open spec fn sp_echo_color_query(q: QueryV) -> Seq<char> {
    match q {
        QueryV::Get(g) => sp_echo_color_get(g),
        QueryV::Database(d) => sp_echo_color_db(d),
    }
}

/// The main parsing interface: discards filler tokens, then parses one
/// query from the front of the sequence.
pub fn parse(tokens: &Vec<Token>) -> (r: Result<Query, String>)
    ensures
        ({
            let sp = sp_parse(token_views(tokens@));
            &&& (sp matches Ok(qv) ==> r matches Ok(q) && q@ == qv)
            &&& (sp matches Err(m) ==> r matches Err(s) && s@ == m)
        }),
{
    let filtered = strip_null_tokens(tokens);
    let mut idx: usize = 0;
    match Query::parse(&filtered, &mut idx) {
        Ok(q) => Ok(q),
        Err(e) => Err(e),
    }
}

} // verus!
