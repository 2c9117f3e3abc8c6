//! The database lifecycle statements: create, destroy (drop), use and
//! show. Each is entered after an action keyword followed by a
//! `database`-like keyword, takes its operands, and must end exactly on an
//! end-of-query token.

use vstd::prelude::*;
use vstd::string::*;

use crate::colors::{colorize, sp_colorize, AnsiColor};
use crate::parser::helpers::{
    build_ident_list, join_lex, join_lexemes, join_strings, join_with, msg_expected_eoq,
    sp_ident_list, sp_valid_len_msg, string_views, valid_len_error,
};
use crate::parser::ImpliedAction;
use crate::tokens::{token_views, Token, TokenModel, TokenType};

verus! {

/// A parsed `show databases` operation; it has no operands.
#[derive(Debug, PartialEq)]
pub struct ShowNode {}

/// A parsed destroy operation: the ordered non-empty list of database
/// names to drop.
#[derive(Debug, PartialEq)]
pub struct DestroyNode {
    pub databases: Vec<String>,
    pub literal: String,
}

/// A parsed create operation: the database name.
#[derive(Debug, PartialEq)]
pub struct CreateNode {
    pub name: String,
    pub literal: String,
}

/// A parsed use operation: the database name.
#[derive(Debug, PartialEq)]
pub struct UseNode {
    pub name: String,
    pub literal: String,
}

/// Exactly one database operation; the variant type makes one-of-four a
/// property of the type rather than a convention over optional fields.
#[derive(Debug, PartialEq)]
pub enum DatabaseOp {
    Create(CreateNode),
    Destroy(DestroyNode),
    Use(UseNode),
    Show(ShowNode),
}

/// A parsed database statement: its operation and the source slice of the
/// introducing keywords (action keyword and `database` keyword).
#[derive(Debug, PartialEq)]
pub struct DatabaseNode {
    pub op: DatabaseOp,
    pub literal: String,
}

pub struct ShowV {}

pub struct DestroyV {
    pub databases: Seq<Seq<char>>,
    pub literal: Seq<char>,
}

pub struct CreateV {
    pub name: Seq<char>,
    pub literal: Seq<char>,
}

pub struct UseV {
    pub name: Seq<char>,
    pub literal: Seq<char>,
}

pub enum DbOpV {
    Create(CreateV),
    Destroy(DestroyV),
    Use(UseV),
    Show(ShowV),
}

pub struct DatabaseNodeV {
    pub op: DbOpV,
    pub literal: Seq<char>,
}

impl View for ShowNode {
    type V = ShowV;

    open spec fn view(&self) -> ShowV {
        ShowV {  }
    }
}

impl View for DestroyNode {
    type V = DestroyV;

    open spec fn view(&self) -> DestroyV {
        DestroyV { databases: string_views(self.databases@), literal: self.literal@ }
    }
}

impl View for CreateNode {
    type V = CreateV;

    open spec fn view(&self) -> CreateV {
        CreateV { name: self.name@, literal: self.literal@ }
    }
}

impl View for UseNode {
    type V = UseV;

    open spec fn view(&self) -> UseV {
        UseV { name: self.name@, literal: self.literal@ }
    }
}

impl View for DatabaseOp {
    type V = DbOpV;

    open spec fn view(&self) -> DbOpV {
        match self {
            DatabaseOp::Create(c) => DbOpV::Create(c@),
            DatabaseOp::Destroy(d) => DbOpV::Destroy(d@),
            DatabaseOp::Use(u) => DbOpV::Use(u@),
            DatabaseOp::Show(s) => DbOpV::Show(s@),
        }
    }
}

impl View for DatabaseNode {
    type V = DatabaseNodeV;

    open spec fn view(&self) -> DatabaseNodeV {
        DatabaseNodeV { op: self.op@, literal: self.literal@ }
    }
}

/// The diagnostic when a database name is not an identifier.
pub open spec fn msg_expected_identifier() -> Seq<char> {
    "Expected identifier, got another token instead!"@
}

/// The diagnostic when the database name list is malformed.
pub open spec fn msg_database_list() -> Seq<char> {
    "Something went wrong parsing database names, make sure they're in a valid list notation."@
}

/// Parses the operand of a create operation: exactly one identifier,
/// which may not be the last token.
pub open spec fn sp_create(t: Seq<TokenModel>, pos: int) -> Result<(CreateV, int), Seq<char>> {
    if pos >= t.len() {
        Err(sp_valid_len_msg(t.subrange(0, pos)))
    } else if t[pos].kind != TokenType::Identifier {
        Err(msg_expected_identifier())
    } else if pos + 1 >= t.len() {
        Err(sp_valid_len_msg(t.subrange(0, pos + 1)))
    } else {
        Ok((CreateV { name: t[pos].literal, literal: t[pos].lexeme }, pos + 1))
    }
}

/// Parses the operand of a use operation: exactly one identifier, which
/// may not be the last token.
pub open spec fn sp_use(t: Seq<TokenModel>, pos: int) -> Result<(UseV, int), Seq<char>> {
    if pos >= t.len() {
        Err(sp_valid_len_msg(t.subrange(0, pos)))
    } else if t[pos].kind != TokenType::Identifier {
        Err(msg_expected_identifier())
    } else if pos + 1 >= t.len() {
        Err(sp_valid_len_msg(t.subrange(0, pos + 1)))
    } else {
        Ok((UseV { name: t[pos].literal, literal: t[pos].lexeme }, pos + 1))
    }
}

/// Parses the operands of a destroy operation: a comma/`and`-delimited
/// non-empty list of identifiers, which may not end the token sequence.
pub open spec fn sp_destroy(t: Seq<TokenModel>, pos: int) -> Result<(DestroyV, int), Seq<char>> {
    if pos >= t.len() {
        Err(sp_valid_len_msg(t.subrange(0, pos)))
    } else {
        match sp_ident_list(t, pos) {
            Err(_) => Err(msg_database_list()),
            Ok((ns, end)) => if end >= t.len() {
                Err(sp_valid_len_msg(t.subrange(0, end)))
            } else {
                Ok((DestroyV { databases: ns, literal: join_lex(t.subrange(pos, end)) }, end))
            },
        }
    }
}

/// Parses the operands of a show operation: none.
pub open spec fn sp_show(t: Seq<TokenModel>, pos: int) -> Result<(ShowV, int), Seq<char>> {
    if pos >= t.len() {
        Err(sp_valid_len_msg(t.subrange(0, pos)))
    } else {
        Ok((ShowV {  }, pos))
    }
}

/// Parses a database statement at `pos` (the action keyword stands at
/// `pos - 2` and the `database` keyword at `pos - 1`); the statement must
/// end exactly on an end-of-query token, which is not consumed.
pub open spec fn sp_database(t: Seq<TokenModel>, pos: int, action: ImpliedAction) -> Result<
    (DatabaseNodeV, int),
    Seq<char>,
> {
    if pos >= t.len() {
        Err(sp_valid_len_msg(t.subrange(0, pos)))
    } else {
        let literal = join_lex(t.subrange(pos - 2, pos));
        let op_result: Result<(DbOpV, int), Seq<char>> = match action {
            ImpliedAction::Create => match sp_create(t, pos) {
                Err(e) => Err(e),
                Ok((cv, end)) => Ok((DbOpV::Create(cv), end)),
            },
            ImpliedAction::Delete => match sp_destroy(t, pos) {
                Err(e) => Err(e),
                Ok((dv, end)) => Ok((DbOpV::Destroy(dv), end)),
            },
            ImpliedAction::Use => match sp_use(t, pos) {
                Err(e) => Err(e),
                Ok((uv, end)) => Ok((DbOpV::Use(uv), end)),
            },
            ImpliedAction::Show => match sp_show(t, pos) {
                Err(e) => Err(e),
                Ok((sv, end)) => Ok((DbOpV::Show(sv), end)),
            },
        };
        match op_result {
            Err(e) => Err(e),
            Ok((op, end)) => if end < t.len() && t[end].kind == TokenType::EoqToken {
                Ok((DatabaseNodeV { op, literal }, end))
            } else {
                Err(msg_expected_eoq())
            },
        }
    }
}

/// The canonical SQL prefix of a database operation.
pub open spec fn sp_db_prefix(op: DbOpV) -> Seq<char> {
    match op {
        DbOpV::Create(_) => "CREATE DATABASE "@,
        DbOpV::Destroy(_) => "DROP DATABASE "@,
        DbOpV::Use(_) => "USE DATABASE "@,
        DbOpV::Show(_) => "SHOW DATABASES"@,
    }
}

/// The SQL operand text of a database operation.
pub open spec fn sp_db_op_sql(op: DbOpV) -> Seq<char> {
    match op {
        DbOpV::Create(c) => c.name,
        DbOpV::Destroy(d) => join_with(d.databases, ", "@),
        DbOpV::Use(u) => u.name,
        DbOpV::Show(_) => Seq::empty(),
    }
}

/// The echo operand text of a database operation: its source slice.
pub open spec fn sp_db_op_echo(op: DbOpV) -> Seq<char> {
    match op {
        DbOpV::Create(c) => c.literal,
        DbOpV::Destroy(d) => d.literal,
        DbOpV::Use(u) => u.literal,
        DbOpV::Show(_) => Seq::empty(),
    }
}

/// The SQL of a database statement, without the trailing `;`.
pub open spec fn sp_sql_db(d: DatabaseNodeV) -> Seq<char> {
    sp_db_prefix(d.op) + sp_db_op_sql(d.op)
}

/// The echo of a database statement: the introducing keywords and the
/// operand source slice.
pub open spec fn sp_echo_db(d: DatabaseNodeV) -> Seq<char> {
    d.literal + (match d.op {
        DbOpV::Show(_) => Seq::empty(),
        _ => " "@ + sp_db_op_echo(d.op),
    })
}

/// The colorized echo of a database statement.
pub open spec fn sp_echo_color_db(d: DatabaseNodeV) -> Seq<char> {
    sp_colorize(d.literal, AnsiColor::Yellow) + (match d.op {
        DbOpV::Show(_) => Seq::<char>::empty(),
        _ => " "@ + sp_colorize(sp_db_op_echo(d.op), AnsiColor::Blue),
    })
}

/// The colorized SQL of a database statement.
pub open spec fn sp_sql_color_db(d: DatabaseNodeV) -> Seq<char> {
    sp_colorize(sp_db_prefix(d.op), AnsiColor::Yellow) + sp_colorize(
        sp_db_op_sql(d.op),
        AnsiColor::Blue,
    )
}

impl CreateNode {
    /// Parses the operand of a create operation at `*idx`.
    pub fn parse(tokens: &Vec<Token>, idx: &mut usize) -> (r: Result<CreateNode, String>)
        requires
            *old(idx) <= tokens@.len(),
        ensures
            ({
                let sp = sp_create(token_views(tokens@), *old(idx) as int);
                &&& (sp matches Ok(p) ==> r matches Ok(n) && n@ == p.0 && *final(idx) as int
                    == p.1 && *old(idx) < *final(idx) < tokens@.len())
                &&& (sp matches Err(m) ==> r matches Err(s) && s@ == m)
            }),
    {
        if *idx >= tokens.len() {
            return Err(valid_len_error(tokens, *idx));
        }
        let tk: &Token = &tokens[*idx];
        if tk.token_type != TokenType::Identifier {
            return Err("Expected identifier, got another token instead!".to_owned());
        }
        if *idx + 1 >= tokens.len() {
            return Err(valid_len_error(tokens, *idx + 1));
        }
        let node = CreateNode { name: tk.literal.clone(), literal: tk.lexeme.clone() };
        *idx += 1;
        Ok(node)
    }

    /// The plain echo and SQL operand of the operation.
    pub fn transpile(&self) -> (r: (String, String))
        ensures
            r.0@ == self@.literal,
            r.1@ == self@.name,
    {
        (self.literal.clone(), self.name.clone())
    }

    /// The colorized echo and SQL operand of the operation.
    pub fn transpile_color(&self) -> (r: (String, String))
        ensures
            r.0@ == sp_colorize(self@.literal, AnsiColor::Blue),
            r.1@ == sp_colorize(self@.name, AnsiColor::Blue),
    {
        (colorize(self.literal.as_str(), AnsiColor::Blue), colorize(
            self.name.as_str(),
            AnsiColor::Blue,
        ))
    }

    /// The raw SQL operand of the operation: the database name.
    pub fn transpile_raw(&self) -> (r: String)
        ensures
            r@ == self@.name,
    {
        self.name.clone()
    }
}

impl UseNode {
    /// Parses the operand of a use operation at `*idx`.
    pub fn parse(tokens: &Vec<Token>, idx: &mut usize) -> (r: Result<UseNode, String>)
        requires
            *old(idx) <= tokens@.len(),
        ensures
            ({
                let sp = sp_use(token_views(tokens@), *old(idx) as int);
                &&& (sp matches Ok(p) ==> r matches Ok(n) && n@ == p.0 && *final(idx) as int
                    == p.1 && *old(idx) < *final(idx) < tokens@.len())
                &&& (sp matches Err(m) ==> r matches Err(s) && s@ == m)
            }),
    {
        if *idx >= tokens.len() {
            return Err(valid_len_error(tokens, *idx));
        }
        let tk: &Token = &tokens[*idx];
        if tk.token_type != TokenType::Identifier {
            return Err("Expected identifier, got another token instead!".to_owned());
        }
        if *idx + 1 >= tokens.len() {
            return Err(valid_len_error(tokens, *idx + 1));
        }
        let node = UseNode { name: tk.literal.clone(), literal: tk.lexeme.clone() };
        *idx += 1;
        Ok(node)
    }

    /// The plain echo and SQL operand of the operation.
    pub fn transpile(&self) -> (r: (String, String))
        ensures
            r.0@ == self@.literal,
            r.1@ == self@.name,
    {
        (self.literal.clone(), self.name.clone())
    }

    /// The colorized echo and SQL operand of the operation.
    pub fn transpile_color(&self) -> (r: (String, String))
        ensures
            r.0@ == sp_colorize(self@.literal, AnsiColor::Blue),
            r.1@ == sp_colorize(self@.name, AnsiColor::Blue),
    {
        (colorize(self.literal.as_str(), AnsiColor::Blue), colorize(
            self.name.as_str(),
            AnsiColor::Blue,
        ))
    }

    /// The raw SQL operand of the operation: the database name.
    pub fn transpile_raw(&self) -> (r: String)
        ensures
            r@ == self@.name,
    {
        self.name.clone()
    }
}

impl DestroyNode {
    /// Builds the comma/`and`-delimited database name list at `*idx`.
    pub fn recurse_build(tokens: &Vec<Token>, dbs: &mut Vec<String>, idx: &mut usize) -> (r:
        Result<(), String>)
        requires
            *old(idx) <= tokens@.len(),
        ensures
            ({
                let sp = sp_ident_list(token_views(tokens@), *old(idx) as int);
                &&& (sp matches Ok(p) ==> r is Ok && string_views(final(dbs)@) == string_views(
                    old(dbs)@,
                ) + p.0 && *final(idx) as int == p.1 && *old(idx) < *final(idx) <= tokens@.len())
                &&& (sp is Err ==> (r matches Err(s) && s@ == msg_database_list()))
            }),
    {
        match build_ident_list(tokens, dbs, idx) {
            Ok(()) => Ok(()),
            Err(()) => Err(
                "Something went wrong parsing database names, make sure they're in a valid list notation.".to_owned(),
            ),
        }
    }

    /// Parses the operands of a destroy operation at `*idx`.
    pub fn parse(tokens: &Vec<Token>, idx: &mut usize) -> (r: Result<DestroyNode, String>)
        requires
            *old(idx) <= tokens@.len(),
        ensures
            ({
                let sp = sp_destroy(token_views(tokens@), *old(idx) as int);
                &&& (sp matches Ok(p) ==> r matches Ok(n) && n@ == p.0 && *final(idx) as int
                    == p.1 && *old(idx) < *final(idx) < tokens@.len())
                &&& (sp matches Err(m) ==> r matches Err(s) && s@ == m)
            }),
    {
        if *idx >= tokens.len() {
            return Err(valid_len_error(tokens, *idx));
        }
        let start = *idx;
        let mut db_names: Vec<String> = Vec::new();
        match DestroyNode::recurse_build(tokens, &mut db_names, idx) {
            Ok(()) => {},
            Err(e) => {
                return Err(e);
            },
        }
        proof {
            assert(Seq::<Seq<char>>::empty() + sp_ident_list(
                token_views(tokens@),
                start as int,
            )->Ok_0.0 =~= sp_ident_list(token_views(tokens@), start as int)->Ok_0.0);
        }
        if *idx >= tokens.len() {
            return Err(valid_len_error(tokens, *idx));
        }
        let lit = join_lexemes(tokens, start, *idx);
        Ok(DestroyNode { databases: db_names, literal: lit })
    }

    /// The plain echo and SQL operand of the operation.
    pub fn transpile(&self) -> (r: (String, String))
        ensures
            r.0@ == self@.literal,
            r.1@ == join_with(self@.databases, ", "@),
    {
        (self.literal.clone(), join_strings(&self.databases, ", "))
    }

    /// The colorized echo and SQL operand of the operation.
    pub fn transpile_color(&self) -> (r: (String, String))
        ensures
            r.0@ == sp_colorize(self@.literal, AnsiColor::Blue),
            r.1@ == sp_colorize(join_with(self@.databases, ", "@), AnsiColor::Blue),
    {
        let joined = join_strings(&self.databases, ", ");
        (colorize(self.literal.as_str(), AnsiColor::Blue), colorize(
            joined.as_str(),
            AnsiColor::Blue,
        ))
    }

    /// The raw SQL operand of the operation: the names joined with `, `.
    pub fn transpile_raw(&self) -> (r: String)
        ensures
            r@ == join_with(self@.databases, ", "@),
    {
        join_strings(&self.databases, ", ")
    }
}

impl ShowNode {
    /// Parses the operands of a show operation at `*idx`: there are none,
    /// but the statement may not end here.
    pub fn parse(tokens: &Vec<Token>, idx: &mut usize) -> (r: Result<ShowNode, String>)
        requires
            *old(idx) <= tokens@.len(),
        ensures
            ({
                let sp = sp_show(token_views(tokens@), *old(idx) as int);
                &&& (sp matches Ok(p) ==> r matches Ok(n) && n@ == p.0 && *final(idx) == *old(idx)
                    && *old(idx) < tokens@.len())
                &&& (sp matches Err(m) ==> r matches Err(s) && s@ == m)
            }),
    {
        if *idx >= tokens.len() {
            return Err(valid_len_error(tokens, *idx));
        }
        Ok(ShowNode {  })
    }

    /// The plain echo and SQL operand of the operation: both empty.
    pub fn transpile(&self) -> (r: (String, String))
        ensures
            r.0@ == Seq::<char>::empty(),
            r.1@ == Seq::<char>::empty(),
    {
        (String::new(), String::new())
    }

    /// The colorized echo and SQL operand of the operation: both empty.
    pub fn transpile_color(&self) -> (r: (String, String))
        ensures
            r.0@ == Seq::<char>::empty(),
            r.1@ == Seq::<char>::empty(),
    {
        (String::new(), String::new())
    }

    /// The raw SQL operand of the operation: empty.
    pub fn transpile_raw(&self) -> (r: String)
        ensures
            r@ == Seq::<char>::empty(),
    {
        String::new()
    }
}

impl DatabaseNode {
    /// Parses a database statement at `*idx`, dispatching on the action
    /// implied by the keyword at `*idx - 2`; the statement must end
    /// exactly on an end-of-query token, which is left unconsumed.
    pub fn parse(tokens: &Vec<Token>, idx: &mut usize, action: ImpliedAction) -> (r: Result<
        DatabaseNode,
        String,
    >)
        requires
            2 <= *old(idx) <= tokens@.len(),
        ensures
            ({
                let sp = sp_database(token_views(tokens@), *old(idx) as int, action);
                &&& (sp matches Ok(p) ==> r matches Ok(n) && n@ == p.0 && *final(idx) as int
                    == p.1 && *old(idx) <= *final(idx) < tokens@.len())
                &&& (sp matches Err(m) ==> r matches Err(s) && s@ == m)
            }),
    {
        if *idx >= tokens.len() {
            return Err(valid_len_error(tokens, *idx));
        }
        let literal = join_lexemes(tokens, *idx - 2, *idx);
        let op: DatabaseOp = match action {
            ImpliedAction::Create => {
                match CreateNode::parse(tokens, idx) {
                    Ok(n) => DatabaseOp::Create(n),
                    Err(e) => {
                        return Err(e);
                    },
                }
            },
            ImpliedAction::Delete => {
                match DestroyNode::parse(tokens, idx) {
                    Ok(n) => DatabaseOp::Destroy(n),
                    Err(e) => {
                        return Err(e);
                    },
                }
            },
            ImpliedAction::Use => {
                match UseNode::parse(tokens, idx) {
                    Ok(n) => DatabaseOp::Use(n),
                    Err(e) => {
                        return Err(e);
                    },
                }
            },
            ImpliedAction::Show => {
                match ShowNode::parse(tokens, idx) {
                    Ok(n) => DatabaseOp::Show(n),
                    Err(e) => {
                        return Err(e);
                    },
                }
            },
        };
        if (&tokens[*idx]).token_type != TokenType::EoqToken {
            return Err("Unexpected token, expected end-of-query token by this point.".to_owned());
        }
        Ok(DatabaseNode { op, literal })
    }

    /// The plain echo and SQL of the statement.
    pub fn transpile(&self) -> (r: (String, String))
        ensures
            r.0@ == sp_echo_db(self@),
            r.1@ == sp_sql_db(self@),
    {
        let op_pair = match &self.op {
            DatabaseOp::Create(c) => c.transpile(),
            DatabaseOp::Destroy(d) => d.transpile(),
            DatabaseOp::Use(u) => u.transpile(),
            DatabaseOp::Show(s) => s.transpile(),
        };
        let mut echo = self.literal.clone();
        match &self.op {
            DatabaseOp::Show(_) => {},
            _ => {
                echo.append(" ");
                echo.append(op_pair.0.as_str());
            },
        }
        let mut sql = match &self.op {
            DatabaseOp::Create(_) => "CREATE DATABASE ".to_owned(),
            DatabaseOp::Destroy(_) => "DROP DATABASE ".to_owned(),
            DatabaseOp::Use(_) => "USE DATABASE ".to_owned(),
            DatabaseOp::Show(_) => "SHOW DATABASES".to_owned(),
        };
        sql.append(op_pair.1.as_str());
        proof {
            assert(echo@ =~= sp_echo_db(self@));
        }
        (echo, sql)
    }

    /// The colorized echo and SQL of the statement: keywords yellow,
    /// operands blue.
    pub fn transpile_color(&self) -> (r: (String, String))
        ensures
            r.0@ == sp_echo_color_db(self@),
            r.1@ == sp_sql_color_db(self@),
    {
        let op_pair = match &self.op {
            DatabaseOp::Create(c) => c.transpile(),
            DatabaseOp::Destroy(d) => d.transpile(),
            DatabaseOp::Use(u) => u.transpile(),
            DatabaseOp::Show(s) => s.transpile(),
        };
        let mut echo = colorize(self.literal.as_str(), AnsiColor::Yellow);
        match &self.op {
            DatabaseOp::Show(_) => {},
            _ => {
                echo.append(" ");
                let op_echo = colorize(op_pair.0.as_str(), AnsiColor::Blue);
                echo.append(op_echo.as_str());
            },
        }
        let prefix = match &self.op {
            DatabaseOp::Create(_) => "CREATE DATABASE ",
            DatabaseOp::Destroy(_) => "DROP DATABASE ",
            DatabaseOp::Use(_) => "USE DATABASE ",
            DatabaseOp::Show(_) => "SHOW DATABASES",
        };
        let mut sql = colorize(prefix, AnsiColor::Yellow);
        let op_sql = colorize(op_pair.1.as_str(), AnsiColor::Blue);
        sql.append(op_sql.as_str());
        proof {
            assert(echo@ =~= sp_echo_color_db(self@));
        }
        (echo, sql)
    }

    /// The raw SQL of the statement.
    pub fn transpile_raw(&self) -> (r: String)
        ensures
            r@ == sp_sql_db(self@),
    {
        let pair = self.transpile();
        pair.1
    }
}

} // verus!
