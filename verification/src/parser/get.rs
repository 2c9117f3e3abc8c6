//! The data-retrieval statement: `get <columns> from <table> [<filter>]
//! [<post-processor>]`, ended by the end-of-query token. Columns are either
//! a wildcard keyword or a comma/`and`-delimited non-empty list of
//! identifiers whose order fixes the SQL projection order.

use vstd::prelude::*;
use vstd::string::*;

use crate::colors::{colorize, sp_colorize, AnsiColor};
use crate::parser::conditional::{sp_condition, CondNodeV, ConditionNode};
use crate::parser::helpers::{
    join_lex, join_lexemes, join_strings, join_with, msg_expected_eoq, sp_ident_list,
    sp_valid_len_msg, string_views, build_ident_list, valid_len_error,
};
use crate::parser::postprocessor::{
    opt_post_view, sp_echo_post, sp_postprocessor, sp_sql_post, PostProcessorNode, PostV,
};
use crate::tokens::{token_views, Token, TokenModel, TokenType};

verus! {

/// The table a `get` statement reads from.
#[derive(Debug, PartialEq)]
pub struct TableNode {
    pub table_name: String,
    pub literal: String,
}

/// The selected columns: a wildcard, or an ordered non-empty name list.
#[derive(Debug, PartialEq)]
pub struct ColumnNode {
    pub column_names: Vec<String>,
    pub is_wildcard: bool,
    pub literal: String,
}

/// The optional filter clause: the filter keyword and its condition.
#[derive(Debug, PartialEq)]
pub struct FilterNode {
    pub condition: ConditionNode,
    pub literal: String,
}

/// A parsed `get` statement.
#[derive(Debug)]
pub struct GetNode {
    pub table: TableNode,
    pub columns: ColumnNode,
    pub filter: Option<FilterNode>,
    pub postprocessor: Option<PostProcessorNode>,
}

pub struct TableV {
    pub table_name: Seq<char>,
    pub literal: Seq<char>,
}

pub struct ColumnsV {
    pub column_names: Seq<Seq<char>>,
    pub is_wildcard: bool,
    pub literal: Seq<char>,
}

pub struct FilterV {
    pub condition: CondNodeV,
    pub literal: Seq<char>,
}

pub struct GetV {
    pub table: TableV,
    pub columns: ColumnsV,
    pub filter: Option<FilterV>,
    pub postprocessor: Option<PostV>,
}

impl View for TableNode {
    type V = TableV;

    open spec fn view(&self) -> TableV {
        TableV { table_name: self.table_name@, literal: self.literal@ }
    }
}

impl View for ColumnNode {
    type V = ColumnsV;

    open spec fn view(&self) -> ColumnsV {
        ColumnsV {
            column_names: string_views(self.column_names@),
            is_wildcard: self.is_wildcard,
            literal: self.literal@,
        }
    }
}

impl View for FilterNode {
    type V = FilterV;

    open spec fn view(&self) -> FilterV {
        FilterV { condition: self.condition@, literal: self.literal@ }
    }
}

/// The view of an optional filter.
pub open spec fn opt_filter_view(o: Option<FilterNode>) -> Option<FilterV> {
    match o {
        Some(f) => Some(f@),
        None => None,
    }
}

impl View for GetNode {
    type V = GetV;

    open spec fn view(&self) -> GetV {
        GetV {
            table: self.table@,
            columns: self.columns@,
            filter: opt_filter_view(self.filter),
            postprocessor: opt_post_view(self.postprocessor),
        }
    }
}

/// The diagnostic when the table selection is malformed.
pub open spec fn msg_table_expected() -> Seq<char> {
    "From-like keyword required for table selection!"@
}

/// The diagnostic when the column list is malformed.
pub open spec fn msg_column_list() -> Seq<char> {
    "Something went wrong parsing column names, make sure they're in a valid list notation."@
}

/// Parses the table selection: a `from` keyword directly followed by an
/// identifier.
pub open spec fn sp_table(t: Seq<TokenModel>, pos: int) -> Result<(TableV, int), Seq<char>> {
    if 0 <= pos && pos < t.len() && t[pos].kind == TokenType::From && pos + 1 < t.len() && t[pos
        + 1].kind == TokenType::Identifier {
        Ok(
            (
                TableV {
                    table_name: t[pos + 1].literal,
                    literal: join_lex(t.subrange(pos, pos + 2)),
                },
                pos + 2,
            ),
        )
    } else {
        Err(msg_table_expected())
    }
}

/// Parses the column selection: a wildcard keyword, or an identifier list.
pub open spec fn sp_columns(t: Seq<TokenModel>, pos: int) -> Result<(ColumnsV, int), Seq<char>> {
    if 0 <= pos && pos < t.len() && t[pos].kind == TokenType::WildcardKeyword {
        Ok(
            (
                ColumnsV {
                    column_names: Seq::empty(),
                    is_wildcard: true,
                    literal: join_lex(t.subrange(pos, pos + 1)),
                },
                pos + 1,
            ),
        )
    } else {
        match sp_ident_list(t, pos) {
            Err(_) => Err(msg_column_list()),
            Ok((ns, end)) => Ok(
                (
                    ColumnsV {
                        column_names: ns,
                        is_wildcard: false,
                        literal: join_lex(t.subrange(pos, end)),
                    },
                    end,
                ),
            ),
        }
    }
}

/// Parses the optional filter: present exactly when the token at `pos` is
/// a filter keyword; its captured slice covers the keyword and the
/// condition.
pub open spec fn sp_filter(t: Seq<TokenModel>, pos: int) -> Result<
    (Option<FilterV>, int),
    Seq<char>,
> {
    if 0 <= pos && pos < t.len() && t[pos].kind == TokenType::FilterKeyword {
        match sp_condition(t, pos + 1) {
            Err(e) => Err(e),
            Ok((cv, end)) => Ok(
                (
                    Some(
                        FilterV { condition: cv, literal: t[pos].lexeme + " "@ + cv.literal },
                    ),
                    end,
                ),
            ),
        }
    } else {
        Ok((None, pos))
    }
}

/// Parses a whole `get` statement; `pos` stands directly after the `get`
/// keyword, and the statement must end exactly on an end-of-query token,
/// which is not consumed.
pub open spec fn sp_get(t: Seq<TokenModel>, pos: int) -> Result<(GetV, int), Seq<char>> {
    if pos >= t.len() {
        Err(sp_valid_len_msg(t.subrange(0, pos)))
    } else {
        match sp_columns(t, pos) {
            Err(e) => Err(e),
            Ok((cols, p1)) => match sp_table(t, p1) {
                Err(e) => Err(e),
                Ok((tab, p2)) => match sp_filter(t, p2) {
                    Err(e) => Err(e),
                    Ok((fil, p3)) => match sp_postprocessor(t, p3) {
                        Err(e) => Err(e),
                        Ok((post, p4)) => if p4 < t.len() && t[p4].kind == TokenType::EoqToken {
                            Ok(
                                (
                                    GetV {
                                        table: tab,
                                        columns: cols,
                                        filter: fil,
                                        postprocessor: post,
                                    },
                                    p4,
                                ),
                            )
                        } else {
                            Err(msg_expected_eoq())
                        },
                    },
                },
            },
        }
    }
}

/// The SQL of a table selection.
pub open spec fn sp_sql_table(tv: TableV) -> Seq<char> {
    "FROM "@ + tv.table_name
}

/// The SQL of a column selection: `*` for a wildcard, else the names
/// joined with `, ` in parse order.
pub open spec fn sp_sql_columns(cv: ColumnsV) -> Seq<char> {
    "SELECT "@ + (if cv.is_wildcard {
        "*"@
    } else {
        join_with(cv.column_names, ", "@)
    })
}

/// The SQL of a filter clause.
pub open spec fn sp_sql_filter(fv: FilterV) -> Seq<char> {
    "WHERE "@ + fv.condition.literal
}

/// Whether a `get` statement has a post-processor that renders any SQL.
pub open spec fn sp_get_has_post(g: GetV) -> bool {
    match g.postprocessor {
        Some(p) => p.limit is Some,
        None => false,
    }
}

/// The SQL of a `get` statement, without the trailing `;`.
pub open spec fn sp_sql_get(g: GetV) -> Seq<char> {
    sp_sql_columns(g.columns) + " "@ + sp_sql_table(g.table) + (match g.filter {
        Some(f) => " "@ + sp_sql_filter(f),
        None => Seq::empty(),
    }) + (match g.postprocessor {
        Some(p) => if p.limit is Some {
            " "@ + sp_sql_post(p)
        } else {
            Seq::empty()
        },
        None => Seq::empty(),
    })
}

/// The echo of a `get` statement: the captured source slices of its parts.
pub open spec fn sp_echo_get(g: GetV) -> Seq<char> {
    g.columns.literal + " "@ + g.table.literal + (match g.filter {
        Some(f) => " "@ + f.literal,
        None => Seq::empty(),
    }) + (match g.postprocessor {
        Some(p) => if p.limit is Some {
            " "@ + sp_echo_post(p)
        } else {
            Seq::empty()
        },
        None => Seq::empty(),
    })
}

/// The colorized echo of a `get` statement.
pub open spec fn sp_echo_color_get(g: GetV) -> Seq<char> {
    sp_colorize(g.columns.literal, AnsiColor::Yellow) + " "@ + sp_colorize(
        g.table.literal,
        AnsiColor::Blue,
    ) + (match g.filter {
        Some(f) => " "@ + sp_colorize(f.literal, AnsiColor::Cyan),
        None => Seq::<char>::empty(),
    }) + (if sp_get_has_post(g) {
        " "@ + sp_colorize(sp_echo_post(g.postprocessor->Some_0), AnsiColor::Magenta)
    } else {
        Seq::<char>::empty()
    })
}

/// The colorized SQL of a `get` statement.
pub open spec fn sp_sql_color_get(g: GetV) -> Seq<char> {
    sp_colorize(sp_sql_columns(g.columns), AnsiColor::Yellow) + " "@ + sp_colorize(
        sp_sql_table(g.table),
        AnsiColor::Blue,
    ) + (match g.filter {
        Some(f) => " "@ + sp_colorize(sp_sql_filter(f), AnsiColor::Cyan),
        None => Seq::<char>::empty(),
    }) + (if sp_get_has_post(g) {
        " "@ + sp_colorize(sp_sql_post(g.postprocessor->Some_0), AnsiColor::Magenta)
    } else {
        Seq::<char>::empty()
    })
}

impl TableNode {
    /// Parses the table selection at `*idx`.
    pub fn parse(tokens: &Vec<Token>, idx: &mut usize) -> (r: Result<TableNode, String>)
        requires
            *old(idx) <= tokens@.len(),
        ensures
            ({
                let sp = sp_table(token_views(tokens@), *old(idx) as int);
                &&& (sp matches Ok(p) ==> r matches Ok(n) && n@ == p.0 && *final(idx) as int
                    == p.1 && *old(idx) < *final(idx) <= tokens@.len())
                &&& (sp matches Err(m) ==> r matches Err(s) && s@ == m)
            }),
    {
        if *idx < tokens.len() && (&tokens[*idx]).token_type == TokenType::From && *idx + 1
            < tokens.len() && (&tokens[*idx + 1]).token_type == TokenType::Identifier {
            let name = (&tokens[*idx + 1]).literal.clone();
            let lit = join_lexemes(tokens, *idx, *idx + 2);
            *idx += 2;
            Ok(TableNode { table_name: name, literal: lit })
        } else {
            Err("From-like keyword required for table selection!".to_owned())
        }
    }

    /// The plain echo and SQL of the table selection.
    pub fn transpile(&self) -> (r: (String, String))
        ensures
            r.0@ == self@.literal,
            r.1@ == sp_sql_table(self@),
    {
        let mut sql = "FROM ".to_owned();
        sql.append(self.table_name.as_str());
        (self.literal.clone(), sql)
    }
}

impl ColumnNode {
    /// Builds the comma/`and`-delimited column name list at `*idx`.
    pub fn recurse_build(tokens: &Vec<Token>, cols: &mut Vec<String>, idx: &mut usize) -> (r:
        Result<(), String>)
        requires
            *old(idx) <= tokens@.len(),
        ensures
            ({
                let sp = sp_ident_list(token_views(tokens@), *old(idx) as int);
                &&& (sp matches Ok(p) ==> r is Ok && string_views(final(cols)@) == string_views(
                    old(cols)@,
                ) + p.0 && *final(idx) as int == p.1 && *old(idx) < *final(idx) <= tokens@.len())
                &&& (sp is Err ==> (r matches Err(s) && s@ == msg_column_list()))
            }),
    {
        match build_ident_list(tokens, cols, idx) {
            Ok(()) => Ok(()),
            Err(()) => Err(
                "Something went wrong parsing column names, make sure they're in a valid list notation.".to_owned(),
            ),
        }
    }

    /// Parses the column selection at `*idx`.
    pub fn parse(tokens: &Vec<Token>, idx: &mut usize) -> (r: Result<ColumnNode, String>)
        requires
            *old(idx) <= tokens@.len(),
        ensures
            ({
                let sp = sp_columns(token_views(tokens@), *old(idx) as int);
                &&& (sp matches Ok(p) ==> r matches Ok(n) && n@ == p.0 && *final(idx) as int
                    == p.1 && *old(idx) < *final(idx) <= tokens@.len())
                &&& (sp matches Err(m) ==> r matches Err(s) && s@ == m)
            }),
    {
        let start = *idx;
        if *idx < tokens.len() && (&tokens[*idx]).token_type == TokenType::WildcardKeyword {
            let lit = join_lexemes(tokens, *idx, *idx + 1);
            *idx += 1;
            proof {
                assert(string_views(Seq::<String>::empty()) =~= Seq::<Seq<char>>::empty());
            }
            return Ok(ColumnNode { column_names: Vec::new(), is_wildcard: true, literal: lit });
        }
        let mut column_names: Vec<String> = Vec::new();
        match ColumnNode::recurse_build(tokens, &mut column_names, idx) {
            Ok(()) => {
                proof {
                    assert(Seq::<Seq<char>>::empty() + sp_ident_list(
                        token_views(tokens@),
                        start as int,
                    )->Ok_0.0 =~= sp_ident_list(token_views(tokens@), start as int)->Ok_0.0);
                }
                let lit = join_lexemes(tokens, start, *idx);
                Ok(ColumnNode { column_names, is_wildcard: false, literal: lit })
            },
            Err(e) => Err(e),
        }
    }

    /// The plain echo and SQL of the column selection.
    pub fn transpile(&self) -> (r: (String, String))
        ensures
            r.0@ == self@.literal,
            r.1@ == sp_sql_columns(self@),
    {
        let mut sql = "SELECT ".to_owned();
        if self.is_wildcard {
            sql.append("*");
        } else {
            let joined = join_strings(&self.column_names, ", ");
            sql.append(joined.as_str());
        }
        (self.literal.clone(), sql)
    }
}

impl FilterNode {
    /// Parses the optional filter at `*idx`: present exactly when the
    /// token there is a filter keyword.
    pub fn parse(tokens: &Vec<Token>, idx: &mut usize) -> (r: Result<Option<FilterNode>, String>)
        requires
            *old(idx) <= tokens@.len(),
        ensures
            ({
                let sp = sp_filter(token_views(tokens@), *old(idx) as int);
                &&& (sp matches Ok(p) ==> r matches Ok(o) && opt_filter_view(o) == p.0
                    && *final(idx) as int == p.1 && *old(idx) <= *final(idx) <= tokens@.len())
                &&& (sp matches Err(m) ==> r matches Err(s) && s@ == m)
            }),
    {
        if *idx < tokens.len() && (&tokens[*idx]).token_type == TokenType::FilterKeyword {
            let keyword_lex = (&tokens[*idx]).lexeme.clone();
            *idx += 1;
            match ConditionNode::parse(tokens, idx) {
                Ok(condition) => {
                    let mut lit = keyword_lex;
                    lit.append(" ");
                    lit.append(condition.literal.as_str());
                    Ok(Some(FilterNode { condition, literal: lit }))
                },
                Err(e) => Err(e),
            }
        } else {
            Ok(None)
        }
    }

    /// The plain echo and SQL of the filter clause.
    pub fn transpile(&self) -> (r: (String, String))
        ensures
            r.0@ == self@.literal,
            r.1@ == sp_sql_filter(self@),
    {
        let mut sql = "WHERE ".to_owned();
        sql.append(self.condition.literal.as_str());
        (self.literal.clone(), sql)
    }
}

impl GetNode {
    /// Parses a whole `get` statement at `*idx` (the `get` keyword already
    /// consumed); the statement must end exactly on an end-of-query token,
    /// which is left unconsumed.
    pub fn parse(tokens: &Vec<Token>, idx: &mut usize) -> (r: Result<GetNode, String>)
        requires
            *old(idx) <= tokens@.len(),
        ensures
            ({
                let sp = sp_get(token_views(tokens@), *old(idx) as int);
                &&& (sp matches Ok(p) ==> r matches Ok(g) && g@ == p.0 && *final(idx) as int
                    == p.1 && *old(idx) <= *final(idx) < tokens@.len())
                &&& (sp matches Err(m) ==> r matches Err(s) && s@ == m)
            }),
    {
        if *idx >= tokens.len() {
            return Err(valid_len_error(tokens, *idx));
        }
        let columns = match ColumnNode::parse(tokens, idx) {
            Ok(c) => c,
            Err(e) => {
                return Err(e);
            },
        };
        let table = match TableNode::parse(tokens, idx) {
            Ok(t) => t,
            Err(e) => {
                return Err(e);
            },
        };
        let filter = match FilterNode::parse(tokens, idx) {
            Ok(f) => f,
            Err(e) => {
                return Err(e);
            },
        };
        let postprocessor = match PostProcessorNode::parse(tokens, idx) {
            Ok(p) => p,
            Err(e) => {
                return Err(e);
            },
        };
        if *idx < tokens.len() && (&tokens[*idx]).token_type == TokenType::EoqToken {
            Ok(GetNode { table, columns, filter, postprocessor })
        } else {
            Err("Unexpected token, expected end-of-query token by this point.".to_owned())
        }
    }

    /// The plain echo and SQL of the statement.
    pub fn transpile(&self) -> (r: (String, String))
        ensures
            r.0@ == sp_echo_get(self@),
            r.1@ == sp_sql_get(self@),
    {
        let cols = self.columns.transpile();
        let tab = self.table.transpile();
        let mut echo = cols.0;
        let mut sql = cols.1;
        echo.append(" ");
        echo.append(tab.0.as_str());
        sql.append(" ");
        sql.append(tab.1.as_str());
        match &self.filter {
            Some(f) => {
                let fp = f.transpile();
                echo.append(" ");
                echo.append(fp.0.as_str());
                sql.append(" ");
                sql.append(fp.1.as_str());
            },
            None => {},
        }
        match &self.postprocessor {
            Some(p) => {
                match &p.limit {
                    Some(_) => {
                        let pp_echo = {
                            match &p.limit {
                                Some(l) => l.literal.clone(),
                                None => String::new(),
                            }
                        };
                        let pp_sql = p.transpile_raw();
                        echo.append(" ");
                        echo.append(pp_echo.as_str());
                        sql.append(" ");
                        sql.append(pp_sql.as_str());
                    },
                    None => {},
                }
            },
            None => {},
        }
        proof {
            assert(echo@ =~= sp_echo_get(self@));
            assert(sql@ =~= sp_sql_get(self@));
        }
        (echo, sql)
    }

    /// The colorized echo and SQL of the statement: columns yellow, table
    /// blue, filter cyan, post-processor magenta.
    pub fn transpile_color(&self) -> (r: (String, String))
        ensures
            r.0@ == sp_echo_color_get(self@),
            r.1@ == sp_sql_color_get(self@),
    {
        let cols = self.columns.transpile();
        let tab = self.table.transpile();
        let mut echo = colorize(cols.0.as_str(), AnsiColor::Yellow);
        let mut sql = colorize(cols.1.as_str(), AnsiColor::Yellow);
        echo.append(" ");
        let tab_echo = colorize(tab.0.as_str(), AnsiColor::Blue);
        echo.append(tab_echo.as_str());
        sql.append(" ");
        let tab_sql = colorize(tab.1.as_str(), AnsiColor::Blue);
        sql.append(tab_sql.as_str());
        match &self.filter {
            Some(f) => {
                let fp = f.transpile();
                echo.append(" ");
                let f_echo = colorize(fp.0.as_str(), AnsiColor::Cyan);
                echo.append(f_echo.as_str());
                sql.append(" ");
                let f_sql = colorize(fp.1.as_str(), AnsiColor::Cyan);
                sql.append(f_sql.as_str());
            },
            None => {},
        }
        match &self.postprocessor {
            Some(p) => {
                match &p.limit {
                    Some(l) => {
                        echo.append(" ");
                        let p_echo = colorize(l.literal.as_str(), AnsiColor::Magenta);
                        echo.append(p_echo.as_str());
                        sql.append(" ");
                        let raw = p.transpile_raw();
                        let p_sql = colorize(raw.as_str(), AnsiColor::Magenta);
                        sql.append(p_sql.as_str());
                    },
                    None => {},
                }
            },
            None => {},
        }
        proof {
            assert(echo@ =~= sp_echo_color_get(self@));
            assert(sql@ =~= sp_sql_color_get(self@));
        }
        (echo, sql)
    }

    /// The raw SQL of the statement.
    pub fn transpile_raw(&self) -> (r: String)
        ensures
            r@ == sp_sql_get(self@),
    {
        let pair = self.transpile();
        pair.1
    }
}

} // verus!
