//! The transpiler interface: turns one query string into the equivalent
//! SQL statement terminated with `;`, or a diagnostic when the query does
//! not parse.

use vstd::prelude::*;
use vstd::string::*;

use crate::parser::{sp_sql_query};
use crate::{process_query, sp_process};

verus! {

/// The diagnostic of a failed transpilation.
pub open spec fn msg_invalid_query() -> Seq<char> {
    "Invalid query, see above logged warnings for issues!"@
}

/// What transpiling a query string yields: the SQL of the parsed query,
/// terminated with `;`, or the failure diagnostic.
pub open spec fn sp_transpile(q: Seq<char>) -> Result<Seq<char>, Seq<char>> {
    match sp_process(q) {
        Some(qv) => Ok(sp_sql_query(qv) + ";"@),
        None => Err(msg_invalid_query()),
    }
}

/// Determinism: transpilation is a pure function of the input string, so
/// any two results that meet `engine`'s contract on the same query are
/// identical, success and failure alike.
pub proof fn lemma_transpile_deterministic(
    q: Seq<char>,
    r1: Result<Seq<char>, Seq<char>>,
    r2: Result<Seq<char>, Seq<char>>,
)
    requires
        r1 == sp_transpile(q),
        r2 == sp_transpile(q),
    ensures
        r1 == r2,
{
}

/// Transpiles one query string to SQL. The result is a function of the
/// input alone: two calls on the same string yield the same output.
pub fn engine(query: &str) -> (r: Result<String, String>)
    ensures
        ({
            let sp = sp_transpile(query@);
            &&& (sp matches Ok(sql) ==> r matches Ok(s) && s@ == sql)
            &&& (sp matches Err(m) ==> r matches Err(s) && s@ == m)
        }),
{
    let q = query.to_owned();
    match process_query(&q) {
        Some(ast) => {
            let mut s = ast.transpile_raw();
            s.append(";");
            Ok(s)
        },
        None => Err("Invalid query, see above logged warnings for issues!".to_owned()),
    }
}

} // verus!
