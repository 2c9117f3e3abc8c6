use eaql::lexer::scan_tokens;
use eaql::parser::conditional::{
    ConditionChild, ConditionNode, ExpressionNode, OperandNode, OperandType,
};
use eaql::tokens::{Token, TokenType};
use eaql::{process_query, transpiler, validator};

fn expr(name: &str, op: TokenType, op_lex: &str, lit_kind: TokenType, lit: &str) -> ConditionChild {
    ConditionChild::Expr(Box::new(ExpressionNode {
        identifier: Token::new(TokenType::Identifier, &name.to_string(), &name.to_string()),
        comparison_operator: Token::new(op, &"".to_string(), &op_lex.to_string()),
        literal: Token::new(lit_kind, &lit.to_string(), &lit.to_string()),
    }))
}

fn tokens_of(query: &str) -> Vec<Token> {
    scan_tokens(&query.to_string()).unwrap().tokens
}

// Determinism: the transpiler is a function of the input string alone.
#[test]
fn determinism_same_output_on_repeated_calls() {
    let valid = "get id, cost from t where id = 3 then limit 5;";
    assert_eq!(transpiler::engine(valid), transpiler::engine(valid));
    let invalid = "get id, cost from t where";
    assert_eq!(transpiler::engine(invalid), transpiler::engine(invalid));
    assert!(transpiler::engine(invalid).is_err());
}

// Delimiter requirement: without a trailing delimiter the query is
// invalid; any of the three delimiters makes it valid, with the same SQL.
#[test]
fn delimiters_required_and_interchangeable() {
    let base = "get all from t";
    assert_eq!(validator::engine(base), false);
    let with_dot = transpiler::engine("get all from t.");
    let with_bang = transpiler::engine("get all from t!");
    let with_semi = transpiler::engine("get all from t;");
    assert_eq!(with_dot, Ok("SELECT * FROM t;".to_string()));
    assert_eq!(with_dot, with_bang);
    assert_eq!(with_bang, with_semi);
}

// Synonym equivalence: swapping a keyword for a synonym of the same
// canonical kind leaves the SQL unchanged.
#[test]
fn synonyms_yield_identical_sql() {
    assert_eq!(
        transpiler::engine("get all from t where id is 3;"),
        transpiler::engine("retrieve everything from t whenever id = 3;")
    );
    assert_eq!(
        transpiler::engine("create database d;"),
        transpiler::engine("add database d;")
    );
    assert_eq!(
        transpiler::engine("get all from t then limit 2;"),
        transpiler::engine("find all from t after limit 2;")
    );
}

// Precedence: "a and b or c" parses as Or(And(a, b), c).
#[test]
fn precedence_and_binds_tighter_left() {
    let input = tokens_of("a = 1 and b = 2 or c = 3;");
    let mut idx: usize = 0;
    let parsed = ConditionNode::parse(&input, &mut idx).unwrap();
    let expected = ConditionChild::Op(Box::new(OperandNode {
        op_type: OperandType::Or,
        ls: ConditionChild::Op(Box::new(OperandNode {
            op_type: OperandType::And,
            ls: expr("a", TokenType::Equal, "=", TokenType::NumberLiteral, "1"),
            rs: expr("b", TokenType::Equal, "=", TokenType::NumberLiteral, "2"),
        })),
        rs: expr("c", TokenType::Equal, "=", TokenType::NumberLiteral, "3"),
    }));
    assert_eq!(parsed.condition, expected);
}

// Precedence: "a or b and c" parses as Or(a, And(b, c)).
#[test]
fn precedence_and_binds_tighter_right() {
    let input = tokens_of("a = 1 or b = 2 and c = 3;");
    let mut idx: usize = 0;
    let parsed = ConditionNode::parse(&input, &mut idx).unwrap();
    let expected = ConditionChild::Op(Box::new(OperandNode {
        op_type: OperandType::Or,
        ls: expr("a", TokenType::Equal, "=", TokenType::NumberLiteral, "1"),
        rs: ConditionChild::Op(Box::new(OperandNode {
            op_type: OperandType::And,
            ls: expr("b", TokenType::Equal, "=", TokenType::NumberLiteral, "2"),
            rs: expr("c", TokenType::Equal, "=", TokenType::NumberLiteral, "3"),
        })),
    }));
    assert_eq!(parsed.condition, expected);
}

// Precedence: explicit parentheses override, "(a or b) and c" parses as
// And(Or(a, b), c).
#[test]
fn precedence_parentheses_override() {
    let input = tokens_of("(a = 1 or b = 2) and c = 3;");
    let mut idx: usize = 0;
    let parsed = ConditionNode::parse(&input, &mut idx).unwrap();
    let expected = ConditionChild::Op(Box::new(OperandNode {
        op_type: OperandType::And,
        ls: ConditionChild::Op(Box::new(OperandNode {
            op_type: OperandType::Or,
            ls: expr("a", TokenType::Equal, "=", TokenType::NumberLiteral, "1"),
            rs: expr("b", TokenType::Equal, "=", TokenType::NumberLiteral, "2"),
        })),
        rs: expr("c", TokenType::Equal, "=", TokenType::NumberLiteral, "3"),
    }));
    assert_eq!(parsed.condition, expected);
}

// Left association: "a and b and c" parses as And(And(a, b), c).
#[test]
fn left_association_of_chains() {
    let input = tokens_of("a = 1 and b = 2 and c = 3;");
    let mut idx: usize = 0;
    let parsed = ConditionNode::parse(&input, &mut idx).unwrap();
    let expected = ConditionChild::Op(Box::new(OperandNode {
        op_type: OperandType::And,
        ls: ConditionChild::Op(Box::new(OperandNode {
            op_type: OperandType::And,
            ls: expr("a", TokenType::Equal, "=", TokenType::NumberLiteral, "1"),
            rs: expr("b", TokenType::Equal, "=", TokenType::NumberLiteral, "2"),
        })),
        rs: expr("c", TokenType::Equal, "=", TokenType::NumberLiteral, "3"),
    }));
    assert_eq!(parsed.condition, expected);
}

// A bare comparison is a single expression leaf with no operator node.
#[test]
fn bare_filter_is_a_single_leaf() {
    let input = tokens_of("a = 1;");
    let mut idx: usize = 0;
    let parsed = ConditionNode::parse(&input, &mut idx).unwrap();
    let expected = expr("a", TokenType::Equal, "=", TokenType::NumberLiteral, "1");
    assert_eq!(parsed.condition, expected);
}

// List separators are interchangeable: `,` and `and` build the same
// ordered column list and the same SQL.
#[test]
fn list_separators_interchangeable() {
    let mixed = transpiler::engine("get id, cost and time from t;");
    let all_and = transpiler::engine("get id and cost and time from t;");
    let all_comma = transpiler::engine("get id, cost, time from t;");
    assert_eq!(mixed, Ok("SELECT id, cost, time FROM t;".to_string()));
    assert_eq!(mixed, all_and);
    assert_eq!(all_and, all_comma);
}

// Integer-only limit: a fractional count fails, an integral one succeeds.
#[test]
fn limit_is_integer_only() {
    assert!(transpiler::engine("get all from t then limit 5.5;").is_err());
    assert_eq!(
        transpiler::engine("get all from t then limit 5;"),
        Ok("SELECT * FROM t LIMIT 5;".to_string())
    );
}

// The limit count is a 32-bit integer: its largest value parses, one more
// does not, and leading zeros are accepted.
#[test]
fn limit_bounds_and_zeros() {
    assert_eq!(
        transpiler::engine("get all from t then limit 2147483647;"),
        Ok("SELECT * FROM t LIMIT 2147483647;".to_string())
    );
    assert!(transpiler::engine("get all from t then limit 2147483648;").is_err());
    assert_eq!(
        transpiler::engine("get all from t then limit 007;"),
        Ok("SELECT * FROM t LIMIT 7;".to_string())
    );
    assert_eq!(
        transpiler::engine("get all from t then limit -3;"),
        Ok("SELECT * FROM t LIMIT -3;".to_string())
    );
}

// Concrete scenarios.
#[test]
fn concrete_scenarios() {
    assert_eq!(
        transpiler::engine("get all from db_1!"),
        Ok("SELECT * FROM db_1;".to_string())
    );
    assert_eq!(
        transpiler::engine("create database test;"),
        Ok("CREATE DATABASE test;".to_string())
    );
    assert_eq!(
        transpiler::engine("delete databases db1, db2 and db3;"),
        Ok("DROP DATABASE db1, db2, db3;".to_string())
    );
    assert_eq!(
        transpiler::engine("get id, cost from t where id = 3 and price = 2.0;"),
        Ok("SELECT id, cost FROM t WHERE id = 3 and price = 2.0;".to_string())
    );
    assert_eq!(validator::engine("get all from t"), false);
    assert_eq!(
        transpiler::engine("get all from t then limit 5;"),
        Ok("SELECT * FROM t LIMIT 5;".to_string())
    );
}

// Degenerate inputs never panic and are simply invalid.
#[test]
fn degenerate_inputs_are_invalid() {
    assert_eq!(validator::engine(""), false);
    assert_eq!(validator::engine("   "), false);
    assert_eq!(validator::engine(";"), false);
    assert_eq!(validator::engine("get all from \"t;"), false);
    assert_eq!(validator::engine("where id = 3;"), false);
    assert_eq!(validator::engine("get all from t where;"), false);
    assert_eq!(validator::engine("get all from t where (id = 3;"), false);
    assert_eq!(validator::engine("get all from t where id = 3);"), false);
    assert_eq!(validator::engine("get all from t where id = 3 and;"), false);
}

// A post-processor entrance with no clauses is allowed and adds no SQL.
#[test]
fn empty_postprocessor_chain() {
    assert_eq!(
        transpiler::engine("get all from t then."),
        Ok("SELECT * FROM t;".to_string())
    );
}

// `process_query` returns a tree exactly when the validator accepts.
#[test]
fn process_query_agrees_with_validator() {
    let good = "get all from t;".to_string();
    let bad = "get all from t".to_string();
    assert!(process_query(&good).is_some());
    assert!(process_query(&bad).is_none());
    let ast = process_query(&good).unwrap();
    assert_eq!(ast.transpile_raw(), "SELECT * FROM t".to_string());
}

// The echo output keeps the source's own words; the SQL is canonical.
#[test]
fn echo_keeps_surface_forms() {
    let ast = process_query(&"retrieve everything from db_1!".to_string()).unwrap();
    let (echo, sql) = ast.transpile();
    assert_eq!(echo, "everything from db_1".to_string());
    assert_eq!(sql, "SELECT * FROM db_1".to_string());
}

// The condition's SQL keeps source spacing but rewrites `is` to `=`.
#[test]
fn condition_rendering_normalizes_is() {
    assert_eq!(
        transpiler::engine("get all from t where name is \"x\" or (id < 2);"),
        Ok("SELECT * FROM t WHERE name = \"x\" or (id < 2);".to_string())
    );
}
