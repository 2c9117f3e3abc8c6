use eaql::colors::{colorize, AnsiColor};
use eaql::parser::helpers::{get_tab, peek_one, valid_until_warning, validate_length};
use eaql::tokens::{Token, TokenType};

#[test]
fn get_tab_is_two_spaces_per_level() {
    assert_eq!(get_tab(0), "".to_string());
    assert_eq!(get_tab(1), "  ".to_string());
    assert_eq!(get_tab(3), "      ".to_string());
}

#[test]
fn colorize_wraps_in_escape_codes() {
    assert_eq!(colorize("hi", AnsiColor::Yellow), "\x1b[33mhi\x1b[0m".to_string());
    assert_eq!(colorize("", AnsiColor::BrightRed), "\x1b[91m\x1b[0m".to_string());
}

#[test]
fn peek_one_reports_next_kind_or_null() {
    let tokens: Vec<Token> = vec![
        Token::new(TokenType::Get, &"".to_string(), &"get".to_string()),
        Token::new(TokenType::WildcardKeyword, &"".to_string(), &"all".to_string()),
    ];
    assert_eq!(peek_one(&tokens, &0), TokenType::WildcardKeyword);
    assert_eq!(peek_one(&tokens, &1), TokenType::NullToken);
    assert_eq!(peek_one(&Vec::new(), &0), TokenType::NullToken);
}

#[test]
fn validate_length_reports_consumed_prefix() {
    let tokens: Vec<Token> = vec![
        Token::new(TokenType::Get, &"".to_string(), &"get".to_string()),
        Token::new(TokenType::WildcardKeyword, &"".to_string(), &"all".to_string()),
    ];
    assert!(validate_length(&tokens, &1, true).is_ok());
    assert!(validate_length(&tokens, &2, false).is_ok());
    assert_eq!(
        validate_length(&tokens, &2, true),
        Err("Query valid until after \"get all\"! Possible unfinished query?".to_string())
    );
}

#[test]
fn valid_until_warning_reports_prefix_or_na() {
    let tokens: Vec<Token> = vec![
        Token::new(TokenType::Get, &"".to_string(), &"get".to_string()),
        Token::new(TokenType::WildcardKeyword, &"".to_string(), &"all".to_string()),
    ];
    assert_eq!(
        valid_until_warning(&tokens, &1),
        "Query valid until after \"get\"!".to_string()
    );
    assert_eq!(valid_until_warning(&tokens, &2), "N/A".to_string());
}
