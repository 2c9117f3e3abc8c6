use eaql::parser::conditional::ExpressionNode;
use eaql::tokens::{Token, TokenType};

#[test]
fn test_expression_parsing_normal() {
    let input: Vec<Token> = vec![
        Token::new(TokenType::Identifier, &"".to_string(), &"id".to_string()),
        Token::new(TokenType::Equal, &"".to_string(), &"is".to_string()),
        Token::new(TokenType::NumberLiteral, &"5".to_string(), &"5".to_string()),
    ];

    let mut idx: usize = 0;
    let expected: ExpressionNode = ExpressionNode {
        identifier: Token::new(TokenType::Identifier, &"".to_string(), &"id".to_string()),
        comparison_operator: Token::new(TokenType::Equal, &"".to_string(), &"is".to_string()),
        literal: Token::new(TokenType::NumberLiteral, &"5".to_string(), &"5".to_string()),
    };

    match ExpressionNode::parse(&input, &mut idx) {
        Ok(val) => assert_eq!(expected, val),
        Err(err) => assert!(false, "Output errored out -> {}", err),
    }
}

#[test]
fn conditional_test_expression_parsing_normal() {
    let input: Vec<Token> = vec![
        Token::new(TokenType::Identifier, &"cost".to_string(), &"cost".to_string()),
        Token::new(TokenType::Lte, &"".to_string(), &"<=".to_string()),
        Token::new(TokenType::NumberLiteral, &"2.43".to_string(), &"2.43".to_string()),
    ];

    let mut idx: usize = 0;
    let expected: ExpressionNode = ExpressionNode {
        identifier: Token::new(TokenType::Identifier, &"cost".to_string(), &"cost".to_string()),
        comparison_operator: Token::new(TokenType::Lte, &"".to_string(), &"<=".to_string()),
        literal: Token::new(TokenType::NumberLiteral, &"2.43".to_string(), &"2.43".to_string()),
    };

    match ExpressionNode::parse(&input, &mut idx) {
        Ok(val) => assert_eq!(expected, val),
        Err(err) => assert!(false, "Output errored out -> {}", err),
    }
}

#[test]
fn test_expression_parsing_error() {
    let input: Vec<Token> = vec![
        Token::new(TokenType::Identifier, &"".to_string(), &"id".to_string()),
        Token::new(TokenType::Equal, &"".to_string(), &"is".to_string()),
        Token::new(TokenType::Get, &"".to_string(), &"get".to_string()),
    ];

    let mut idx: usize = 0;

    match ExpressionNode::parse(&input, &mut idx) {
        Ok(_val) => assert!(false, "Output expected to error!"),
        Err(err) => assert!(true, "Output errored out -> {}", err),
    }
}

#[test]
fn conditional_test_expression_parsing_error() {
    let input: Vec<Token> = vec![
        Token::new(TokenType::Identifier, &"".to_string(), &"id".to_string()),
        Token::new(TokenType::Equal, &"".to_string(), &"is".to_string()),
        Token::new(TokenType::Identifier, &"other".to_string(), &"other".to_string()),
    ];

    let mut idx: usize = 0;

    assert!(ExpressionNode::parse(&input, &mut idx).is_err());
}
