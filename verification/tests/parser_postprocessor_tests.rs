use eaql::parser::postprocessor::{LimitNode, PostProcessorNode};
use eaql::tokens::{Token, TokenType};

#[test]
fn unit_test_postprocessor_error() {
    let input: Vec<Token> = vec![
        Token::new(TokenType::PostProcessorEntrance, &"".to_string(), &"then".to_string()),
    ];

    let mut idx: usize = 0;

    match PostProcessorNode::parse(&input, &mut idx) {
        Ok(_) => assert!(false, "Output was expected to error!"),
        Err(err) => assert!(true, "Output errored out -> {}", err),
    }
}

#[test]
fn unit_test_postprocessor_limit_error_float() {
    let input: Vec<Token> = vec![
        Token::new(TokenType::PostProcessorEntrance, &"".to_string(), &"then".to_string()),
        Token::new(TokenType::LimitKeyword, &"".to_string(), &"limit".to_string()),
        Token::new(TokenType::NumberLiteral, &"5.5".to_string(), &"5.5".to_string()),
        Token::new(TokenType::EoqToken, &"".to_string(), &".".to_string()),
    ];

    let mut idx: usize = 0;

    match PostProcessorNode::parse(&input, &mut idx) {
        Ok(_) => assert!(false, "Output was expected to error!"),
        Err(err) => assert!(true, "Output errored out -> {}", err),
    }
}

#[test]
fn unit_test_postprocessor_limit_normal() {
    let input: Vec<Token> = vec![
        Token::new(TokenType::PostProcessorEntrance, &"".to_string(), &"then".to_string()),
        Token::new(TokenType::LimitKeyword, &"".to_string(), &"limit".to_string()),
        Token::new(TokenType::NumberLiteral, &"5".to_string(), &"5".to_string()),
        Token::new(TokenType::EoqToken, &"".to_string(), &".".to_string()),
    ];

    let expected: PostProcessorNode = PostProcessorNode {
        limit: Some(LimitNode { limit: 5, literal: "limit 5".to_string() }),
    };
    let mut idx: usize = 0;

    match PostProcessorNode::parse(&input, &mut idx) {
        Ok(val) => match val {
            Some(node) => assert_eq!(node, expected),
            None => assert!(false, "Output returned nothing but something was expected!"),
        },
        Err(err) => assert!(false, "Output errored out -> {}", err),
    }
}
