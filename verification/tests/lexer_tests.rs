use eaql::lexer::Lexer;
use eaql::tokens::{Token, TokenType};

#[test]
fn test_basic_single_tokens() {
    let input: String = "()!.;,".to_string();
    let test_lexer: Result<Lexer, String> = Lexer::new(&input);

    assert!(!test_lexer.is_err());

    let expected: Vec<Token> = vec![
        Token::new(TokenType::OpenParen, &"".to_string(), &"(".to_string()),
        Token::new(TokenType::CloseParen, &"".to_string(), &")".to_string()),
        Token::new(TokenType::EoqToken, &"".to_string(), &"!".to_string()),
        Token::new(TokenType::EoqToken, &"".to_string(), &".".to_string()),
        Token::new(TokenType::EoqToken, &"".to_string(), &";".to_string()),
        Token::new(TokenType::Comma, &"".to_string(), &",".to_string()),
    ];

    assert_eq!(expected, test_lexer.unwrap().tokens);
}

#[test]
fn lexer_test_basic_single_tokens() {
    let input: String = "()!.;,".to_string();
    let test_lexer: Lexer = Lexer::new(&input).unwrap();
    let expected: Vec<Token> = vec![
        Token::new(TokenType::OpenParen, &"".to_string(), &"(".to_string()),
        Token::new(TokenType::CloseParen, &"".to_string(), &")".to_string()),
        Token::new(TokenType::EoqToken, &"".to_string(), &"!".to_string()),
        Token::new(TokenType::EoqToken, &"".to_string(), &".".to_string()),
        Token::new(TokenType::EoqToken, &"".to_string(), &";".to_string()),
        Token::new(TokenType::Comma, &"".to_string(), &",".to_string()),
    ];

    assert_eq!(expected, test_lexer.tokens);
}

#[test]
fn test_basic_single_double_tokens() {
    let input: String = "<><=>==".to_string();
    let test_lexer: Result<Lexer, String> = Lexer::new(&input);

    assert!(!test_lexer.is_err());

    let expected: Vec<Token> = vec![
        Token::new(TokenType::Lt, &"".to_string(), &"<".to_string()),
        Token::new(TokenType::Gt, &"".to_string(), &">".to_string()),
        Token::new(TokenType::Lte, &"".to_string(), &"<=".to_string()),
        Token::new(TokenType::Gte, &"".to_string(), &">=".to_string()),
        Token::new(TokenType::Equal, &"".to_string(), &"=".to_string()),
    ];

    assert_eq!(expected, test_lexer.unwrap().tokens);
}

#[test]
fn lexer_test_basic_single_double_tokens() {
    let input: String = "<><=>==".to_string();
    let test_lexer: Lexer = Lexer::new(&input).unwrap();
    let expected: Vec<Token> = vec![
        Token::new(TokenType::Lt, &"".to_string(), &"<".to_string()),
        Token::new(TokenType::Gt, &"".to_string(), &">".to_string()),
        Token::new(TokenType::Lte, &"".to_string(), &"<=".to_string()),
        Token::new(TokenType::Gte, &"".to_string(), &">=".to_string()),
        Token::new(TokenType::Equal, &"".to_string(), &"=".to_string()),
    ];

    assert_eq!(expected, test_lexer.tokens);
}

#[test]
fn test_basic_string_literal_base() {
    let input: String = "\"Hi1234\"".to_string();
    let test_lexer: Result<Lexer, String> = Lexer::new(&input);

    assert!(!test_lexer.is_err());

    let expected: Vec<Token> = vec![
        Token::new(TokenType::StringLiteral, &"Hi1234".to_string(), &"\"Hi1234\"".to_string()),
    ];

    assert_eq!(expected, test_lexer.unwrap().tokens);
}

#[test]
fn test_basic_string_literal_error_1() {
    let input: String = "\"Hi1234".to_string();
    let test_lexer: Result<Lexer, String> = Lexer::new(&input);

    assert!(!test_lexer.is_err());

    let expected: Vec<Token> = vec![
        Token::new(TokenType::UnknownToken, &"".to_string(), &"\"Hi1234".to_string()),
    ];

    assert_eq!(expected, test_lexer.unwrap().tokens);
}

#[test]
fn test_basic_string_literal_error_2() {
    let input: String = "\"".to_string();
    let test_lexer: Result<Lexer, String> = Lexer::new(&input);

    assert!(!test_lexer.is_err());

    let expected: Vec<Token> = vec![
        Token::new(TokenType::UnknownToken, &"".to_string(), &"\"".to_string()),
    ];

    assert_eq!(expected, test_lexer.unwrap().tokens);
}

#[test]
fn test_basic_string_literal_edge() {
    let input: String = "\"\"".to_string();
    let test_lexer: Result<Lexer, String> = Lexer::new(&input);

    assert!(!test_lexer.is_err());

    let expected: Vec<Token> = vec![
        Token::new(TokenType::StringLiteral, &"".to_string(), &"\"\"".to_string()),
    ];

    assert_eq!(expected, test_lexer.unwrap().tokens);
}

#[test]
fn test_basic_number_literal_base() {
    let input: String = "1234".to_string();
    let test_lexer: Result<Lexer, String> = Lexer::new(&input);

    assert!(!test_lexer.is_err());

    let expected: Vec<Token> = vec![
        Token::new(TokenType::NumberLiteral, &"1234".to_string(), &"1234".to_string()),
    ];

    assert_eq!(expected, test_lexer.unwrap().tokens);
}

#[test]
fn test_basic_number_literal_decimal() {
    let input: String = "12.34".to_string();
    let test_lexer: Result<Lexer, String> = Lexer::new(&input);

    assert!(!test_lexer.is_err());

    let expected: Vec<Token> = vec![
        Token::new(TokenType::NumberLiteral, &"12.34".to_string(), &"12.34".to_string()),
    ];

    assert_eq!(expected, test_lexer.unwrap().tokens);
}

#[test]
fn test_basic_number_literal_negative_decimal() {
    let input: String = "-12.34".to_string();
    let test_lexer: Result<Lexer, String> = Lexer::new(&input);

    assert!(!test_lexer.is_err());

    let expected: Vec<Token> = vec![
        Token::new(TokenType::NumberLiteral, &"-12.34".to_string(), &"-12.34".to_string()),
    ];

    assert_eq!(expected, test_lexer.unwrap().tokens);
}

#[test]
fn test_basic_keyword_literal_1() {
    let input: String = "get all from place.".to_string();
    let test_lexer: Result<Lexer, String> = Lexer::new(&input);

    assert!(!test_lexer.is_err());

    let expected: Vec<Token> = vec![
        Token::new(TokenType::Get, &"".to_string(), &"get".to_string()),
        Token::new(TokenType::WildcardKeyword, &"".to_string(), &"all".to_string()),
        Token::new(TokenType::From, &"".to_string(), &"from".to_string()),
        Token::new(TokenType::Identifier, &"place".to_string(), &"place".to_string()),
        Token::new(TokenType::EoqToken, &"".to_string(), &".".to_string()),
    ];

    assert_eq!(expected, test_lexer.unwrap().tokens);
}

#[test]
fn test_basic_keyword_literal_2() {
    let input: String =
        "retrieve everything from place whenever name is \"Coffee\" and cost >= 2.43!".to_string();
    let test_lexer: Result<Lexer, String> = Lexer::new(&input);

    assert!(!test_lexer.is_err());

    let expected: Vec<Token> = vec![
        Token::new(TokenType::Get, &"".to_string(), &"retrieve".to_string()),
        Token::new(TokenType::WildcardKeyword, &"".to_string(), &"everything".to_string()),
        Token::new(TokenType::From, &"".to_string(), &"from".to_string()),
        Token::new(TokenType::Identifier, &"place".to_string(), &"place".to_string()),
        Token::new(TokenType::FilterKeyword, &"".to_string(), &"whenever".to_string()),
        Token::new(TokenType::Identifier, &"name".to_string(), &"name".to_string()),
        Token::new(TokenType::Equal, &"".to_string(), &"is".to_string()),
        Token::new(TokenType::StringLiteral, &"Coffee".to_string(), &"\"Coffee\"".to_string()),
        Token::new(TokenType::And, &"".to_string(), &"and".to_string()),
        Token::new(TokenType::Identifier, &"cost".to_string(), &"cost".to_string()),
        Token::new(TokenType::Gte, &"".to_string(), &">=".to_string()),
        Token::new(TokenType::NumberLiteral, &"2.43".to_string(), &"2.43".to_string()),
        Token::new(TokenType::EoqToken, &"".to_string(), &"!".to_string()),
    ];

    assert_eq!(expected, test_lexer.unwrap().tokens);
}

#[test]
fn test_number_literal_trailing_dot_is_delimiter() {
    let input: String = "12.".to_string();
    let test_lexer: Result<Lexer, String> = Lexer::new(&input);

    assert!(!test_lexer.is_err());

    let expected: Vec<Token> = vec![
        Token::new(TokenType::NumberLiteral, &"12".to_string(), &"12".to_string()),
        Token::new(TokenType::EoqToken, &"".to_string(), &".".to_string()),
    ];

    assert_eq!(expected, test_lexer.unwrap().tokens);
}

#[test]
fn test_number_literal_second_dot_stops_scan() {
    let input: String = "2.5.5".to_string();
    let test_lexer: Result<Lexer, String> = Lexer::new(&input);

    assert!(!test_lexer.is_err());

    let expected: Vec<Token> = vec![
        Token::new(TokenType::NumberLiteral, &"2.5".to_string(), &"2.5".to_string()),
        Token::new(TokenType::EoqToken, &"".to_string(), &".".to_string()),
        Token::new(TokenType::NumberLiteral, &"5".to_string(), &"5".to_string()),
    ];

    assert_eq!(expected, test_lexer.unwrap().tokens);
}

#[test]
fn test_whitespace_tokens_are_stripped() {
    let input: String = "  a  ".to_string();
    let test_lexer: Result<Lexer, String> = Lexer::new(&input);

    assert!(!test_lexer.is_err());

    let expected: Vec<Token> = vec![
        Token::new(TokenType::Identifier, &"a".to_string(), &"a".to_string()),
    ];

    assert_eq!(expected, test_lexer.unwrap().tokens);
}
