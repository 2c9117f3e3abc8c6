//! Token model for the EAQL language: the closed set of token kinds, the
//! token type carrying a decoded literal and its exact source text, and the
//! keyword table that maps accepted surface forms to canonical kinds.

use vstd::prelude::*;

verus! {

/// The closed set of token kinds produced by the lexer.
///
/// `EoqToken` stands for the interchangeable end-of-query markers `.`, `!`
/// and `;`. `WhitespaceToken` is produced transiently and stripped from the
/// final stream; `NullToken` marks filler words ("me", "the", ...) that the
/// parser discards; `UnknownToken` marks unrecoverable fragments such as an
/// unterminated string literal.
#[derive(Debug, Clone, Copy, PartialEq, Eq, Structural)]
pub enum TokenType {
    // Single character structural tokens
    OpenParen,
    CloseParen,
    EoqToken,
    Comma,
    // One or two character comparison operators
    Gte,
    Lte,
    Equal,
    Lt,
    Gt,
    // Literal classes
    Identifier,
    StringLiteral,
    NumberLiteral,
    // Grammar keywords
    DeleteKeyword,
    CreateKeyword,
    UseKeyword,
    ShowKeyword,
    SortHelper,
    SortType,
    WildcardKeyword,
    FilterKeyword,
    PostProcessorEntrance,
    Database,
    Get,
    From,
    And,
    Or,
    Not,
    LimitKeyword,
    // Sentinels
    UnknownToken,
    WhitespaceToken,
    NullToken,
}

/// Mathematical model of a token: its kind, its decoded literal value and
/// the exact source text (lexeme) it was scanned from.
pub struct TokenModel {
    pub kind: TokenType,
    pub literal: Seq<char>,
    pub lexeme: Seq<char>,
}

/// A classified unit of input. `literal` holds the decoded value (identifier
/// name, unescaped string contents, numeric text; empty for keywords), and
/// `lexeme` holds the exact source substring the token was scanned from.
#[derive(Debug, PartialEq)]
pub struct Token {
    pub token_type: TokenType,
    pub literal: String,
    pub lexeme: String,
}

impl View for Token {
    type V = TokenModel;

    open spec fn view(&self) -> TokenModel {
        TokenModel { kind: self.token_type, literal: self.literal@, lexeme: self.lexeme@ }
    }
}

impl Token {
    pub fn new(token_type: TokenType, literal: &String, lexeme: &String) -> (t: Token)
        ensures
            t@ == (TokenModel { kind: token_type, literal: literal@, lexeme: lexeme@ }),
    {
        Token { token_type, literal: literal.clone(), lexeme: lexeme.clone() }
    }
}

/// The views of a sequence of tokens.
pub open spec fn token_views(s: Seq<Token>) -> Seq<TokenModel> {
    s.map_values(|t: Token| t@)
}

/// Character-by-character string equality, proved against the string views.
pub fn str_eq(a: &str, b: &str) -> (r: bool)
    ensures
        r == (a@ == b@),
{
    let alen = a.unicode_len();
    let blen = b.unicode_len();
    if alen != blen {
        return false;
    }
    let mut i: usize = 0;
    while i < alen
        invariant
            alen == a@.len(),
            blen == b@.len(),
            alen == blen,
            i <= alen,
            forall|j: int| 0 <= j < i ==> a@[j] == b@[j],
        decreases alen - i,
    {
        if a.get_char(i) != b.get_char(i) {
            return false;
        }
        i += 1;
    }
    proof {
        assert(a@ =~= b@);
    }
    true
}

/// The keyword table: which canonical token kind, if any, a scanned word
/// denotes. This table defines the language surface: each canonical kind
/// lists its accepted synonyms, looked up case-sensitively (capitalized
/// `Destroy` is itself a listed surface form). Words mapped to `NullToken`
/// are filler words that carry no meaning.
pub open spec fn keyword_kind_opt(w: Seq<char>) -> Option<TokenType> {
    if w == "get"@ || w == "find"@ || w == "retrieve"@ {
        Some(TokenType::Get)
    } else if w == "create"@ || w == "make"@ || w == "add"@ {
        Some(TokenType::CreateKeyword)
    } else if w == "delete"@ || w == "remove"@ || w == "destroy"@ || w == "Destroy"@ {
        Some(TokenType::DeleteKeyword)
    } else if w == "use"@ || w == "enter"@ {
        Some(TokenType::UseKeyword)
    } else if w == "show"@ || w == "list"@ {
        Some(TokenType::ShowKeyword)
    } else if w == "all"@ || w == "any"@ || w == "everything"@ {
        Some(TokenType::WildcardKeyword)
    } else if w == "where"@ || w == "whenever"@ || w == "wherever"@ {
        Some(TokenType::FilterKeyword)
    } else if w == "then"@ || w == "afterwords"@ || w == "after"@ {
        Some(TokenType::PostProcessorEntrance)
    } else if w == "limit"@ {
        Some(TokenType::LimitKeyword)
    } else if w == "database"@ || w == "databases"@ {
        Some(TokenType::Database)
    } else if w == "from"@ {
        Some(TokenType::From)
    } else if w == "and"@ {
        Some(TokenType::And)
    } else if w == "or"@ {
        Some(TokenType::Or)
    } else if w == "not"@ {
        Some(TokenType::Not)
    } else if w == "is"@ {
        Some(TokenType::Equal)
    } else if w == "by"@ {
        Some(TokenType::SortHelper)
    } else if w == "ascending"@ || w == "descending"@ {
        Some(TokenType::SortType)
    } else if w == "me"@ || w == "the"@ || w == "it"@ || w == "in"@ || w == "to"@ {
        Some(TokenType::NullToken)
    } else {
        None
    }
}

/// Looks a scanned word up in the keyword table.
pub fn lookup_keyword(word: &str) -> (r: Option<TokenType>)
    ensures
        r == keyword_kind_opt(word@),
{
    if str_eq(word, "get") || str_eq(word, "find") || str_eq(word, "retrieve") {
        Some(TokenType::Get)
    } else if str_eq(word, "create") || str_eq(word, "make") || str_eq(word, "add") {
        Some(TokenType::CreateKeyword)
    } else if str_eq(word, "delete") || str_eq(word, "remove") || str_eq(word, "destroy")
        || str_eq(word, "Destroy") {
        Some(TokenType::DeleteKeyword)
    } else if str_eq(word, "use") || str_eq(word, "enter") {
        Some(TokenType::UseKeyword)
    } else if str_eq(word, "show") || str_eq(word, "list") {
        Some(TokenType::ShowKeyword)
    } else if str_eq(word, "all") || str_eq(word, "any") || str_eq(word, "everything") {
        Some(TokenType::WildcardKeyword)
    } else if str_eq(word, "where") || str_eq(word, "whenever") || str_eq(word, "wherever") {
        Some(TokenType::FilterKeyword)
    } else if str_eq(word, "then") || str_eq(word, "afterwords") || str_eq(word, "after") {
        Some(TokenType::PostProcessorEntrance)
    } else if str_eq(word, "limit") {
        Some(TokenType::LimitKeyword)
    } else if str_eq(word, "database") || str_eq(word, "databases") {
        Some(TokenType::Database)
    } else if str_eq(word, "from") {
        Some(TokenType::From)
    } else if str_eq(word, "and") {
        Some(TokenType::And)
    } else if str_eq(word, "or") {
        Some(TokenType::Or)
    } else if str_eq(word, "not") {
        Some(TokenType::Not)
    } else if str_eq(word, "is") {
        Some(TokenType::Equal)
    } else if str_eq(word, "by") {
        Some(TokenType::SortHelper)
    } else if str_eq(word, "ascending") || str_eq(word, "descending") {
        Some(TokenType::SortType)
    } else if str_eq(word, "me") || str_eq(word, "the") || str_eq(word, "it") || str_eq(
        word,
        "in",
    ) || str_eq(word, "to") {
        Some(TokenType::NullToken)
    } else {
        None
    }
}

} // verus!
