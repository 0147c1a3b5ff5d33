use lim::error::LexError;
use lim::lexer::Lexer;
use lim::text::{char_at, chars_of};
use lim::token::Token;

fn lex(text: &str) -> Result<Vec<Token>, LexError> {
    Lexer::tokenize(text.to_string())
}

fn name(text: &str) -> Token {
    Token::Identifier(text.to_string())
}

fn float(text: &str) -> Token {
    Token::Float(text.to_string())
}

#[test]
fn empty_text_is_only_the_end() {
    assert_eq!(lex("").unwrap(), vec![Token::EOF]);
    assert_eq!(lex(" \t\r\n ").unwrap(), vec![Token::EOF]);
}

#[test]
fn every_text_ends_with_the_end_token() {
    for text in ["1", "a b c", "fn (x) { x }", "\"s\""] {
        let tokens = lex(text).unwrap();
        assert_eq!(tokens.last(), Some(&Token::EOF));
    }
}

#[test]
fn numbers_keep_their_text() {
    assert_eq!(lex("3").unwrap(), vec![float("3"), Token::EOF]);
    assert_eq!(lex("0.25").unwrap(), vec![float("0.25"), Token::EOF]);
    assert_eq!(lex("1.").unwrap(), vec![float("1."), Token::EOF]);
    assert_eq!(lex(".5").unwrap(), vec![float(".5"), Token::EOF]);
}

#[test]
fn every_number_token_is_a_number_to_the_host() {
    for text in ["0", "12", "1.", ".5", "3.25", "000.000"] {
        match &lex(text).unwrap()[0] {
            Token::Float(digits) => assert!(digits.parse::<f64>().is_ok()),
            other => panic!("{:?}", other),
        }
    }
}

#[test]
fn malformed_numbers_are_refused() {
    assert_eq!(lex("."), Err(LexError::MalformedNumber(".".to_string())));
    assert_eq!(lex("1.2.3"), Err(LexError::MalformedNumber("1.2.3".to_string())));
    assert_eq!(lex("x = ..;"), Err(LexError::MalformedNumber("..".to_string())));
    for text in [".", "1.2.3", ".."] {
        assert!(text.parse::<f64>().is_err());
    }
}

#[test]
fn names_and_keywords() {
    assert_eq!(
        lex("fn return true false null let if else break while").unwrap(),
        vec![
            Token::FN,
            Token::Return,
            Token::True,
            Token::False,
            Token::Null,
            Token::Let,
            Token::If,
            Token::Else,
            Token::Break,
            Token::While,
            Token::EOF,
        ]
    );
    assert_eq!(
        lex("fnord _x a1_b lets").unwrap(),
        vec![name("fnord"), name("_x"), name("a1_b"), name("lets"), Token::EOF]
    );
}

#[test]
fn a_name_ends_where_a_number_may_start() {
    assert_eq!(lex("a.5").unwrap(), vec![name("a"), float(".5"), Token::EOF]);
    assert_eq!(lex("1a").unwrap(), vec![float("1"), name("a"), Token::EOF]);
}

#[test]
fn single_character_tokens() {
    assert_eq!(
        lex("+ - * / % , ( ) [ ] { } ; ? :").unwrap(),
        vec![
            Token::Plus,
            Token::Minus,
            Token::Mul,
            Token::Div,
            Token::Mod,
            Token::Comma,
            Token::LParen,
            Token::RParen,
            Token::LBracket,
            Token::RBracket,
            Token::LBrace,
            Token::RBrace,
            Token::Semicolon,
            Token::Question,
            Token::Colon,
            Token::EOF,
        ]
    );
}

#[test]
fn two_character_tokens() {
    assert_eq!(
        lex("== != >= <= && || = ! > <").unwrap(),
        vec![
            Token::Equal,
            Token::UnEqual,
            Token::GreaterEqual,
            Token::LessEqual,
            Token::And,
            Token::Or,
            Token::Assign,
            Token::Not,
            Token::Greater,
            Token::Less,
            Token::EOF,
        ]
    );
    assert_eq!(
        lex("a<=b").unwrap(),
        vec![name("a"), Token::LessEqual, name("b"), Token::EOF]
    );
    assert_eq!(lex("!!").unwrap(), vec![Token::Not, Token::Not, Token::EOF]);
    assert_eq!(lex("===").unwrap(), vec![Token::Equal, Token::Assign, Token::EOF]);
}

#[test]
fn lone_ampersand_and_bar_are_refused() {
    assert_eq!(lex("a & b"), Err(LexError::InvalidCharacter('&')));
    assert_eq!(lex("a | b"), Err(LexError::InvalidCharacter('|')));
    assert_eq!(lex("a &"), Err(LexError::InvalidCharacter('&')));
}

#[test]
fn invalid_characters_are_refused() {
    assert_eq!(lex("1 @ 2"), Err(LexError::InvalidCharacter('@')));
    assert_eq!(lex("#"), Err(LexError::InvalidCharacter('#')));
    assert_eq!(lex("é"), Err(LexError::InvalidCharacter('é')));
}

#[test]
fn strings_and_escapes() {
    assert_eq!(
        lex("\"hello world\"").unwrap(),
        vec![Token::String("hello world".to_string()), Token::EOF]
    );
    assert_eq!(lex("\"\"").unwrap(), vec![Token::String(String::new()), Token::EOF]);
    assert_eq!(
        lex(r#""a\"b\\c\/d\be\ff\ng\rh\ti\0j\uk""#).unwrap(),
        vec![
            Token::String("a\"b\\c/d\u{8}e\u{c}f\ng\rh\ti\0j\0k".to_string()),
            Token::EOF
        ]
    );
    assert_eq!(
        lex("\"if 1 + 2\" x").unwrap(),
        vec![Token::String("if 1 + 2".to_string()), name("x"), Token::EOF]
    );
}

#[test]
fn broken_strings_are_refused() {
    assert_eq!(lex("\"abc"), Err(LexError::UnterminatedString));
    assert_eq!(lex("\""), Err(LexError::UnterminatedString));
    assert_eq!(lex("\"abc\\"), Err(LexError::UnterminatedString));
    assert_eq!(lex("\"a\nb\""), Err(LexError::NewlineInString));
    assert_eq!(lex("\"a\\qb\""), Err(LexError::UnknownEscape('q')));
}

#[test]
fn lexing_is_the_same_every_time() {
    let text = "let x = 5; while x > 0 { x = x - 1 }; \"done\"";
    assert_eq!(lex(text), lex(text));
}

#[test]
fn lex_error_messages() {
    assert_eq!(LexError::InvalidCharacter('@').message(), "Invalid character: @");
    assert_eq!(
        LexError::MalformedNumber("1.2.3".to_string()).message(),
        "Invalid number: 1.2.3"
    );
    assert_eq!(
        LexError::UnterminatedString.message(),
        "The string has not ended yet!"
    );
    assert_eq!(
        LexError::NewlineInString.message(),
        "Unexpected string ending: \\n"
    );
    assert_eq!(
        LexError::UnknownEscape('q').message(),
        "Unknown character escape: \\q"
    );
}

#[test]
fn the_characters_of_a_text() {
    assert_eq!(chars_of("héllo"), vec!['h', 'é', 'l', 'l', 'o']);
    assert_eq!(chars_of(""), Vec::<char>::new());
    assert_eq!(char_at(&chars_of("héllo"), 1), 'é');
}

#[test]
fn texts_are_built_character_by_character() {
    assert_eq!(lex("abc").unwrap()[0], name("abc"));
    assert_eq!(lex("\"a b\"").unwrap()[0], Token::String("a b".to_string()));
    assert_eq!(lex("12.5").unwrap()[0], float("12.5"));
}

#[test]
fn token_texts() {
    assert_eq!(Token::Plus.text(), "Plus");
    assert_eq!(Token::EOF.text(), "EOF");
    assert_eq!(name("abc").text(), "abc");
    assert_eq!(float("1.5").text(), "1.5");
    assert_eq!(Token::String("s".to_string()).text(), "s");
    assert!(name("a").same(&name("a")));
    assert!(!name("a").same(&name("b")));
    assert!(!name("a").same(&Token::String("a".to_string())));
    assert!(Token::If.same(&Token::If));
    assert!(!Token::If.same(&Token::Else));
    assert_eq!(name("a").clone(), name("a"));
}
