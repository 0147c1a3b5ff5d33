//! The lexical units of Lim.

use vstd::prelude::*;
use vstd::string::StringExecFns;
use crate::value::Value;

verus! {

/// A lexical unit. The parser also uses tokens as operator tags in the tree.
#[derive(Debug, PartialEq)]
pub enum Token {
    /// A numeric literal, as the digits and points that were written.
    Float(String),
    /// A string literal, escapes resolved.
    String(String),
    /// A name.
    Identifier(String),
    Tuple,
    True,
    False,
    Null,
    Plus,
    Minus,
    Mul,
    Div,
    Mod,
    And,
    Or,
    Not,
    Equal,
    UnEqual,
    Greater,
    Less,
    GreaterEqual,
    LessEqual,
    Assign,
    Let,
    LParen,
    RParen,
    LBracket,
    RBracket,
    Semicolon,
    Statement,
    Break,
    /// The end of the input.
    EOF,
    FN,
    Arrow,
    Comma,
    LBrace,
    RBrace,
    Return,
    Call,
    Question,
    Colon,
    If,
    Else,
    While,
}

/// What a token is, with its text as a sequence of characters.
pub enum TokenView {
    /// A numeric literal, as the digits and points that were written.
    Float(Seq<char>),
    /// A string literal, escapes resolved.
    String(Seq<char>),
    /// A name.
    Identifier(Seq<char>),
    Tuple,
    True,
    False,
    Null,
    Plus,
    Minus,
    Mul,
    Div,
    Mod,
    And,
    Or,
    Not,
    Equal,
    UnEqual,
    Greater,
    Less,
    GreaterEqual,
    LessEqual,
    Assign,
    Let,
    LParen,
    RParen,
    LBracket,
    RBracket,
    Semicolon,
    Statement,
    Break,
    /// The end of the input.
    EOF,
    FN,
    Arrow,
    Comma,
    LBrace,
    RBrace,
    Return,
    Call,
    Question,
    Colon,
    If,
    Else,
    While,
}

impl View for Token {
    type V = TokenView;

    open spec fn view(&self) -> TokenView {
        match self {
            Token::Float(s) => TokenView::Float(s@),
            Token::String(s) => TokenView::String(s@),
            Token::Identifier(s) => TokenView::Identifier(s@),
            Token::Tuple => TokenView::Tuple,
            Token::True => TokenView::True,
            Token::False => TokenView::False,
            Token::Null => TokenView::Null,
            Token::Plus => TokenView::Plus,
            Token::Minus => TokenView::Minus,
            Token::Mul => TokenView::Mul,
            Token::Div => TokenView::Div,
            Token::Mod => TokenView::Mod,
            Token::And => TokenView::And,
            Token::Or => TokenView::Or,
            Token::Not => TokenView::Not,
            Token::Equal => TokenView::Equal,
            Token::UnEqual => TokenView::UnEqual,
            Token::Greater => TokenView::Greater,
            Token::Less => TokenView::Less,
            Token::GreaterEqual => TokenView::GreaterEqual,
            Token::LessEqual => TokenView::LessEqual,
            Token::Assign => TokenView::Assign,
            Token::Let => TokenView::Let,
            Token::LParen => TokenView::LParen,
            Token::RParen => TokenView::RParen,
            Token::LBracket => TokenView::LBracket,
            Token::RBracket => TokenView::RBracket,
            Token::Semicolon => TokenView::Semicolon,
            Token::Statement => TokenView::Statement,
            Token::Break => TokenView::Break,
            Token::EOF => TokenView::EOF,
            Token::FN => TokenView::FN,
            Token::Arrow => TokenView::Arrow,
            Token::Comma => TokenView::Comma,
            Token::LBrace => TokenView::LBrace,
            Token::RBrace => TokenView::RBrace,
            Token::Return => TokenView::Return,
            Token::Call => TokenView::Call,
            Token::Question => TokenView::Question,
            Token::Colon => TokenView::Colon,
            Token::If => TokenView::If,
            Token::Else => TokenView::Else,
            Token::While => TokenView::While,
        }
    }
}

impl Clone for Token {
    fn clone(&self) -> (r: Token)
        ensures
            r@ == self@,
    {
        match self {
            Token::Float(s) => Token::Float(s.clone()),
            Token::String(s) => Token::String(s.clone()),
            Token::Identifier(s) => Token::Identifier(s.clone()),
            Token::Tuple => Token::Tuple,
            Token::True => Token::True,
            Token::False => Token::False,
            Token::Null => Token::Null,
            Token::Plus => Token::Plus,
            Token::Minus => Token::Minus,
            Token::Mul => Token::Mul,
            Token::Div => Token::Div,
            Token::Mod => Token::Mod,
            Token::And => Token::And,
            Token::Or => Token::Or,
            Token::Not => Token::Not,
            Token::Equal => Token::Equal,
            Token::UnEqual => Token::UnEqual,
            Token::Greater => Token::Greater,
            Token::Less => Token::Less,
            Token::GreaterEqual => Token::GreaterEqual,
            Token::LessEqual => Token::LessEqual,
            Token::Assign => Token::Assign,
            Token::Let => Token::Let,
            Token::LParen => Token::LParen,
            Token::RParen => Token::RParen,
            Token::LBracket => Token::LBracket,
            Token::RBracket => Token::RBracket,
            Token::Semicolon => Token::Semicolon,
            Token::Statement => Token::Statement,
            Token::Break => Token::Break,
            Token::EOF => Token::EOF,
            Token::FN => Token::FN,
            Token::Arrow => Token::Arrow,
            Token::Comma => Token::Comma,
            Token::LBrace => Token::LBrace,
            Token::RBrace => Token::RBrace,
            Token::Return => Token::Return,
            Token::Call => Token::Call,
            Token::Question => Token::Question,
            Token::Colon => Token::Colon,
            Token::If => Token::If,
            Token::Else => Token::Else,
            Token::While => Token::While,
        }
    }
}

impl TokenView {
    /// The text that stands for the token in a diagnostic: the payload of a
    /// literal or a name, and the variant's name otherwise.
    pub open spec fn text(self) -> Seq<char> {
        match self {
            TokenView::Float(s) => s,
            TokenView::String(s) => s,
            TokenView::Identifier(s) => s,
            TokenView::Tuple => "Tuple"@,
            TokenView::True => "True"@,
            TokenView::False => "False"@,
            TokenView::Null => "Null"@,
            TokenView::Plus => "Plus"@,
            TokenView::Minus => "Minus"@,
            TokenView::Mul => "Mul"@,
            TokenView::Div => "Div"@,
            TokenView::Mod => "Mod"@,
            TokenView::And => "And"@,
            TokenView::Or => "Or"@,
            TokenView::Not => "Not"@,
            TokenView::Equal => "Equal"@,
            TokenView::UnEqual => "UnEqual"@,
            TokenView::Greater => "Greater"@,
            TokenView::Less => "Less"@,
            TokenView::GreaterEqual => "GreaterEqual"@,
            TokenView::LessEqual => "LessEqual"@,
            TokenView::Assign => "Assign"@,
            TokenView::Let => "Let"@,
            TokenView::LParen => "LParen"@,
            TokenView::RParen => "RParen"@,
            TokenView::LBracket => "LBracket"@,
            TokenView::RBracket => "RBracket"@,
            TokenView::Semicolon => "Semicolon"@,
            TokenView::Statement => "Statement"@,
            TokenView::Break => "Break"@,
            TokenView::EOF => "EOF"@,
            TokenView::FN => "FN"@,
            TokenView::Arrow => "Arrow"@,
            TokenView::Comma => "Comma"@,
            TokenView::LBrace => "LBrace"@,
            TokenView::RBrace => "RBrace"@,
            TokenView::Return => "Return"@,
            TokenView::Call => "Call"@,
            TokenView::Question => "Question"@,
            TokenView::Colon => "Colon"@,
            TokenView::If => "If"@,
            TokenView::Else => "Else"@,
            TokenView::While => "While"@,
        }
    }

    /// Whether the token is one of `+ - * / %`.
    pub open spec fn is_arithmetic(self) -> bool {
        self is Plus || self is Minus || self is Mul || self is Div || self is Mod
    }
}

impl Token {
    /// The token's text for a diagnostic.
    pub fn text(&self) -> (r: String)
        ensures
            r@ == self@.text(),
    {
        match self {
            Token::Float(s) => s.clone(),
            Token::String(s) => s.clone(),
            Token::Identifier(s) => s.clone(),
            Token::Tuple => String::from_str("Tuple"),
            Token::True => String::from_str("True"),
            Token::False => String::from_str("False"),
            Token::Null => String::from_str("Null"),
            Token::Plus => String::from_str("Plus"),
            Token::Minus => String::from_str("Minus"),
            Token::Mul => String::from_str("Mul"),
            Token::Div => String::from_str("Div"),
            Token::Mod => String::from_str("Mod"),
            Token::And => String::from_str("And"),
            Token::Or => String::from_str("Or"),
            Token::Not => String::from_str("Not"),
            Token::Equal => String::from_str("Equal"),
            Token::UnEqual => String::from_str("UnEqual"),
            Token::Greater => String::from_str("Greater"),
            Token::Less => String::from_str("Less"),
            Token::GreaterEqual => String::from_str("GreaterEqual"),
            Token::LessEqual => String::from_str("LessEqual"),
            Token::Assign => String::from_str("Assign"),
            Token::Let => String::from_str("Let"),
            Token::LParen => String::from_str("LParen"),
            Token::RParen => String::from_str("RParen"),
            Token::LBracket => String::from_str("LBracket"),
            Token::RBracket => String::from_str("RBracket"),
            Token::Semicolon => String::from_str("Semicolon"),
            Token::Statement => String::from_str("Statement"),
            Token::Break => String::from_str("Break"),
            Token::EOF => String::from_str("EOF"),
            Token::FN => String::from_str("FN"),
            Token::Arrow => String::from_str("Arrow"),
            Token::Comma => String::from_str("Comma"),
            Token::LBrace => String::from_str("LBrace"),
            Token::RBrace => String::from_str("RBrace"),
            Token::Return => String::from_str("Return"),
            Token::Call => String::from_str("Call"),
            Token::Question => String::from_str("Question"),
            Token::Colon => String::from_str("Colon"),
            Token::If => String::from_str("If"),
            Token::Else => String::from_str("Else"),
            Token::While => String::from_str("While"),
        }
    }

    /// Whether two tokens are the same, texts included.
    pub fn same(&self, other: &Token) -> (r: bool)
        ensures
            r == (self@ == other@),
    {
        match self {
            Token::Float(a) => match other {
                Token::Float(b) => *a == *b,
                _ => false,
            },
            Token::String(a) => match other {
                Token::String(b) => *a == *b,
                _ => false,
            },
            Token::Identifier(a) => match other {
                Token::Identifier(b) => *a == *b,
                _ => false,
            },
            Token::Tuple => matches!(other, Token::Tuple),
            Token::True => matches!(other, Token::True),
            Token::False => matches!(other, Token::False),
            Token::Null => matches!(other, Token::Null),
            Token::Plus => matches!(other, Token::Plus),
            Token::Minus => matches!(other, Token::Minus),
            Token::Mul => matches!(other, Token::Mul),
            Token::Div => matches!(other, Token::Div),
            Token::Mod => matches!(other, Token::Mod),
            Token::And => matches!(other, Token::And),
            Token::Or => matches!(other, Token::Or),
            Token::Not => matches!(other, Token::Not),
            Token::Equal => matches!(other, Token::Equal),
            Token::UnEqual => matches!(other, Token::UnEqual),
            Token::Greater => matches!(other, Token::Greater),
            Token::Less => matches!(other, Token::Less),
            Token::GreaterEqual => matches!(other, Token::GreaterEqual),
            Token::LessEqual => matches!(other, Token::LessEqual),
            Token::Assign => matches!(other, Token::Assign),
            Token::Let => matches!(other, Token::Let),
            Token::LParen => matches!(other, Token::LParen),
            Token::RParen => matches!(other, Token::RParen),
            Token::LBracket => matches!(other, Token::LBracket),
            Token::RBracket => matches!(other, Token::RBracket),
            Token::Semicolon => matches!(other, Token::Semicolon),
            Token::Statement => matches!(other, Token::Statement),
            Token::Break => matches!(other, Token::Break),
            Token::EOF => matches!(other, Token::EOF),
            Token::FN => matches!(other, Token::FN),
            Token::Arrow => matches!(other, Token::Arrow),
            Token::Comma => matches!(other, Token::Comma),
            Token::LBrace => matches!(other, Token::LBrace),
            Token::RBrace => matches!(other, Token::RBrace),
            Token::Return => matches!(other, Token::Return),
            Token::Call => matches!(other, Token::Call),
            Token::Question => matches!(other, Token::Question),
            Token::Colon => matches!(other, Token::Colon),
            Token::If => matches!(other, Token::If),
            Token::Else => matches!(other, Token::Else),
            Token::While => matches!(other, Token::While),
        }
    }

    /// The value that a literal token stands for. A numeric literal is not
    /// among them: its value is the host's to compute from the text.
    pub fn to_value(&self) -> (r: Option<Value>)
        ensures
            match r {
                Some(v) => literal_value(self@) == Some(v@),
                None => literal_value(self@).is_none(),
            },
    {
        match self {
            Token::String(s) => Some(Value::String(s.clone())),
            Token::True => Some(Value::Boolean(true)),
            Token::False => Some(Value::Boolean(false)),
            Token::Null => Some(Value::Null),
            _ => None,
        }
    }
}

/// The value of a string, boolean or null literal.
pub open spec fn literal_value(token: TokenView) -> Option<crate::value::ValueView> {
    match token {
        TokenView::String(s) => Some(crate::value::ValueView::String(s)),
        TokenView::True => Some(crate::value::ValueView::Boolean(true)),
        TokenView::False => Some(crate::value::ValueView::Boolean(false)),
        TokenView::Null => Some(crate::value::ValueView::Null),
        _ => None,
    }
}

/// The views of a list of tokens, in order.
#[verifier::opaque]
pub open spec fn tokens_of(items: Seq<Token>) -> Seq<TokenView> {
    Seq::new(items.len(), |i: int| items[i]@)
}

} // verus!
