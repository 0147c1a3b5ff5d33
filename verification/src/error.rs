//! What can go wrong while lexing, parsing and running a program.

use vstd::prelude::*;
use vstd::string::StringExecFns;
use crate::text::push_char;
use crate::token::{Token, TokenView};

verus! {

/// A failure of the lexer.
#[derive(Debug, PartialEq)]
pub enum LexError {
    /// A character that starts no token, or a lone `&` or `|`.
    InvalidCharacter(char),
    /// A run of digits and points that is no number.
    MalformedNumber(String),
    /// The input ended inside a string literal.
    UnterminatedString,
    /// A line break inside a string literal.
    NewlineInString,
    /// A backslash before a character that names no escape.
    UnknownEscape(char),
}

pub enum LexErrorView {
    InvalidCharacter(char),
    MalformedNumber(Seq<char>),
    UnterminatedString,
    NewlineInString,
    UnknownEscape(char),
}

impl View for LexError {
    type V = LexErrorView;

    open spec fn view(&self) -> LexErrorView {
        match self {
            LexError::InvalidCharacter(c) => LexErrorView::InvalidCharacter(*c),
            LexError::MalformedNumber(s) => LexErrorView::MalformedNumber(s@),
            LexError::UnterminatedString => LexErrorView::UnterminatedString,
            LexError::NewlineInString => LexErrorView::NewlineInString,
            LexError::UnknownEscape(c) => LexErrorView::UnknownEscape(*c),
        }
    }
}

impl LexErrorView {
    pub open spec fn message(self) -> Seq<char> {
        match self {
            LexErrorView::InvalidCharacter(c) => "Invalid character: "@.push(c),
            LexErrorView::MalformedNumber(s) => "Invalid number: "@ + s,
            LexErrorView::UnterminatedString => "The string has not ended yet!"@,
            LexErrorView::NewlineInString => "Unexpected string ending: \\n"@,
            LexErrorView::UnknownEscape(c) => "Unknown character escape: \\"@.push(c),
        }
    }
}

impl LexError {
    pub fn message(&self) -> (r: String)
        ensures
            r@ == self@.message(),
    {
        match self {
            LexError::InvalidCharacter(c) => {
                let mut s = String::from_str("Invalid character: ");
                push_char(&mut s, *c);
                s
            },
            LexError::MalformedNumber(text) => String::from_str("Invalid number: ").concat(
                text.as_str(),
            ),
            LexError::UnterminatedString => String::from_str("The string has not ended yet!"),
            LexError::NewlineInString => String::from_str("Unexpected string ending: \\n"),
            LexError::UnknownEscape(c) => {
                let mut s = String::from_str("Unknown character escape: \\");
                push_char(&mut s, *c);
                s
            },
        }
    }
}

/// A closing or separating token that the grammar asks for at some place.
#[derive(Debug, PartialEq, Eq, Clone, Copy, Structural)]
pub enum Delimiter {
    LParen,
    RParen,
    RBracket,
    RBrace,
    Colon,
}

impl Delimiter {
    pub open spec fn token(self) -> TokenView {
        match self {
            Delimiter::LParen => TokenView::LParen,
            Delimiter::RParen => TokenView::RParen,
            Delimiter::RBracket => TokenView::RBracket,
            Delimiter::RBrace => TokenView::RBrace,
            Delimiter::Colon => TokenView::Colon,
        }
    }
}

/// The ways in which a token sequence can fail to be a program.
#[derive(Debug, PartialEq, Eq, Clone, Copy, Structural)]
pub enum ParseErrorKind {
    /// No expression starts with this token.
    UnexpectedToken,
    /// Two statements with nothing between them.
    ExpectedSemicolon,
    /// A delimiter is missing.
    Expected(Delimiter),
    /// The left-hand side of `=` is not a name.
    InvalidAssignment,
    /// A function literal's parameter list holds something that is no name.
    InvalidParameter,
}

/// A failure of the parser, with the token at which it gave up and that
/// token's place among the tokens.
#[derive(Debug, PartialEq)]
pub struct ParseError {
    pub kind: ParseErrorKind,
    pub token: Token,
    pub position: usize,
}

pub struct ParseErrorView {
    pub kind: ParseErrorKind,
    pub token: TokenView,
    pub position: nat,
}

impl View for ParseError {
    type V = ParseErrorView;

    open spec fn view(&self) -> ParseErrorView {
        ParseErrorView { kind: self.kind, token: self.token@, position: self.position as nat }
    }
}

impl ParseErrorView {
    pub open spec fn message(self) -> Seq<char> {
        let head = match self.kind {
            ParseErrorKind::UnexpectedToken => "Unexpected token"@,
            ParseErrorKind::ExpectedSemicolon => "Expected semicolon"@,
            ParseErrorKind::Expected(d) => "Expected "@ + d.token().text(),
            ParseErrorKind::InvalidAssignment => "Invalid assignment"@,
            ParseErrorKind::InvalidParameter => "Expected variable name"@,
        };
        head + ", found: "@ + self.token.text()
    }
}

impl ParseError {
    pub fn message(&self) -> (r: String)
        ensures
            r@ == self@.message(),
    {
        let head = match self.kind {
            ParseErrorKind::UnexpectedToken => String::from_str("Unexpected token"),
            ParseErrorKind::ExpectedSemicolon => String::from_str("Expected semicolon"),
            ParseErrorKind::Expected(d) => {
                let wanted = match d {
                    Delimiter::LParen => Token::LParen,
                    Delimiter::RParen => Token::RParen,
                    Delimiter::RBracket => Token::RBracket,
                    Delimiter::RBrace => Token::RBrace,
                    Delimiter::Colon => Token::Colon,
                };
                String::from_str("Expected ").concat(wanted.text().as_str())
            },
            ParseErrorKind::InvalidAssignment => String::from_str("Invalid assignment"),
            ParseErrorKind::InvalidParameter => String::from_str("Expected variable name"),
        };
        head.concat(", found: ").concat(self.token.text().as_str())
    }
}

/// A failure while a program runs.
#[derive(Debug, PartialEq)]
pub enum RuntimeError {
    /// A name was read that no frame of the chain binds.
    UndefinedVariable(String),
    /// A name was assigned to that no frame of the chain binds.
    Undeclared(String),
    /// A name was bound a second time in one frame.
    Redefinition(String),
    /// A call with more or fewer arguments than the function has parameters.
    ArityMismatch,
    /// A call of a value that is neither a function nor a builtin.
    NotCallable,
    /// An operator was given a value of a type that it is not defined on.
    InvalidOperands,
    /// A node holds a token that is no operator of its kind.
    InvalidOperator,
    DivisionByZero,
    ModuloByZero,
    /// A subscript that is no position in the collection.
    IndexOutOfRange,
    /// A `let` of something other than a name or an assignment.
    InvalidBinding,
    /// The condition of an `if` or a ternary is no boolean.
    ConditionNotBoolean,
    /// A `break` reached the boundary of a function call.
    BreakOutsideLoop,
    /// A function value names a frame that this interpreter does not hold.
    UnknownFrame,
    /// A builtin failed, with the host's words.
    Builtin(String),
    /// The host answered a request with the wrong kind of event.
    UnexpectedEvent,
}

pub enum RuntimeErrorView {
    UndefinedVariable(Seq<char>),
    Undeclared(Seq<char>),
    Redefinition(Seq<char>),
    ArityMismatch,
    NotCallable,
    InvalidOperands,
    InvalidOperator,
    DivisionByZero,
    ModuloByZero,
    IndexOutOfRange,
    InvalidBinding,
    ConditionNotBoolean,
    BreakOutsideLoop,
    UnknownFrame,
    Builtin(Seq<char>),
    UnexpectedEvent,
}

impl View for RuntimeError {
    type V = RuntimeErrorView;

    open spec fn view(&self) -> RuntimeErrorView {
        match self {
            RuntimeError::UndefinedVariable(s) => RuntimeErrorView::UndefinedVariable(s@),
            RuntimeError::Undeclared(s) => RuntimeErrorView::Undeclared(s@),
            RuntimeError::Redefinition(s) => RuntimeErrorView::Redefinition(s@),
            RuntimeError::ArityMismatch => RuntimeErrorView::ArityMismatch,
            RuntimeError::NotCallable => RuntimeErrorView::NotCallable,
            RuntimeError::InvalidOperands => RuntimeErrorView::InvalidOperands,
            RuntimeError::InvalidOperator => RuntimeErrorView::InvalidOperator,
            RuntimeError::DivisionByZero => RuntimeErrorView::DivisionByZero,
            RuntimeError::ModuloByZero => RuntimeErrorView::ModuloByZero,
            RuntimeError::IndexOutOfRange => RuntimeErrorView::IndexOutOfRange,
            RuntimeError::InvalidBinding => RuntimeErrorView::InvalidBinding,
            RuntimeError::ConditionNotBoolean => RuntimeErrorView::ConditionNotBoolean,
            RuntimeError::BreakOutsideLoop => RuntimeErrorView::BreakOutsideLoop,
            RuntimeError::UnknownFrame => RuntimeErrorView::UnknownFrame,
            RuntimeError::Builtin(s) => RuntimeErrorView::Builtin(s@),
            RuntimeError::UnexpectedEvent => RuntimeErrorView::UnexpectedEvent,
        }
    }
}

impl RuntimeErrorView {
    pub open spec fn message(self) -> Seq<char> {
        match self {
            RuntimeErrorView::UndefinedVariable(name) => "Undefined variable: "@ + name,
            RuntimeErrorView::Undeclared(name) => "Variable "@ + name + " not declared."@,
            RuntimeErrorView::Redefinition(name) => "Variable "@ + name
                + " have been declared!"@,
            RuntimeErrorView::ArityMismatch => "Arity mismatch"@,
            RuntimeErrorView::NotCallable => "Attempted to call a non-function value"@,
            RuntimeErrorView::InvalidOperands => "Invalid operands"@,
            RuntimeErrorView::InvalidOperator => "Invalid operator"@,
            RuntimeErrorView::DivisionByZero => "Division by zero"@,
            RuntimeErrorView::ModuloByZero => "Modulo by zero"@,
            RuntimeErrorView::IndexOutOfRange => "Index out of range"@,
            RuntimeErrorView::InvalidBinding => "Cannot bind this"@,
            RuntimeErrorView::ConditionNotBoolean => "Expected bool as condition"@,
            RuntimeErrorView::BreakOutsideLoop => "Break outside of a loop"@,
            RuntimeErrorView::UnknownFrame => "Function from another interpreter"@,
            RuntimeErrorView::Builtin(text) => text,
            RuntimeErrorView::UnexpectedEvent => "Unexpected answer from the host"@,
        }
    }
}

impl Clone for RuntimeError {
    fn clone(&self) -> (r: RuntimeError)
        ensures
            r@ == self@,
    {
        match self {
            RuntimeError::UndefinedVariable(s) => RuntimeError::UndefinedVariable(s.clone()),
            RuntimeError::Undeclared(s) => RuntimeError::Undeclared(s.clone()),
            RuntimeError::Redefinition(s) => RuntimeError::Redefinition(s.clone()),
            RuntimeError::ArityMismatch => RuntimeError::ArityMismatch,
            RuntimeError::NotCallable => RuntimeError::NotCallable,
            RuntimeError::InvalidOperands => RuntimeError::InvalidOperands,
            RuntimeError::InvalidOperator => RuntimeError::InvalidOperator,
            RuntimeError::DivisionByZero => RuntimeError::DivisionByZero,
            RuntimeError::ModuloByZero => RuntimeError::ModuloByZero,
            RuntimeError::IndexOutOfRange => RuntimeError::IndexOutOfRange,
            RuntimeError::InvalidBinding => RuntimeError::InvalidBinding,
            RuntimeError::ConditionNotBoolean => RuntimeError::ConditionNotBoolean,
            RuntimeError::BreakOutsideLoop => RuntimeError::BreakOutsideLoop,
            RuntimeError::UnknownFrame => RuntimeError::UnknownFrame,
            RuntimeError::Builtin(s) => RuntimeError::Builtin(s.clone()),
            RuntimeError::UnexpectedEvent => RuntimeError::UnexpectedEvent,
        }
    }
}

impl RuntimeError {
    pub fn message(&self) -> (r: String)
        ensures
            r@ == self@.message(),
    {
        match self {
            RuntimeError::UndefinedVariable(name) => String::from_str(
                "Undefined variable: ",
            ).concat(name.as_str()),
            RuntimeError::Undeclared(name) => String::from_str("Variable ").concat(
                name.as_str(),
            ).concat(" not declared."),
            RuntimeError::Redefinition(name) => String::from_str("Variable ").concat(
                name.as_str(),
            ).concat(" have been declared!"),
            RuntimeError::ArityMismatch => String::from_str("Arity mismatch"),
            RuntimeError::NotCallable => String::from_str("Attempted to call a non-function value"),
            RuntimeError::InvalidOperands => String::from_str("Invalid operands"),
            RuntimeError::InvalidOperator => String::from_str("Invalid operator"),
            RuntimeError::DivisionByZero => String::from_str("Division by zero"),
            RuntimeError::ModuloByZero => String::from_str("Modulo by zero"),
            RuntimeError::IndexOutOfRange => String::from_str("Index out of range"),
            RuntimeError::InvalidBinding => String::from_str("Cannot bind this"),
            RuntimeError::ConditionNotBoolean => String::from_str("Expected bool as condition"),
            RuntimeError::BreakOutsideLoop => String::from_str("Break outside of a loop"),
            RuntimeError::UnknownFrame => String::from_str("Function from another interpreter"),
            RuntimeError::Builtin(text) => text.clone(),
            RuntimeError::UnexpectedEvent => String::from_str("Unexpected answer from the host"),
        }
    }
}

/// Any failure between source text and value.
#[derive(Debug, PartialEq)]
pub enum Error {
    Lex(LexError),
    Parse(ParseError),
    Runtime(RuntimeError),
}

pub enum ErrorView {
    Lex(LexErrorView),
    Parse(ParseErrorView),
    Runtime(RuntimeErrorView),
}

impl View for Error {
    type V = ErrorView;

    open spec fn view(&self) -> ErrorView {
        match self {
            Error::Lex(e) => ErrorView::Lex(e@),
            Error::Parse(e) => ErrorView::Parse(e@),
            Error::Runtime(e) => ErrorView::Runtime(e@),
        }
    }
}

impl ErrorView {
    pub open spec fn message(self) -> Seq<char> {
        match self {
            ErrorView::Lex(e) => e.message(),
            ErrorView::Parse(e) => e.message(),
            ErrorView::Runtime(e) => e.message(),
        }
    }
}

impl Error {
    pub fn message(&self) -> (r: String)
        ensures
            r@ == self@.message(),
    {
        match self {
            Error::Lex(e) => e.message(),
            Error::Parse(e) => e.message(),
            Error::Runtime(e) => e.message(),
        }
    }
}

} // verus!
