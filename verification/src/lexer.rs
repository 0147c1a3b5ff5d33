//! From source text to tokens.

use vstd::prelude::*;
use vstd::string::StringExecFns;
use crate::error::{LexError, LexErrorView};
use crate::text::{chars_of, push_char};
use crate::token::{tokens_of, Token, TokenView};

verus! {

/// Blanks, tabs and line ends separate tokens.
pub open spec fn is_space(c: char) -> bool {
    c == ' ' || c == '\t' || c == '\n' || c == '\r'
}

pub open spec fn is_digit(c: char) -> bool {
    '0' <= c && c <= '9'
}

/// A character of a numeric literal: a digit or a point.
pub open spec fn is_numeric(c: char) -> bool {
    is_digit(c) || c == '.'
}

/// A character that can start a name.
pub open spec fn is_letter(c: char) -> bool {
    ('a' <= c && c <= 'z') || ('A' <= c && c <= 'Z') || c == '_'
}

/// A character that can go on a name.
pub open spec fn is_word(c: char) -> bool {
    is_letter(c) || is_digit(c)
}

/// Where the longest run of characters of one class that starts at `from`
/// ends.
pub open spec fn run_end(s: Seq<char>, from: nat, class: spec_fn(char) -> bool) -> nat
    decreases s.len() - from,
{
    if from < s.len() && class(s[from as int]) {
        run_end(s, from + 1, class)
    } else {
        from
    }
}

/// The number of points in a text.
pub open spec fn points(text: Seq<char>) -> nat
    decreases text.len(),
{
    if text.len() == 0 {
        0
    } else {
        points(text.drop_last()) + if text.last() == '.' {
            1nat
        } else {
            0nat
        }
    }
}

/// A run of digits and points is a number when it has at least one digit and
/// at most one point.
pub open spec fn valid_number(text: Seq<char>) -> bool {
    points(text) <= 1 && points(text) < text.len()
}

/// The token that a name is if it is a keyword.
pub open spec fn keyword(word: Seq<char>) -> Option<TokenView> {
    if word == "fn"@ {
        Some(TokenView::FN)
    } else if word == "return"@ {
        Some(TokenView::Return)
    } else if word == "true"@ {
        Some(TokenView::True)
    } else if word == "false"@ {
        Some(TokenView::False)
    } else if word == "null"@ {
        Some(TokenView::Null)
    } else if word == "let"@ {
        Some(TokenView::Let)
    } else if word == "if"@ {
        Some(TokenView::If)
    } else if word == "else"@ {
        Some(TokenView::Else)
    } else if word == "break"@ {
        Some(TokenView::Break)
    } else if word == "while"@ {
        Some(TokenView::While)
    } else {
        None
    }
}

/// The character that stands behind a backslash for the character `c`.
pub open spec fn escape(c: char) -> Option<char> {
    if c == '"' {
        Some('"')
    } else if c == '\\' {
        Some('\\')
    } else if c == '/' {
        Some('/')
    } else if c == 'b' {
        Some('\u{8}')
    } else if c == 'f' {
        Some('\u{c}')
    } else if c == 'n' {
        Some('\n')
    } else if c == 'r' {
        Some('\r')
    } else if c == 't' {
        Some('\t')
    } else if c == 'u' || c == '0' {
        Some('\0')
    } else {
        None
    }
}

/// The rest of a string literal from position `i`, behind the opening quote:
/// the literal's text, `before` being what was read so far, and the position
/// behind the closing quote.
pub open spec fn string_body(s: Seq<char>, i: nat, before: Seq<char>) -> Result<
    (Seq<char>, nat),
    LexErrorView,
>
    decreases s.len() - i,
{
    if i >= s.len() {
        Err(LexErrorView::UnterminatedString)
    } else if s[i as int] == '"' {
        Ok((before, i + 1))
    } else if s[i as int] == '\\' {
        if i + 1 >= s.len() {
            Err(LexErrorView::UnterminatedString)
        } else {
            match escape(s[i as int + 1]) {
                Some(c) => string_body(s, i + 2, before.push(c)),
                None => Err(LexErrorView::UnknownEscape(s[i as int + 1])),
            }
        }
    } else if s[i as int] == '\n' {
        Err(LexErrorView::NewlineInString)
    } else {
        string_body(s, i + 1, before.push(s[i as int]))
    }
}

/// The token of one or two characters that starts with `c`, and its length.
/// `next` is the character behind `c`, if there is one.
pub open spec fn symbol(c: char, next: Option<char>) -> Result<(TokenView, nat), LexErrorView> {
    if c == '+' {
        Ok((TokenView::Plus, 1))
    } else if c == '-' {
        Ok((TokenView::Minus, 1))
    } else if c == '*' {
        Ok((TokenView::Mul, 1))
    } else if c == '/' {
        Ok((TokenView::Div, 1))
    } else if c == '%' {
        Ok((TokenView::Mod, 1))
    } else if c == ',' {
        Ok((TokenView::Comma, 1))
    } else if c == '(' {
        Ok((TokenView::LParen, 1))
    } else if c == ')' {
        Ok((TokenView::RParen, 1))
    } else if c == '[' {
        Ok((TokenView::LBracket, 1))
    } else if c == ']' {
        Ok((TokenView::RBracket, 1))
    } else if c == '{' {
        Ok((TokenView::LBrace, 1))
    } else if c == '}' {
        Ok((TokenView::RBrace, 1))
    } else if c == ';' {
        Ok((TokenView::Semicolon, 1))
    } else if c == '?' {
        Ok((TokenView::Question, 1))
    } else if c == ':' {
        Ok((TokenView::Colon, 1))
    } else if c == '&' {
        if next == Some('&') {
            Ok((TokenView::And, 2))
        } else {
            Err(LexErrorView::InvalidCharacter(c))
        }
    } else if c == '|' {
        if next == Some('|') {
            Ok((TokenView::Or, 2))
        } else {
            Err(LexErrorView::InvalidCharacter(c))
        }
    } else if c == '>' {
        if next == Some('=') {
            Ok((TokenView::GreaterEqual, 2))
        } else {
            Ok((TokenView::Greater, 1))
        }
    } else if c == '<' {
        if next == Some('=') {
            Ok((TokenView::LessEqual, 2))
        } else {
            Ok((TokenView::Less, 1))
        }
    } else if c == '=' {
        if next == Some('=') {
            Ok((TokenView::Equal, 2))
        } else {
            Ok((TokenView::Assign, 1))
        }
    } else if c == '!' {
        if next == Some('=') {
            Ok((TokenView::UnEqual, 2))
        } else {
            Ok((TokenView::Not, 1))
        }
    } else {
        Err(LexErrorView::InvalidCharacter(c))
    }
}

/// The character at a position, if the text reaches that far.
pub open spec fn peek(s: Seq<char>, i: nat) -> Option<char> {
    if i < s.len() {
        Some(s[i as int])
    } else {
        None
    }
}

/// The token that starts at `from`, and the position behind it.
pub open spec fn token_at(s: Seq<char>, from: nat) -> Result<(TokenView, nat), LexErrorView>
    recommends
        from < s.len(),
{
    let c = s[from as int];
    if c == '"' {
        match string_body(s, from + 1, Seq::empty()) {
            Ok((text, end)) => Ok((TokenView::String(text), end)),
            Err(e) => Err(e),
        }
    } else if is_numeric(c) {
        let end = run_end(s, from, |c: char| is_numeric(c));
        let text = s.subrange(from as int, end as int);
        if valid_number(text) {
            Ok((TokenView::Float(text), end))
        } else {
            Err(LexErrorView::MalformedNumber(text))
        }
    } else if is_letter(c) {
        let end = run_end(s, from, |c: char| is_word(c));
        let word = s.subrange(from as int, end as int);
        match keyword(word) {
            Some(token) => Ok((token, end)),
            None => Ok((TokenView::Identifier(word), end)),
        }
    } else {
        match symbol(c, peek(s, from + 1)) {
            Ok((token, len)) => Ok((token, from + len)),
            Err(e) => Err(e),
        }
    }
}

/// The tokens of the text from position `from` on, with the end-of-input
/// token last.
pub open spec fn tokens_from(s: Seq<char>, from: nat) -> Result<Seq<TokenView>, LexErrorView>
    decreases s.len() - from,
    via tokens_from_decreases
{
    if from >= s.len() {
        Ok(seq![TokenView::EOF])
    } else if is_space(s[from as int]) {
        tokens_from(s, from + 1)
    } else {
        match token_at(s, from) {
            Err(e) => Err(e),
            Ok((token, end)) => match tokens_from(s, end) {
                Ok(rest) => Ok(seq![token] + rest),
                Err(e) => Err(e),
            },
        }
    }
}

#[via_fn]
proof fn tokens_from_decreases(s: Seq<char>, from: nat) {
    if from < s.len() && !is_space(s[from as int]) {
        token_advances(s, from);
    }
}

/// The tokens of a text.
pub open spec fn tokens(s: Seq<char>) -> Result<Seq<TokenView>, LexErrorView> {
    tokens_from(s, 0)
}

/// A run ends at or behind its start, within the text, and holds only
/// characters of its class.
pub proof fn run_is_bounded(s: Seq<char>, from: nat, class: spec_fn(char) -> bool)
    requires
        from <= s.len(),
    ensures
        from <= run_end(s, from, class) <= s.len(),
        from < s.len() && class(s[from as int]) ==> from < run_end(s, from, class),
        forall|j: int| from <= j < run_end(s, from, class) ==> class(#[trigger] s[j]),
        run_end(s, from, class) < s.len() ==> !class(s[run_end(s, from, class) as int]),
    decreases s.len() - from,
{
    if from < s.len() && class(s[from as int]) {
        run_is_bounded(s, from + 1, class);
    }
}

/// A string literal ends behind where its body starts, within the text.
pub proof fn string_is_bounded(s: Seq<char>, i: nat, before: Seq<char>)
    ensures
        string_body(s, i, before) matches Ok((_, end)) ==> i < end <= s.len(),
    decreases s.len() - i,
{
    if i < s.len() && s[i as int] != '"' {
        if s[i as int] == '\\' {
            if i + 1 < s.len() {
                match escape(s[i as int + 1]) {
                    Some(c) => string_is_bounded(s, i + 2, before.push(c)),
                    None => {},
                }
            }
        } else if s[i as int] != '\n' {
            string_is_bounded(s, i + 1, before.push(s[i as int]));
        }
    }
}

/// Every token takes at least one character, and none beyond the text.
pub proof fn token_advances(s: Seq<char>, from: nat)
    requires
        from < s.len(),
    ensures
        token_at(s, from) matches Ok((_, end)) ==> from < end <= s.len(),
{
    let c = s[from as int];
    if c == '"' {
        string_is_bounded(s, from + 1, Seq::empty());
    } else if is_numeric(c) {
        run_is_bounded(s, from, |c: char| is_numeric(c));
    } else if is_letter(c) {
        run_is_bounded(s, from, |c: char| is_word(c));
    }
}

/// The end-of-input token is last in the tokens of every text that has
/// tokens, and the tokens are never none.
pub proof fn tokens_end_with_eof(s: Seq<char>, from: nat)
    ensures
        tokens_from(s, from) matches Ok(found) ==> found.len() > 0 && found.last()
            == TokenView::EOF,
    decreases s.len() - from,
{
    if from < s.len() {
        if is_space(s[from as int]) {
            tokens_end_with_eof(s, from + 1);
        } else {
            token_advances(s, from);
            match token_at(s, from) {
                Ok((_, end)) => tokens_end_with_eof(s, end),
                Err(_) => {},
            }
        }
    }
}

fn space(c: char) -> (r: bool)
    ensures
        r == is_space(c),
{
    c == ' ' || c == '\t' || c == '\n' || c == '\r'
}

fn digit(c: char) -> (r: bool)
    ensures
        r == is_digit(c),
{
    '0' <= c && c <= '9'
}

fn letter(c: char) -> (r: bool)
    ensures
        r == is_letter(c),
{
    ('a' <= c && c <= 'z') || ('A' <= c && c <= 'Z') || c == '_'
}

fn unescape(c: char) -> (r: Option<char>)
    ensures
        r == escape(c),
{
    if c == '"' {
        Some('"')
    } else if c == '\\' {
        Some('\\')
    } else if c == '/' {
        Some('/')
    } else if c == 'b' {
        Some('\u{8}')
    } else if c == 'f' {
        Some('\u{c}')
    } else if c == 'n' {
        Some('\n')
    } else if c == 'r' {
        Some('\r')
    } else if c == 't' {
        Some('\t')
    } else if c == 'u' || c == '0' {
        Some('\0')
    } else {
        None
    }
}

fn is(word: &String, text: &str) -> (r: bool)
    ensures
        r == (word@ == text@),
{
    *word == String::from_str(text)
}

fn promote(word: String) -> (r: Token)
    ensures
        r@ == match keyword(word@) {
            Some(token) => token,
            None => TokenView::Identifier(word@),
        },
{
    if is(&word, "fn") {
        Token::FN
    } else if is(&word, "return") {
        Token::Return
    } else if is(&word, "true") {
        Token::True
    } else if is(&word, "false") {
        Token::False
    } else if is(&word, "null") {
        Token::Null
    } else if is(&word, "let") {
        Token::Let
    } else if is(&word, "if") {
        Token::If
    } else if is(&word, "else") {
        Token::Else
    } else if is(&word, "break") {
        Token::Break
    } else if is(&word, "while") {
        Token::While
    } else {
        Token::Identifier(word)
    }
}

fn punctuation(c: char, next: Option<char>) -> (r: Result<(Token, usize), LexError>)
    ensures
        match r {
            Ok((token, len)) => symbol(c, next) == Ok::<(TokenView, nat), LexErrorView>(
                (token@, len as nat),
            ) && 1 <= len <= 2,
            Err(e) => symbol(c, next) == Err::<(TokenView, nat), LexErrorView>(e@),
        },
{
    let equals = match next {
        Some(n) => n == '=',
        None => false,
    };
    if c == '+' {
        Ok((Token::Plus, 1))
    } else if c == '-' {
        Ok((Token::Minus, 1))
    } else if c == '*' {
        Ok((Token::Mul, 1))
    } else if c == '/' {
        Ok((Token::Div, 1))
    } else if c == '%' {
        Ok((Token::Mod, 1))
    } else if c == ',' {
        Ok((Token::Comma, 1))
    } else if c == '(' {
        Ok((Token::LParen, 1))
    } else if c == ')' {
        Ok((Token::RParen, 1))
    } else if c == '[' {
        Ok((Token::LBracket, 1))
    } else if c == ']' {
        Ok((Token::RBracket, 1))
    } else if c == '{' {
        Ok((Token::LBrace, 1))
    } else if c == '}' {
        Ok((Token::RBrace, 1))
    } else if c == ';' {
        Ok((Token::Semicolon, 1))
    } else if c == '?' {
        Ok((Token::Question, 1))
    } else if c == ':' {
        Ok((Token::Colon, 1))
    } else if c == '&' {
        match next {
            Some('&') => Ok((Token::And, 2)),
            _ => Err(LexError::InvalidCharacter(c)),
        }
    } else if c == '|' {
        match next {
            Some('|') => Ok((Token::Or, 2)),
            _ => Err(LexError::InvalidCharacter(c)),
        }
    } else if c == '>' {
        if equals {
            Ok((Token::GreaterEqual, 2))
        } else {
            Ok((Token::Greater, 1))
        }
    } else if c == '<' {
        if equals {
            Ok((Token::LessEqual, 2))
        } else {
            Ok((Token::Less, 1))
        }
    } else if c == '=' {
        if equals {
            Ok((Token::Equal, 2))
        } else {
            Ok((Token::Assign, 1))
        }
    } else if c == '!' {
        if equals {
            Ok((Token::UnEqual, 2))
        } else {
            Ok((Token::Not, 1))
        }
    } else {
        Err(LexError::InvalidCharacter(c))
    }
}

/// The lexer.
#[derive(Debug)]
pub struct Lexer {}

impl Lexer {
    pub fn new() -> Lexer {
        Lexer {  }
    }

    /// Reads the numeric literal that starts at `from`.
    fn number(chars: &Vec<char>, from: usize) -> (r: (String, usize, bool))
        requires
            from < chars.len(),
        ensures
            r.1 == run_end(chars@, from as nat, |c: char| is_numeric(c)),
            from <= r.1 <= chars.len(),
            r.0@ == chars@.subrange(from as int, r.1 as int),
            r.2 == valid_number(r.0@),
    {
        let ghost class = |c: char| is_numeric(c);
        let mut text = String::new();
        let mut dots: usize = 0;
        let mut i = from;
        assert(chars@.subrange(from as int, from as int) =~= Seq::<char>::empty());
        while i < chars.len() && (digit(chars[i]) || chars[i] == '.')
            invariant
                from <= i <= chars.len(),
                class == (|c: char| is_numeric(c)),
                run_end(chars@, i as nat, class) == run_end(chars@, from as nat, class),
                text@ == chars@.subrange(from as int, i as int),
                dots == points(text@),
                dots <= i - from,
            decreases chars.len() - i,
        {
            let c = chars[i];
            assert(class(c));
            push_char(&mut text, c);
            assert(chars@.subrange(from as int, i + 1) =~= chars@.subrange(
                from as int,
                i as int,
            ).push(c));
            assert(text@.drop_last() =~= chars@.subrange(from as int, i as int));
            if c == '.' {
                dots = dots + 1;
            }
            i = i + 1;
        }
        assert(!(i < chars.len() && class(chars@[i as int])));
        let valid = dots <= 1 && dots < i - from;
        (text, i, valid)
    }

    /// Reads the name that starts at `from`.
    fn identifier(chars: &Vec<char>, from: usize) -> (r: (String, usize))
        requires
            from < chars.len(),
        ensures
            r.1 == run_end(chars@, from as nat, |c: char| is_word(c)),
            from <= r.1 <= chars.len(),
            r.0@ == chars@.subrange(from as int, r.1 as int),
    {
        let ghost class = |c: char| is_word(c);
        let mut text = String::new();
        let mut i = from;
        assert(chars@.subrange(from as int, from as int) =~= Seq::<char>::empty());
        while i < chars.len() && (letter(chars[i]) || digit(chars[i]))
            invariant
                from <= i <= chars.len(),
                class == (|c: char| is_word(c)),
                run_end(chars@, i as nat, class) == run_end(chars@, from as nat, class),
                text@ == chars@.subrange(from as int, i as int),
            decreases chars.len() - i,
        {
            let c = chars[i];
            assert(class(c));
            push_char(&mut text, c);
            assert(chars@.subrange(from as int, i + 1) =~= chars@.subrange(
                from as int,
                i as int,
            ).push(c));
            i = i + 1;
        }
        assert(!(i < chars.len() && class(chars@[i as int])));
        (text, i)
    }

    /// Reads a string literal from behind its opening quote.
    fn string(chars: &Vec<char>, from: usize) -> (r: Result<(String, usize), LexError>)
        requires
            from <= chars.len(),
        ensures
            match r {
                Ok((text, end)) => string_body(chars@, from as nat, Seq::empty()) == Ok::<
                    (Seq<char>, nat),
                    LexErrorView,
                >((text@, end as nat)) && from < end <= chars.len(),
                Err(e) => string_body(chars@, from as nat, Seq::empty()) == Err::<
                    (Seq<char>, nat),
                    LexErrorView,
                >(e@),
            },
    {
        let mut text = String::new();
        let mut i = from;
        while i < chars.len()
            invariant
                from <= i <= chars.len(),
                string_body(chars@, i as nat, text@) == string_body(
                    chars@,
                    from as nat,
                    Seq::empty(),
                ),
            decreases chars.len() - i,
        {
            let c = chars[i];
            if c == '"' {
                return Ok((text, i + 1));
            } else if c == '\\' {
                if i + 1 >= chars.len() {
                    return Err(LexError::UnterminatedString);
                }
                let escaped = chars[i + 1];
                match unescape(escaped) {
                    Some(plain) => {
                        push_char(&mut text, plain);
                        i = i + 2;
                    },
                    None => {
                        return Err(LexError::UnknownEscape(escaped));
                    },
                }
            } else if c == '\n' {
                return Err(LexError::NewlineInString);
            } else {
                push_char(&mut text, c);
                i = i + 1;
            }
        }
        Err(LexError::UnterminatedString)
    }

    /// Reads the token that starts at `from`.
    fn token(chars: &Vec<char>, from: usize) -> (r: Result<(Token, usize), LexError>)
        requires
            from < chars.len(),
        ensures
            match r {
                Ok((token, end)) => token_at(chars@, from as nat) == Ok::<
                    (TokenView, nat),
                    LexErrorView,
                >((token@, end as nat)) && from < end <= chars.len(),
                Err(e) => token_at(chars@, from as nat) == Err::<(TokenView, nat), LexErrorView>(
                    e@,
                ),
            },
    {
        let c = chars[from];
        if c == '"' {
            match Lexer::string(chars, from + 1) {
                Ok((text, end)) => Ok((Token::String(text), end)),
                Err(e) => Err(e),
            }
        } else if digit(c) || c == '.' {
            proof {
                run_is_bounded(chars@, from as nat, |c: char| is_numeric(c));
            }
            let (text, end, valid) = Lexer::number(chars, from);
            if valid {
                Ok((Token::Float(text), end))
            } else {
                Err(LexError::MalformedNumber(text))
            }
        } else if letter(c) {
            proof {
                run_is_bounded(chars@, from as nat, |c: char| is_word(c));
            }
            let (word, end) = Lexer::identifier(chars, from);
            Ok((promote(word), end))
        } else {
            let next = if from + 1 < chars.len() {
                Some(chars[from + 1])
            } else {
                None
            };
            match punctuation(c, next) {
                Ok((token, len)) => {
                    Ok((token, from + len))
                },
                Err(e) => Err(e),
            }
        }
    }

    /// Turns source text into tokens, the end-of-input token last.
    pub fn tokenize(text: String) -> (r: Result<Vec<Token>, LexError>)
        ensures
            match r {
                Ok(found) => tokens(text@) == Ok::<Seq<TokenView>, LexErrorView>(
                    tokens_of(found@),
                ),
                Err(e) => tokens(text@) == Err::<Seq<TokenView>, LexErrorView>(e@),
            },
    {
        reveal(tokens_of);
        let chars = chars_of(text.as_str());
        let mut found: Vec<Token> = Vec::new();
        let mut i: usize = 0;
        assert(tokens_of(found@) =~= Seq::empty());
        while i < chars.len()
            invariant
                i <= chars.len(),
                chars@ == text@,
                tokens(text@) == prepend(tokens_of(found@), tokens_from(chars@, i as nat)),
            decreases chars.len() - i,
        {
            reveal(tokens_of);
            if space(chars[i]) {
                i = i + 1;
            } else {
                match Lexer::token(&chars, i) {
                    Err(e) => {
                        return Err(e);
                    },
                    Ok((token, end)) => {
                        let ghost before = tokens_of(found@);
                        found.push(token);
                        assert(tokens_of(found@) =~= before.push(token@));
                        assert(prepend(before, tokens_from(chars@, i as nat)) == prepend(
                            before.push(token@),
                            tokens_from(chars@, end as nat),
                        )) by {
                            match tokens_from(chars@, end as nat) {
                                Ok(rest) => {
                                    assert(before + (seq![token@] + rest) =~= before.push(token@)
                                        + rest);
                                },
                                Err(_) => {},
                            }
                        }
                        i = end;
                    },
                }
            }
        }
        let ghost before = tokens_of(found@);
        found.push(Token::EOF);
        assert(tokens_of(found@) =~= before + seq![TokenView::EOF]);
        Ok(found)
    }
}

/// The result of lexing, behind tokens that were found before.
pub open spec fn prepend(before: Seq<TokenView>, rest: Result<Seq<TokenView>, LexErrorView>) -> Result<
    Seq<TokenView>,
    LexErrorView,
> {
    match rest {
        Ok(found) => Ok(before + found),
        Err(e) => Err(e),
    }
}

} // verus!
