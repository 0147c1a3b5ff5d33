//! From tokens to the syntax tree, by recursive descent.
//!
//! The grammar is stated here as functions from a token sequence and a
//! position to a tree and the number of tokens it took. The parser is proved
//! to compute these functions.

use vstd::prelude::*;
use crate::ast_node::{nodes_of, ASTNode, NodeView};
use crate::error::{
    Delimiter, Error, ErrorView, LexError, LexErrorView, ParseError, ParseErrorKind, ParseErrorView,
};
use crate::lexer::{tokens, Lexer};
use crate::text::names_of;
use crate::token::{literal_value, tokens_of, Token, TokenView};

verus! {

/// A tree, or a list, with the number of tokens that it was parsed from.
pub type Parsed<T> = Result<(T, nat), ParseErrorView>;

/// The token at a position. Behind the last token the input has ended.
pub open spec fn at(tokens: Seq<TokenView>, pos: nat) -> TokenView {
    if pos < tokens.len() {
        tokens[pos as int]
    } else {
        TokenView::EOF
    }
}

/// The number of tokens from a position on.
pub open spec fn left(tokens: Seq<TokenView>, pos: nat) -> nat {
    if pos < tokens.len() {
        (tokens.len() - pos) as nat
    } else {
        0
    }
}

/// The failure of the given kind at a position.
pub open spec fn fault(tokens: Seq<TokenView>, pos: nat, kind: ParseErrorKind) -> ParseErrorView {
    ParseErrorView { kind, token: at(tokens, pos), position: pos }
}

/// A result that took `more` tokens before it began.
pub open spec fn after<T>(more: nat, result: Parsed<T>) -> Parsed<T> {
    match result {
        Ok((found, taken)) => Ok((found, more + taken)),
        Err(e) => Err(e),
    }
}

/// Whether a token is a binary operator of a tier. Tier 0 binds tightest:
/// `* / %`, then `+ -`, the orderings, `== !=`, `&&`, and `||` at tier 5.
pub open spec fn operator_at(tier: nat, token: TokenView) -> bool {
    if tier == 0 {
        token is Mul || token is Div || token is Mod
    } else if tier == 1 {
        token is Plus || token is Minus
    } else if tier == 2 {
        token is Greater || token is Less || token is GreaterEqual || token is LessEqual
    } else if tier == 3 {
        token is Equal || token is UnEqual
    } else if tier == 4 {
        token is And
    } else if tier == 5 {
        token is Or
    } else {
        false
    }
}

/// The node of a binary operator of a tier: arithmetic in the two tightest
/// tiers, a logical operation in the others.
pub open spec fn combine(tier: nat, operator: TokenView, left: NodeView, right: NodeView) -> NodeView {
    if tier <= 1 {
        NodeView::BinaryOperation { operator, left: Box::new(left), right: Box::new(right) }
    } else {
        NodeView::LogicalOperation { operator, left: Box::new(left), right: Box::new(right) }
    }
}

/// A parenthesised list of one expression is that expression.
pub open spec fn grouped(items: Seq<NodeView>) -> NodeView {
    if items.len() == 1 {
        items[0]
    } else {
        NodeView::Tuple(items)
    }
}

/// `name (',' name)*` and the closing parenthesis, behind the names in
/// `before`.
pub open spec fn names(tokens: Seq<TokenView>, pos: nat, before: Seq<Seq<char>>) -> Parsed<
    Seq<Seq<char>>,
>
    decreases left(tokens, pos),
{
    match at(tokens, pos) {
        TokenView::Identifier(name) => match at(tokens, pos + 1) {
            TokenView::Comma => after(2, names(tokens, pos + 2, before.push(name))),
            TokenView::RParen => Ok((before.push(name), 2)),
            _ => Err(fault(tokens, pos + 1, ParseErrorKind::Expected(Delimiter::RParen))),
        },
        _ => Err(fault(tokens, pos, ParseErrorKind::InvalidParameter)),
    }
}

/// The parameter list of a function literal: `'(' (name (',' name)*)? ')'`.
pub open spec fn parameters(tokens: Seq<TokenView>, pos: nat) -> Parsed<Seq<Seq<char>>> {
    if !(at(tokens, pos) is LParen) {
        Err(fault(tokens, pos, ParseErrorKind::Expected(Delimiter::LParen)))
    } else if at(tokens, pos + 1) is RParen {
        Ok((Seq::empty(), 2))
    } else {
        after(1, names(tokens, pos + 1, Seq::empty()))
    }
}

/// `statement (';' statement)* ';'?`, up to a `}` or the end of the input,
/// behind the statements in `before`.
#[verifier::opaque]
pub open spec fn statements(tokens: Seq<TokenView>, pos: nat, before: Seq<NodeView>) -> Parsed<
    Seq<NodeView>,
>
    decreases left(tokens, pos), 18nat,
{
    if at(tokens, pos) is EOF || at(tokens, pos) is RBrace {
        Ok((before, 0))
    } else {
        match statement(tokens, pos) {
            Err(e) => Err(e),
            Ok((found, n)) => if at(tokens, pos + n) is Semicolon {
                after(n + 1, statements(tokens, pos + n + 1, before.push(found)))
            } else if at(tokens, pos + n) is EOF || at(tokens, pos + n) is RBrace {
                Ok((before.push(found), n))
            } else {
                Err(fault(tokens, pos + n, ParseErrorKind::ExpectedSemicolon))
            },
        }
    }
}

/// One statement.
#[verifier::opaque]
pub open spec fn statement(tokens: Seq<TokenView>, pos: nat) -> Parsed<NodeView>
    decreases left(tokens, pos), 17nat,
{
    match at(tokens, pos) {
        TokenView::If => match expression(tokens, pos + 1) {
            Err(e) => Err(e),
            Ok((condition, n)) => match statement(tokens, pos + 1 + n) {
                Err(e) => Err(e),
                Ok((true_branch, m)) => if at(tokens, pos + 1 + n + m) is Else {
                    match statement(tokens, pos + 2 + n + m) {
                        Err(e) => Err(e),
                        Ok((false_branch, k)) => Ok(
                            (
                                NodeView::Conditional {
                                    condition: Box::new(condition),
                                    true_branch: Box::new(true_branch),
                                    false_branch: Some(Box::new(false_branch)),
                                },
                                2 + n + m + k,
                            ),
                        ),
                    }
                } else {
                    Ok(
                        (
                            NodeView::Conditional {
                                condition: Box::new(condition),
                                true_branch: Box::new(true_branch),
                                false_branch: None,
                            },
                            1 + n + m,
                        ),
                    )
                },
            },
        },
        TokenView::While => match expression(tokens, pos + 1) {
            Err(e) => Err(e),
            Ok((condition, n)) => match statement(tokens, pos + 1 + n) {
                Err(e) => Err(e),
                Ok((body, m)) => Ok(
                    (
                        NodeView::Loop { condition: Box::new(condition), body: Box::new(body) },
                        1 + n + m,
                    ),
                ),
            },
        },
        TokenView::Break => Ok((NodeView::Break, 1)),
        TokenView::Return => match statement(tokens, pos + 1) {
            Err(e) => Err(e),
            Ok((inner, n)) => Ok((NodeView::Return(Box::new(inner)), 1 + n)),
        },
        TokenView::Let => match expression(tokens, pos + 1) {
            Err(e) => Err(e),
            Ok((binding, n)) => Ok((NodeView::Let { ast: Box::new(binding) }, 1 + n)),
        },
        TokenView::LBrace => match statements(tokens, pos + 1, Seq::empty()) {
            Err(e) => Err(e),
            Ok((found, n)) => if at(tokens, pos + 1 + n) is RBrace {
                Ok((NodeView::Block { statements: found }, 2 + n))
            } else {
                Err(fault(tokens, pos + 1 + n, ParseErrorKind::Expected(Delimiter::RBrace)))
            },
        },
        _ => expression(tokens, pos),
    }
}

/// A function literal, or a tier-5 expression that may be the target of an
/// assignment or the condition of a ternary.
#[verifier::opaque]
pub open spec fn expression(tokens: Seq<TokenView>, pos: nat) -> Parsed<NodeView>
    decreases left(tokens, pos), 16nat,
{
    if at(tokens, pos) is FN {
        match parameters(tokens, pos + 1) {
            Err(e) => Err(e),
            Ok((params, n)) => match statement(tokens, pos + 1 + n) {
                Err(e) => Err(e),
                Ok((body, m)) => Ok(
                    (NodeView::FunctionDefinition { params, body: Box::new(body) }, 1 + n + m),
                ),
            },
        }
    } else {
        match binary(tokens, pos, 5) {
            Err(e) => Err(e),
            Ok((head, n)) => match at(tokens, pos + n) {
                TokenView::Assign => match head {
                    NodeView::Identifier(name) => match expression(tokens, pos + n + 1) {
                        Err(e) => Err(e),
                        Ok((value, m)) => Ok(
                            (NodeView::Assignment { name, value: Box::new(value) }, n + 1 + m),
                        ),
                    },
                    _ => Err(fault(tokens, pos + n, ParseErrorKind::InvalidAssignment)),
                },
                TokenView::Question => match expression(tokens, pos + n + 1) {
                    Err(e) => Err(e),
                    Ok((true_branch, m)) => if at(tokens, pos + n + 1 + m) is Colon {
                        match expression(tokens, pos + n + 2 + m) {
                            Err(e) => Err(e),
                            Ok((false_branch, k)) => Ok(
                                (
                                    NodeView::Conditional {
                                        condition: Box::new(head),
                                        true_branch: Box::new(true_branch),
                                        false_branch: Some(Box::new(false_branch)),
                                    },
                                    n + 2 + m + k,
                                ),
                            ),
                        }
                    } else {
                        Err(
                            fault(
                                tokens,
                                pos + n + 1 + m,
                                ParseErrorKind::Expected(Delimiter::Colon),
                            ),
                        )
                    },
                },
                _ => Ok((head, n)),
            },
        }
    }
}

/// An expression of a tier: operands of the next tighter tier, joined from
/// the left by the tier's operators.
#[verifier::opaque]
pub open spec fn binary(tokens: Seq<TokenView>, pos: nat, tier: nat) -> Parsed<NodeView>
    decreases left(tokens, pos), 5 + 2 * tier,
{
    match operand(tokens, pos, tier) {
        Err(e) => Err(e),
        Ok((first, n)) => after(n, binary_tail(tokens, pos + n, tier, first)),
    }
}

/// An operand of a tier: an expression of the next tighter tier, and a unary
/// expression for the tightest.
#[verifier::opaque]
pub open spec fn operand(tokens: Seq<TokenView>, pos: nat, tier: nat) -> Parsed<NodeView>
    decreases left(tokens, pos), 4 + 2 * tier,
{
    if tier == 0 {
        unary(tokens, pos)
    } else {
        binary(tokens, pos, (tier - 1) as nat)
    }
}

/// `(operator operand)*` behind the expression `head`.
#[verifier::opaque]
pub open spec fn binary_tail(tokens: Seq<TokenView>, pos: nat, tier: nat, head: NodeView) -> Parsed<
    NodeView,
>
    decreases left(tokens, pos), 4 + 2 * tier,
{
    if operator_at(tier, at(tokens, pos)) {
        match operand(tokens, pos + 1, tier) {
            Err(e) => Err(e),
            Ok((right, n)) => after(
                1 + n,
                binary_tail(
                    tokens,
                    pos + 1 + n,
                    tier,
                    combine(tier, at(tokens, pos), head, right),
                ),
            ),
        }
    } else {
        Ok((head, 0))
    }
}

/// `('+' | '-' | '!') unary | postfix`.
#[verifier::opaque]
pub open spec fn unary(tokens: Seq<TokenView>, pos: nat) -> Parsed<NodeView>
    decreases left(tokens, pos), 3nat,
{
    let operator = at(tokens, pos);
    if operator is Plus || operator is Minus || operator is Not {
        match unary(tokens, pos + 1) {
            Err(e) => Err(e),
            Ok((inner, n)) => Ok(
                (NodeView::UnaryOperation { operator, operand: Box::new(inner) }, 1 + n),
            ),
        }
    } else {
        postfix(tokens, pos)
    }
}

/// `primary ('[' expression ']')*`.
#[verifier::opaque]
pub open spec fn postfix(tokens: Seq<TokenView>, pos: nat) -> Parsed<NodeView>
    decreases left(tokens, pos), 2nat,
{
    match primary(tokens, pos) {
        Err(e) => Err(e),
        Ok((head, n)) => after(n, postfix_tail(tokens, pos + n, head)),
    }
}

/// `('[' expression ']')*` behind the expression `head`.
#[verifier::opaque]
pub open spec fn postfix_tail(tokens: Seq<TokenView>, pos: nat, head: NodeView) -> Parsed<NodeView>
    decreases left(tokens, pos), 1nat,
{
    if at(tokens, pos) is LBracket {
        match expression(tokens, pos + 1) {
            Err(e) => Err(e),
            Ok((index, n)) => if at(tokens, pos + 1 + n) is RBracket {
                after(
                    2 + n,
                    postfix_tail(
                        tokens,
                        pos + 2 + n,
                        NodeView::Index { expression: Box::new(head), index: Box::new(index) },
                    ),
                )
            } else {
                Err(fault(tokens, pos + 1 + n, ParseErrorKind::Expected(Delimiter::RBracket)))
            },
        }
    } else {
        Ok((head, 0))
    }
}

/// A name or a call, a literal, a parenthesised list, or a vector.
#[verifier::opaque]
pub open spec fn primary(tokens: Seq<TokenView>, pos: nat) -> Parsed<NodeView>
    decreases left(tokens, pos), 0nat,
{
    match at(tokens, pos) {
        TokenView::Identifier(name) => if at(tokens, pos + 1) is LParen {
            match list(tokens, pos + 2, Delimiter::RParen) {
                Err(e) => Err(e),
                Ok((arguments, n)) => Ok(
                    (NodeView::FunctionCall { function: name, arguments }, 2 + n),
                ),
            }
        } else {
            Ok((NodeView::Identifier(name), 1))
        },
        TokenView::Float(text) => Ok((NodeView::Number(text), 1)),
        TokenView::LParen => match list(tokens, pos + 1, Delimiter::RParen) {
            Err(e) => Err(e),
            Ok((items, n)) => Ok((grouped(items), 1 + n)),
        },
        TokenView::LBracket => match list(tokens, pos + 1, Delimiter::RBracket) {
            Err(e) => Err(e),
            Ok((items, n)) => Ok((NodeView::Vector(items), 1 + n)),
        },
        token => match literal_value(token) {
            Some(value) => Ok((NodeView::Literal(value), 1)),
            None => Err(fault(tokens, pos, ParseErrorKind::UnexpectedToken)),
        },
    }
}

/// What `primary` is, case by case.
pub proof fn primary_unfolds(tokens: Seq<TokenView>, pos: nat)
    ensures
        primary(tokens, pos) == (
            match at(tokens, pos) {
                TokenView::Identifier(name) => if at(tokens, pos + 1) is LParen {
                    match list(tokens, pos + 2, Delimiter::RParen) {
                        Err(e) => Err(e),
                        Ok((arguments, n)) => Ok(
                            (NodeView::FunctionCall { function: name, arguments }, 2 + n),
                        ),
                    }
                } else {
                    Ok((NodeView::Identifier(name), 1))
                },
                TokenView::Float(text) => Ok((NodeView::Number(text), 1)),
                TokenView::LParen => match list(tokens, pos + 1, Delimiter::RParen) {
                    Err(e) => Err(e),
                    Ok((items, n)) => Ok((grouped(items), 1 + n)),
                },
                TokenView::LBracket => match list(tokens, pos + 1, Delimiter::RBracket) {
                    Err(e) => Err(e),
                    Ok((items, n)) => Ok((NodeView::Vector(items), 1 + n)),
                },
                token => match literal_value(token) {
                    Some(value) => Ok((NodeView::Literal(value), 1)),
                    None => Err(fault(tokens, pos, ParseErrorKind::UnexpectedToken)),
                },
            }
        ),
{
    reveal(primary);
    reveal(list);
}

/// `(expression (',' expression)*)?` and the closing token.
#[verifier::opaque]
pub open spec fn list(tokens: Seq<TokenView>, pos: nat, close: Delimiter) -> Parsed<Seq<NodeView>>
    decreases left(tokens, pos), 20nat,
{
    if at(tokens, pos) == close.token() {
        Ok((Seq::empty(), 1))
    } else {
        items(tokens, pos, close, Seq::empty())
    }
}

/// `expression (',' expression)*` and the closing token, behind the items in
/// `before`.
#[verifier::opaque]
pub open spec fn items(
    tokens: Seq<TokenView>,
    pos: nat,
    close: Delimiter,
    before: Seq<NodeView>,
) -> Parsed<Seq<NodeView>>
    decreases left(tokens, pos), 19nat,
{
    match expression(tokens, pos) {
        Err(e) => Err(e),
        Ok((item, n)) => if at(tokens, pos + n) is Comma {
            after(n + 1, items(tokens, pos + n + 1, close, before.push(item)))
        } else if at(tokens, pos + n) == close.token() {
            Ok((before.push(item), n + 1))
        } else {
            Err(fault(tokens, pos + n, ParseErrorKind::Expected(close)))
        },
    }
}

/// What `postfix` is.
pub proof fn postfix_unfolds(tokens: Seq<TokenView>, pos: nat)
    ensures
        postfix(tokens, pos) == (
            match primary(tokens, pos) {
                Err(e) => Err(e),
                Ok((head, n)) => after(n, postfix_tail(tokens, pos + n, head)),
            }
        ),
{
    reveal(postfix);
    reveal(primary);
    reveal(postfix_tail);
}

/// What `list` is, case by case.
pub proof fn list_unfolds(tokens: Seq<TokenView>, pos: nat, close: Delimiter)
    ensures
        list(tokens, pos, close) == (
            if at(tokens, pos) == close.token() {
                Ok((Seq::empty(), 1))
            } else {
                items(tokens, pos, close, Seq::empty())
            }
        ),
{
    reveal(list);
    reveal(items);
}

/// A program: statements up to the end of the input, as one block.
pub open spec fn program(tokens: Seq<TokenView>, pos: nat) -> Parsed<NodeView> {
    match statements(tokens, pos, Seq::empty()) {
        Err(e) => Err(e),
        Ok((found, n)) => if at(tokens, pos + n) is EOF {
            Ok((NodeView::Block { statements: found }, n))
        } else {
            Err(fault(tokens, pos + n, ParseErrorKind::UnexpectedToken))
        },
    }
}

/// What a parsing function that gives a node has computed, as the grammar's
/// functions state it: the node and the tokens taken from `start` to `end`.
pub open spec fn parsed_node(r: Result<ASTNode, ParseError>, start: nat, end: nat) -> Parsed<
    NodeView,
> {
    match r {
        Ok(node) => Ok((node@, (end - start) as nat)),
        Err(e) => Err(e@),
    }
}

/// What a parsing function that gives a list of nodes has computed.
pub open spec fn parsed_nodes(r: Result<Vec<ASTNode>, ParseError>, start: nat, end: nat) -> Parsed<
    Seq<NodeView>,
> {
    match r {
        Ok(found) => Ok((nodes_of(found@), (end - start) as nat)),
        Err(e) => Err(e@),
    }
}

/// What a parsing function that gives a list of names has computed.
pub open spec fn parsed_names(r: Result<Vec<String>, ParseError>, start: nat, end: nat) -> Parsed<
    Seq<Seq<char>>,
> {
    match r {
        Ok(found) => Ok((names_of(found@), (end - start) as nat)),
        Err(e) => Err(e@),
    }
}

/// Where the parser stands after a parsing function: not before where it
/// stood, and at the offending token if the function failed.
pub open spec fn settled<T>(r: Result<T, ParseError>, start: nat, end: nat) -> bool {
    match r {
        Ok(_) => start <= end,
        Err(e) => end == e@.position && start <= end,
    }
}

/// The parser: the tokens and the position of the next token to read.
#[derive(Debug)]
pub struct Parser {
    tokens: Vec<Token>,
    pos: usize,
}

pub struct ParserView {
    pub tokens: Seq<TokenView>,
    pub pos: nat,
}

impl View for Parser {
    type V = ParserView;

    closed spec fn view(&self) -> ParserView {
        ParserView { tokens: tokens_of(self.tokens@), pos: self.pos as nat }
    }
}

fn join(tier: u8, operator: Token, left: ASTNode, right: ASTNode) -> (r: ASTNode)
    ensures
        r@ == combine(tier as nat, operator@, left@, right@),
{
    if tier <= 1 {
        ASTNode::BinaryOperation { operator, left: Box::new(left), right: Box::new(right) }
    } else {
        ASTNode::LogicalOperation { operator, left: Box::new(left), right: Box::new(right) }
    }
}

fn group(items: Vec<ASTNode>) -> (r: ASTNode)
    ensures
        r@ == grouped(nodes_of(items@)),
{
    if items.len() == 1 {
        let mut items = items;
        items.pop().unwrap()
    } else {
        ASTNode::Tuple(items)
    }
}

fn closer(close: Delimiter) -> (r: Token)
    ensures
        r@ == close.token(),
{
    match close {
        Delimiter::LParen => Token::LParen,
        Delimiter::RParen => Token::RParen,
        Delimiter::RBracket => Token::RBracket,
        Delimiter::RBrace => Token::RBrace,
        Delimiter::Colon => Token::Colon,
    }
}

impl Parser {
    /// A parser on the tokens of a source text.
    pub fn new(text: String) -> (r: Result<Parser, LexError>)
        ensures
            match r {
                Ok(parser) => tokens(text@) == Ok::<Seq<TokenView>, LexErrorView>(parser@.tokens)
                    && parser@.pos == 0,
                Err(e) => tokens(text@) == Err::<Seq<TokenView>, LexErrorView>(e@),
            },
    {
        match Lexer::tokenize(text) {
            Ok(tokens) => Ok(Parser { tokens, pos: 0 }),
            Err(e) => Err(e),
        }
    }

    /// A parser on tokens that are at hand.
    pub fn from_tokens(tokens: Vec<Token>) -> (r: Parser)
        ensures
            r@.tokens == tokens_of(tokens@),
            r@.pos == 0,
    {
        Parser { tokens, pos: 0 }
    }

    fn cur_token(&self) -> (r: Option<&Token>)
        ensures
            match r {
                Some(token) => self@.pos < self@.tokens.len() && token@ == at(
                    self@.tokens,
                    self@.pos,
                ),
                None => self@.pos >= self@.tokens.len() && at(self@.tokens, self@.pos)
                    == TokenView::EOF,
            },
    {
        reveal(tokens_of);
        if self.pos < self.tokens.len() {
            Some(&self.tokens[self.pos])
        } else {
            None
        }
    }

    fn next(&mut self)
        requires
            old(self)@.pos < old(self)@.tokens.len(),
        ensures
            final(self)@.tokens == old(self)@.tokens,
            final(self)@.pos == old(self)@.pos + 1,
            left(final(self)@.tokens, final(self)@.pos) < left(old(self)@.tokens, old(self)@.pos),
    {
        reveal(tokens_of);
        assert(self.pos < self.tokens.len());
        self.pos = self.pos + 1;
    }

    /// The failure of the given kind at the current token.
    fn fault(&self, kind: ParseErrorKind) -> (e: ParseError)
        ensures
            e@ == fault(self@.tokens, self@.pos, kind),
    {
        let token = match self.cur_token() {
            Some(token) => token.clone(),
            None => Token::EOF,
        };
        ParseError { kind, token, position: self.pos }
    }

    /// Whether the current token is the given one.
    fn cur_token_equals(&self, wanted: &Token) -> (r: bool)
        ensures
            r == (at(self@.tokens, self@.pos) == wanted@),
            r && !(wanted@ is EOF) ==> self@.pos < self@.tokens.len(),
    {
        match self.cur_token() {
            Some(token) => token.same(wanted),
            None => Token::EOF.same(wanted),
        }
    }

    /// The current token's name, if it is an identifier.
    fn name(&self) -> (r: Option<String>)
        ensures
            match r {
                Some(name) => at(self@.tokens, self@.pos) == TokenView::Identifier(name@)
                    && self@.pos < self@.tokens.len(),
                None => !(at(self@.tokens, self@.pos) is Identifier),
            },
    {
        match self.cur_token() {
            Some(Token::Identifier(name)) => Some(name.clone()),
            _ => None,
        }
    }

    /// The current token's text, if it is a numeric literal.
    fn numeral(&self) -> (r: Option<String>)
        ensures
            match r {
                Some(text) => at(self@.tokens, self@.pos) == TokenView::Float(text@) && self@.pos
                    < self@.tokens.len(),
                None => !(at(self@.tokens, self@.pos) is Float),
            },
    {
        match self.cur_token() {
            Some(Token::Float(text)) => Some(text.clone()),
            _ => None,
        }
    }

    /// The value of the current token, if it is a string, boolean or null
    /// literal.
    fn literal(&self) -> (r: Option<crate::value::Value>)
        ensures
            match r {
                Some(value) => literal_value(at(self@.tokens, self@.pos)) == Some(value@)
                    && self@.pos < self@.tokens.len(),
                None => literal_value(at(self@.tokens, self@.pos)).is_none(),
            },
    {
        match self.cur_token() {
            Some(token) => token.to_value(),
            None => None,
        }
    }

    /// The current token, if it is a unary operator.
    fn sign(&self) -> (r: Option<Token>)
        ensures
            match r {
                Some(token) => token@ == at(self@.tokens, self@.pos) && (token@ is Plus || token@
                    is Minus || token@ is Not) && self@.pos < self@.tokens.len(),
                None => {
                    let token = at(self@.tokens, self@.pos);
                    !(token is Plus || token is Minus || token is Not)
                },
            },
    {
        match self.cur_token() {
            Some(Token::Plus) => Some(Token::Plus),
            Some(Token::Minus) => Some(Token::Minus),
            Some(Token::Not) => Some(Token::Not),
            _ => None,
        }
    }

    /// Whether the current token is the given closing token.
    fn closes(&self, close: Delimiter) -> (r: bool)
        ensures
            r == (at(self@.tokens, self@.pos) == close.token()),
            r ==> self@.pos < self@.tokens.len(),
    {
        self.cur_token_equals(&closer(close))
    }

    /// Whether the current token ends a run of statements.
    fn at_end(&self) -> (r: bool)
        ensures
            r == (at(self@.tokens, self@.pos) is EOF || at(self@.tokens, self@.pos) is RBrace),
    {
        self.cur_token_equals(&Token::EOF) || self.cur_token_equals(&Token::RBrace)
    }

    /// The current token, if it is a binary operator of the tier.
    fn operator(&self, tier: u8) -> (r: Option<Token>)
        ensures
            match r {
                Some(token) => operator_at(tier as nat, at(self@.tokens, self@.pos)) && token@
                    == at(self@.tokens, self@.pos) && self@.pos < self@.tokens.len(),
                None => !operator_at(tier as nat, at(self@.tokens, self@.pos)),
            },
    {
        match self.cur_token() {
            None => None,
            Some(token) => {
                let fits = match token {
                    Token::Mul | Token::Div | Token::Mod => tier == 0,
                    Token::Plus | Token::Minus => tier == 1,
                    Token::Greater | Token::Less | Token::GreaterEqual | Token::LessEqual => tier
                        == 2,
                    Token::Equal | Token::UnEqual => tier == 3,
                    Token::And => tier == 4,
                    Token::Or => tier == 5,
                    _ => false,
                };
                if fits {
                    Some(token.clone())
                } else {
                    None
                }
            },
        }
    }

    /// Parses a program: statements up to the end of the input.
    pub fn parse(&mut self) -> (r: Result<ASTNode, ParseError>)
        ensures
            final(self)@.tokens == old(self)@.tokens,
            program(old(self)@.tokens, old(self)@.pos) == parsed_node(
                r,
                old(self)@.pos,
                final(self)@.pos,
            ),
            settled(r, old(self)@.pos, final(self)@.pos),
    {
        proof {
            reveal(statements);
        }
        match self.statements() {
            Err(e) => Err(e),
            Ok(statements) => {
                let ended = self.cur_token_equals(&Token::EOF);
                if ended {
                    Ok(ASTNode::Block { statements })
                } else {
                    Err(self.fault(ParseErrorKind::UnexpectedToken))
                }
            },
        }
    }

    fn statements(&mut self) -> (r: Result<Vec<ASTNode>, ParseError>)
        ensures
            final(self)@.tokens == old(self)@.tokens,
            statements(old(self)@.tokens, old(self)@.pos, Seq::empty()) == parsed_nodes(
                r,
                old(self)@.pos,
                final(self)@.pos,
            ),
            settled(r, old(self)@.pos, final(self)@.pos),
        decreases left(old(self)@.tokens, old(self)@.pos), 18nat,
    {
        proof {
            reveal(statements);
            reveal(statement);
        }
        let ghost all = self@.tokens;
        let ghost start = self@.pos;
        let mut found: Vec<ASTNode> = Vec::new();
        assert(nodes_of(found@) =~= Seq::empty());
        loop
            invariant
                self@.tokens == all,
                all == old(self)@.tokens,
                start == old(self)@.pos,
                start <= self@.pos,
                after((self@.pos - start) as nat, statements(all, self@.pos, nodes_of(found@)))
                    == statements(all, start, Seq::empty()),
            decreases left(all, self@.pos),
        {
            proof {
                reveal(statements);
                reveal(statement);
            }
            if self.at_end() {
                return Ok(found);
            }
            let ghost before = nodes_of(found@);
            let one = match self.statement() {
                Ok(node) => node,
                Err(e) => {
                    return Err(e);
                },
            };
            found.push(one);
            assert(nodes_of(found@) =~= before.push(one@));
            let separated = self.cur_token_equals(&Token::Semicolon);
            if separated {
                self.next();
            } else if self.at_end() {
                return Ok(found);
            } else {
                return Err(self.fault(ParseErrorKind::ExpectedSemicolon));
            }
        }
    }

    fn statement(&mut self) -> (r: Result<ASTNode, ParseError>)
        ensures
            final(self)@.tokens == old(self)@.tokens,
            statement(old(self)@.tokens, old(self)@.pos) == parsed_node(
                r,
                old(self)@.pos,
                final(self)@.pos,
            ),
            settled(r, old(self)@.pos, final(self)@.pos),
        decreases left(old(self)@.tokens, old(self)@.pos), 17nat,
    {
        proof {
            reveal(statement);
            reveal(expression);
            reveal(statements);
        }
        let kind: u8 = if self.cur_token_equals(&Token::If) {
            1
        } else if self.cur_token_equals(&Token::While) {
            2
        } else if self.cur_token_equals(&Token::Break) {
            3
        } else if self.cur_token_equals(&Token::Return) {
            4
        } else if self.cur_token_equals(&Token::Let) {
            5
        } else if self.cur_token_equals(&Token::LBrace) {
            6
        } else {
            0
        };
        if kind == 1 {
            self.next();
            let condition = match self.expression() {
                Ok(node) => node,
                Err(e) => {
                    return Err(e);
                },
            };
            let true_branch = match self.statement() {
                Ok(node) => node,
                Err(e) => {
                    return Err(e);
                },
            };
            let more = self.cur_token_equals(&Token::Else);
            if more {
                self.next();
                let false_branch = match self.statement() {
                    Ok(node) => node,
                    Err(e) => {
                        return Err(e);
                    },
                };
                Ok(
                    ASTNode::Conditional {
                        condition: Box::new(condition),
                        true_branch: Box::new(true_branch),
                        false_branch: Some(Box::new(false_branch)),
                    },
                )
            } else {
                Ok(
                    ASTNode::Conditional {
                        condition: Box::new(condition),
                        true_branch: Box::new(true_branch),
                        false_branch: None,
                    },
                )
            }
        } else if kind == 2 {
            self.next();
            let condition = match self.expression() {
                Ok(node) => node,
                Err(e) => {
                    return Err(e);
                },
            };
            let body = match self.statement() {
                Ok(node) => node,
                Err(e) => {
                    return Err(e);
                },
            };
            Ok(ASTNode::Loop { condition: Box::new(condition), body: Box::new(body) })
        } else if kind == 3 {
            self.next();
            Ok(ASTNode::Break)
        } else if kind == 4 {
            self.next();
            match self.statement() {
                Ok(inner) => Ok(ASTNode::Return(Box::new(inner))),
                Err(e) => Err(e),
            }
        } else if kind == 5 {
            self.next();
            match self.expression() {
                Ok(binding) => Ok(ASTNode::Let { ast: Box::new(binding) }),
                Err(e) => Err(e),
            }
        } else if kind == 6 {
            self.next();
            let statements = match self.statements() {
                Ok(found) => found,
                Err(e) => {
                    return Err(e);
                },
            };
            if self.closes(Delimiter::RBrace) {
                self.next();
                Ok(ASTNode::Block { statements })
            } else {
                Err(self.fault(ParseErrorKind::Expected(Delimiter::RBrace)))
            }
        } else {
            self.expression()
        }
    }

    /// Parses the parameter list of a function literal.
    fn identifier_list(&mut self) -> (r: Result<Vec<String>, ParseError>)
        ensures
            final(self)@.tokens == old(self)@.tokens,
            parameters(old(self)@.tokens, old(self)@.pos) == parsed_names(
                r,
                old(self)@.pos,
                final(self)@.pos,
            ),
            settled(r, old(self)@.pos, final(self)@.pos),
    {
        let ghost all = self@.tokens;
        let mut found: Vec<String> = Vec::new();
        assert(names_of(found@) =~= Seq::empty());
        if !self.closes(Delimiter::LParen) {
            return Err(self.fault(ParseErrorKind::Expected(Delimiter::LParen)));
        }
        self.next();
        if self.closes(Delimiter::RParen) {
            self.next();
            return Ok(found);
        }
        let ghost start = self@.pos;
        loop
            invariant
                self@.tokens == all,
                all == old(self)@.tokens,
                start == old(self)@.pos + 1,
                start <= self@.pos,
                at(all, old(self)@.pos) is LParen,
                !(at(all, start) is RParen),
                after((self@.pos - start) as nat, names(all, self@.pos, names_of(found@)))
                    == names(all, start, Seq::empty()),
            decreases left(all, self@.pos),
        {
            let name = match self.name() {
                Some(name) => name,
                None => {
                    return Err(self.fault(ParseErrorKind::InvalidParameter));
                },
            };
            let ghost before = names_of(found@);
            found.push(name);
            assert(names_of(found@) =~= before.push(name@));
            self.next();
            let more = self.cur_token_equals(&Token::Comma);
            if more {
                self.next();
            } else if self.closes(Delimiter::RParen) {
                self.next();
                return Ok(found);
            } else {
                return Err(self.fault(ParseErrorKind::Expected(Delimiter::RParen)));
            }
        }
    }

    fn expression(&mut self) -> (r: Result<ASTNode, ParseError>)
        ensures
            final(self)@.tokens == old(self)@.tokens,
            expression(old(self)@.tokens, old(self)@.pos) == parsed_node(
                r,
                old(self)@.pos,
                final(self)@.pos,
            ),
            settled(r, old(self)@.pos, final(self)@.pos),
        decreases left(old(self)@.tokens, old(self)@.pos), 16nat,
    {
        proof {
            reveal(expression);
            reveal(binary);
            reveal(statement);
        }
        let literal = self.cur_token_equals(&Token::FN);
        if literal {
            self.next();
            let params = match self.identifier_list() {
                Ok(found) => found,
                Err(e) => {
                    return Err(e);
                },
            };
            return match self.statement() {
                Ok(body) => Ok(ASTNode::FunctionDefinition { params, body: Box::new(body) }),
                Err(e) => Err(e),
            };
        }
        let head = match self.binary(5) {
            Ok(node) => node,
            Err(e) => {
                return Err(e);
            },
        };
        let kind: u8 = if self.cur_token_equals(&Token::Assign) {
            1
        } else if self.cur_token_equals(&Token::Question) {
            2
        } else {
            0
        };
        if kind == 1 {
            match head {
                ASTNode::Identifier(name) => {
                    self.next();
                    match self.expression() {
                        Ok(value) => Ok(ASTNode::Assignment { name, value: Box::new(value) }),
                        Err(e) => Err(e),
                    }
                },
                _ => Err(self.fault(ParseErrorKind::InvalidAssignment)),
            }
        } else if kind == 2 {
            self.next();
            let true_branch = match self.expression() {
                Ok(node) => node,
                Err(e) => {
                    return Err(e);
                },
            };
            if !self.closes(Delimiter::Colon) {
                return Err(self.fault(ParseErrorKind::Expected(Delimiter::Colon)));
            }
            self.next();
            match self.expression() {
                Ok(false_branch) => Ok(
                    ASTNode::Conditional {
                        condition: Box::new(head),
                        true_branch: Box::new(true_branch),
                        false_branch: Some(Box::new(false_branch)),
                    },
                ),
                Err(e) => Err(e),
            }
        } else {
            Ok(head)
        }
    }

    /// Parses an operand of a tier.
    fn operand(&mut self, tier: u8) -> (r: Result<ASTNode, ParseError>)
        requires
            tier <= 5,
        ensures
            final(self)@.tokens == old(self)@.tokens,
            operand(old(self)@.tokens, old(self)@.pos, tier as nat) == parsed_node(
                r,
                old(self)@.pos,
                final(self)@.pos,
            ),
            settled(r, old(self)@.pos, final(self)@.pos),
        decreases left(old(self)@.tokens, old(self)@.pos), 4 + 2 * tier,
    {
        proof {
            reveal(operand);
            reveal(unary);
            reveal(binary);
        }
        if tier == 0 {
            self.unary()
        } else {
            self.binary(tier - 1)
        }
    }

    /// Parses an expression of a tier.
    fn binary(&mut self, tier: u8) -> (r: Result<ASTNode, ParseError>)
        requires
            tier <= 5,
        ensures
            final(self)@.tokens == old(self)@.tokens,
            binary(old(self)@.tokens, old(self)@.pos, tier as nat) == parsed_node(
                r,
                old(self)@.pos,
                final(self)@.pos,
            ),
            settled(r, old(self)@.pos, final(self)@.pos),
        decreases left(old(self)@.tokens, old(self)@.pos), 5 + 2 * tier,
    {
        proof {
            reveal(binary);
            reveal(binary_tail);
            reveal(operand);
        }
        let ghost all = self@.tokens;
        let ghost start = self@.pos;
        let mut node = match self.operand(tier) {
            Ok(node) => node,
            Err(e) => {
                return Err(e);
            },
        };
        let ghost mid = self@.pos;
        let ghost head = node@;
        loop
            invariant
                tier <= 5,
                self@.tokens == all,
                all == old(self)@.tokens,
                start == old(self)@.pos,
                start <= mid <= self@.pos,
                after((self@.pos - mid) as nat, binary_tail(all, self@.pos, tier as nat, node@))
                    == binary_tail(all, mid, tier as nat, head),
                binary(all, start, tier as nat) == after(
                    (mid - start) as nat,
                    binary_tail(all, mid, tier as nat, head),
                ),
            decreases left(all, self@.pos),
        {
            proof {
                reveal(binary_tail);
                reveal(operand);
            }
            let operator = match self.operator(tier) {
                Some(token) => token,
                None => {
                    return Ok(node);
                },
            };
            self.next();
            let right = match self.operand(tier) {
                Ok(node) => node,
                Err(e) => {
                    return Err(e);
                },
            };
            node = join(tier, operator, node, right);
        }
    }

    fn unary(&mut self) -> (r: Result<ASTNode, ParseError>)
        ensures
            final(self)@.tokens == old(self)@.tokens,
            unary(old(self)@.tokens, old(self)@.pos) == parsed_node(
                r,
                old(self)@.pos,
                final(self)@.pos,
            ),
            settled(r, old(self)@.pos, final(self)@.pos),
        decreases left(old(self)@.tokens, old(self)@.pos), 3nat,
    {
        proof {
            reveal(unary);
            reveal(postfix);
        }
        match self.sign() {
            Some(operator) => {
                self.next();
                match self.unary() {
                    Ok(inner) => Ok(
                        ASTNode::UnaryOperation { operator, operand: Box::new(inner) },
                    ),
                    Err(e) => Err(e),
                }
            },
            None => self.postfix(),
        }
    }

    fn postfix(&mut self) -> (r: Result<ASTNode, ParseError>)
        ensures
            final(self)@.tokens == old(self)@.tokens,
            postfix(old(self)@.tokens, old(self)@.pos) == parsed_node(
                r,
                old(self)@.pos,
                final(self)@.pos,
            ),
            settled(r, old(self)@.pos, final(self)@.pos),
        decreases left(old(self)@.tokens, old(self)@.pos), 2nat,
    {
        proof {
            postfix_unfolds(self@.tokens, self@.pos);
            reveal(postfix_tail);
        }
        let ghost all = self@.tokens;
        let ghost start = self@.pos;
        let mut node = match self.primary() {
            Ok(node) => node,
            Err(e) => {
                return Err(e);
            },
        };
        let ghost mid = self@.pos;
        let ghost head = node@;
        loop
            invariant
                self@.tokens == all,
                all == old(self)@.tokens,
                start == old(self)@.pos,
                start <= mid <= self@.pos,
                after((self@.pos - mid) as nat, postfix_tail(all, self@.pos, node@))
                    == postfix_tail(all, mid, head),
                postfix(all, start) == after((mid - start) as nat, postfix_tail(all, mid, head)),
            decreases left(all, self@.pos),
        {
            proof {
                reveal(postfix_tail);
                reveal(expression);
            }
            let subscript = self.cur_token_equals(&Token::LBracket);
            if !subscript {
                return Ok(node);
            }
            self.next();
            let index = match self.expression() {
                Ok(node) => node,
                Err(e) => {
                    return Err(e);
                },
            };
            if !self.closes(Delimiter::RBracket) {
                return Err(self.fault(ParseErrorKind::Expected(Delimiter::RBracket)));
            }
            self.next();
            node = ASTNode::Index { expression: Box::new(node), index: Box::new(index) };
        }
    }

    fn primary(&mut self) -> (r: Result<ASTNode, ParseError>)
        ensures
            final(self)@.tokens == old(self)@.tokens,
            primary(old(self)@.tokens, old(self)@.pos) == parsed_node(
                r,
                old(self)@.pos,
                final(self)@.pos,
            ),
            settled(r, old(self)@.pos, final(self)@.pos),
        decreases left(old(self)@.tokens, old(self)@.pos), 0nat,
    {
        proof {
            primary_unfolds(self@.tokens, self@.pos);
        }
        if let Some(name) = self.name() {
            self.next();
            if self.cur_token_equals(&Token::LParen) {
                self.next();
                match self.collect_list(Delimiter::RParen) {
                    Ok(arguments) => Ok(ASTNode::FunctionCall { function: name, arguments }),
                    Err(e) => Err(e),
                }
            } else {
                Ok(ASTNode::Identifier(name))
            }
        } else if let Some(text) = self.numeral() {
            self.next();
            Ok(ASTNode::Number(text))
        } else if self.cur_token_equals(&Token::LParen) {
            self.next();
            match self.collect_list(Delimiter::RParen) {
                Ok(items) => Ok(group(items)),
                Err(e) => Err(e),
            }
        } else if self.cur_token_equals(&Token::LBracket) {
            self.next();
            match self.collect_list(Delimiter::RBracket) {
                Ok(items) => Ok(ASTNode::Vector(items)),
                Err(e) => Err(e),
            }
        } else {
            match self.literal() {
                Some(value) => {
                    self.next();
                    Ok(ASTNode::Literal(value))
                },
                None => Err(self.fault(ParseErrorKind::UnexpectedToken)),
            }
        }
    }

    /// Parses a list of expressions and its closing token.
    fn collect_list(&mut self, close: Delimiter) -> (r: Result<Vec<ASTNode>, ParseError>)
        ensures
            final(self)@.tokens == old(self)@.tokens,
            list(old(self)@.tokens, old(self)@.pos, close) == parsed_nodes(
                r,
                old(self)@.pos,
                final(self)@.pos,
            ),
            settled(r, old(self)@.pos, final(self)@.pos),
        decreases left(old(self)@.tokens, old(self)@.pos), 20nat,
    {
        proof {
            list_unfolds(self@.tokens, self@.pos, close);
        }
        let ghost all = self@.tokens;
        let ghost start = self@.pos;
        let mut found: Vec<ASTNode> = Vec::new();
        assert(nodes_of(found@) =~= Seq::empty());
        if self.closes(close) {
            self.next();
            return Ok(found);
        }
        loop
            invariant
                self@.tokens == all,
                all == old(self)@.tokens,
                start == old(self)@.pos,
                start <= self@.pos,
                list(all, start, close) == items(all, start, close, Seq::empty()),
                after((self@.pos - start) as nat, items(all, self@.pos, close, nodes_of(found@)))
                    == items(all, start, close, Seq::empty()),
            decreases left(all, self@.pos),
        {
            proof {
                reveal(items);
                reveal(expression);
            }
            let ghost before = nodes_of(found@);
            let item = match self.expression() {
                Ok(node) => node,
                Err(e) => {
                    return Err(e);
                },
            };
            found.push(item);
            assert(nodes_of(found@) =~= before.push(item@));
            let more = self.cur_token_equals(&Token::Comma);
            if more {
                self.next();
            } else if self.closes(close) {
                self.next();
                return Ok(found);
            } else {
                return Err(self.fault(ParseErrorKind::Expected(close)));
            }
        }
    }
}

/// No expression of any tier starts with a closing parenthesis.
pub proof fn binary_needs_operand(tokens: Seq<TokenView>, pos: nat, tier: nat)
    requires
        at(tokens, pos) is RParen,
    ensures
        binary(tokens, pos, tier) is Err,
    decreases tier,
{
    if tier > 0 {
        binary_needs_operand(tokens, pos, (tier - 1) as nat);
    } else {
        primary_unfolds(tokens, pos);
        postfix_unfolds(tokens, pos);
        assert(unary(tokens, pos) is Err) by {
            reveal(unary);
            reveal(postfix);
        }
    }
    assert(operand(tokens, pos, tier) is Err) by {
        reveal(operand);
        reveal(unary);
        reveal(binary);
    }
    assert(binary(tokens, pos, tier) is Err) by {
        reveal(binary);
        reveal(operand);
    }
}

/// No expression starts with a closing parenthesis.
pub proof fn expression_needs_operand(tokens: Seq<TokenView>, pos: nat)
    requires
        at(tokens, pos) is RParen,
    ensures
        expression(tokens, pos) is Err,
{
    binary_needs_operand(tokens, pos, 5);
    assert(expression(tokens, pos) is Err) by {
        reveal(expression);
        reveal(binary);
    }
}

/// `(e)` parses as `e` does: where one expression stands between a pair of
/// parentheses, the parenthesised form is that expression's tree, and takes
/// the two parentheses more.
pub proof fn parentheses_add_nothing(tokens: Seq<TokenView>, pos: nat)
    requires
        at(tokens, pos) is LParen,
        expression(tokens, pos + 1) is Ok,
        at(tokens, pos + 1 + expression(tokens, pos + 1)->Ok_0.1) is RParen,
    ensures
        primary(tokens, pos) == Ok::<(NodeView, nat), ParseErrorView>(
            (expression(tokens, pos + 1)->Ok_0.0, expression(tokens, pos + 1)->Ok_0.1 + 2),
        ),
{
    let inner = expression(tokens, pos + 1)->Ok_0.0;
    let taken = expression(tokens, pos + 1)->Ok_0.1;
    if at(tokens, pos + 1) is RParen {
        expression_needs_operand(tokens, pos + 1);
    }
    primary_unfolds(tokens, pos);
    list_unfolds(tokens, pos + 1, Delimiter::RParen);
    assert(items(tokens, pos + 1, Delimiter::RParen, Seq::empty()) == Ok::<
        (Seq<NodeView>, nat),
        ParseErrorView,
    >((Seq::<NodeView>::empty().push(inner), taken + 1))) by {
        reveal(items);
        reveal(expression);
    }
    assert(grouped(Seq::<NodeView>::empty().push(inner)) == inner);
}

/// The tree of a source text: its tokens, parsed as a program.
pub open spec fn parse_text(text: Seq<char>) -> Result<NodeView, ErrorView> {
    match tokens(text) {
        Err(e) => Err(ErrorView::Lex(e)),
        Ok(found) => match program(found, 0) {
            Err(e) => Err(ErrorView::Parse(e)),
            Ok((node, _)) => Ok(node),
        },
    }
}

/// Parses a source text.
pub fn parse(text: String) -> (r: Result<ASTNode, Error>)
    ensures
        match r {
            Ok(node) => parse_text(text@) == Ok::<NodeView, ErrorView>(node@),
            Err(e) => parse_text(text@) == Err::<NodeView, ErrorView>(e@),
        },
{
    let mut parser = match Parser::new(text) {
        Ok(parser) => parser,
        Err(e) => {
            return Err(Error::Lex(e));
        },
    };
    match parser.parse() {
        Ok(node) => Ok(node),
        Err(e) => Err(Error::Parse(e)),
    }
}

} // verus!
