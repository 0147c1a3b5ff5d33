use lim::ast_node::{ASTNode, AstRef};
use lim::error::{Delimiter, Error, LexError, ParseError, ParseErrorKind};
use lim::parser::{parse, Parser};
use lim::token::Token;
use lim::value::Value;

fn tree(text: &str) -> ASTNode {
    parse(text.to_string()).unwrap()
}

fn only(text: &str) -> ASTNode {
    match tree(text) {
        ASTNode::Block { mut statements } => {
            assert_eq!(statements.len(), 1);
            statements.pop().unwrap()
        }
        other => panic!("{:?}", other),
    }
}

fn failure(text: &str) -> ParseError {
    match parse(text.to_string()) {
        Err(Error::Parse(e)) => e,
        other => panic!("{:?}", other),
    }
}

fn num(text: &str) -> ASTNode {
    ASTNode::Number(text.to_string())
}

fn var(text: &str) -> ASTNode {
    ASTNode::Identifier(text.to_string())
}

fn binary(operator: Token, left: ASTNode, right: ASTNode) -> ASTNode {
    ASTNode::BinaryOperation { operator, left: Box::new(left), right: Box::new(right) }
}

fn logical(operator: Token, left: ASTNode, right: ASTNode) -> ASTNode {
    ASTNode::LogicalOperation { operator, left: Box::new(left), right: Box::new(right) }
}

#[test]
fn a_program_is_a_block() {
    assert_eq!(tree(""), ASTNode::Block { statements: vec![] });
    assert_eq!(tree("1"), ASTNode::Block { statements: vec![num("1")] });
    assert_eq!(tree("1;"), ASTNode::Block { statements: vec![num("1")] });
    assert_eq!(tree("1; 2"), ASTNode::Block { statements: vec![num("1"), num("2")] });
}

#[test]
fn multiplication_binds_tighter_than_addition() {
    assert_eq!(
        only("2 + 3 * 4"),
        binary(Token::Plus, num("2"), binary(Token::Mul, num("3"), num("4")))
    );
    assert_eq!(
        only("2 * 3 + 4"),
        binary(Token::Plus, binary(Token::Mul, num("2"), num("3")), num("4"))
    );
}

#[test]
fn operators_of_one_tier_associate_to_the_left() {
    assert_eq!(
        only("1 - 2 - 3"),
        binary(Token::Minus, binary(Token::Minus, num("1"), num("2")), num("3"))
    );
    assert_eq!(
        only("a || b || c"),
        logical(Token::Or, logical(Token::Or, var("a"), var("b")), var("c"))
    );
}

#[test]
fn the_tiers_in_order() {
    assert_eq!(
        only("a || b && c == d < e + f * g"),
        logical(
            Token::Or,
            var("a"),
            logical(
                Token::And,
                var("b"),
                logical(
                    Token::Equal,
                    var("c"),
                    logical(
                        Token::Less,
                        var("d"),
                        binary(Token::Plus, var("e"), binary(Token::Mul, var("f"), var("g")))
                    )
                )
            )
        )
    );
}

#[test]
fn parentheses_around_one_expression_add_nothing() {
    for text in ["1", "a", "1 + 2", "f(x)", "a[0]", "!b", "x = 3", "c ? 1 : 2", "\"s\""] {
        assert_eq!(only(&format!("({})", text)), only(text));
        assert_eq!(only(&format!("((({})))", text)), only(text));
    }
    assert_eq!(
        only("(2 + 3) * 4"),
        binary(Token::Mul, binary(Token::Plus, num("2"), num("3")), num("4"))
    );
}

#[test]
fn tuples_and_vectors() {
    assert_eq!(only("(1, 2)"), ASTNode::Tuple(vec![num("1"), num("2")]));
    assert_eq!(only("()"), ASTNode::Tuple(vec![]));
    assert_eq!(only("[]"), ASTNode::Vector(vec![]));
    assert_eq!(only("[1]"), ASTNode::Vector(vec![num("1")]));
    assert_eq!(only("[1, a]"), ASTNode::Vector(vec![num("1"), var("a")]));
}

#[test]
fn subscripts_chain() {
    assert_eq!(
        only("a[1][2]"),
        ASTNode::Index {
            expression: Box::new(ASTNode::Index {
                expression: Box::new(var("a")),
                index: Box::new(num("1")),
            }),
            index: Box::new(num("2")),
        }
    );
}

#[test]
fn unary_operators_nest() {
    assert_eq!(
        only("!!x"),
        ASTNode::UnaryOperation {
            operator: Token::Not,
            operand: Box::new(ASTNode::UnaryOperation {
                operator: Token::Not,
                operand: Box::new(var("x")),
            }),
        }
    );
    assert_eq!(
        only("-a * b"),
        binary(
            Token::Mul,
            ASTNode::UnaryOperation { operator: Token::Minus, operand: Box::new(var("a")) },
            var("b")
        )
    );
}

#[test]
fn literals() {
    assert_eq!(only("true"), ASTNode::Literal(Value::Boolean(true)));
    assert_eq!(only("false"), ASTNode::Literal(Value::Boolean(false)));
    assert_eq!(only("null"), ASTNode::Literal(Value::Null));
    assert_eq!(only("\"hi\""), ASTNode::Literal(Value::String("hi".to_string())));
    assert_eq!(only("1.5"), num("1.5"));
}

#[test]
fn calls_take_a_name() {
    assert_eq!(
        only("f()"),
        ASTNode::FunctionCall { function: "f".to_string(), arguments: vec![] }
    );
    assert_eq!(
        only("f(1, g(2))"),
        ASTNode::FunctionCall {
            function: "f".to_string(),
            arguments: vec![
                num("1"),
                ASTNode::FunctionCall { function: "g".to_string(), arguments: vec![num("2")] }
            ],
        }
    );
    assert_eq!(failure("(fn (x) { x })(1)").kind, ParseErrorKind::ExpectedSemicolon);
    assert_eq!(failure("a[0](1)").kind, ParseErrorKind::ExpectedSemicolon);
}

#[test]
fn assignment_is_right_associative() {
    assert_eq!(
        only("a = b = 1"),
        ASTNode::Assignment {
            name: "a".to_string(),
            value: Box::new(ASTNode::Assignment {
                name: "b".to_string(),
                value: Box::new(num("1")),
            }),
        }
    );
    assert_eq!(
        only("a = b || c"),
        ASTNode::Assignment {
            name: "a".to_string(),
            value: Box::new(logical(Token::Or, var("b"), var("c"))),
        }
    );
}

#[test]
fn assignment_needs_a_name_on_the_left() {
    let e = failure("5 = x");
    assert_eq!(e.kind, ParseErrorKind::InvalidAssignment);
    assert_eq!(e.token, Token::Assign);
    assert_eq!(e.position, 1);
    assert_eq!(failure("a[0] = 1").kind, ParseErrorKind::InvalidAssignment);
    assert_eq!(failure("a + b = 1").kind, ParseErrorKind::InvalidAssignment);
}

#[test]
fn ternary() {
    assert_eq!(
        only("c ? 1 : 2"),
        ASTNode::Conditional {
            condition: Box::new(var("c")),
            true_branch: Box::new(num("1")),
            false_branch: Some(Box::new(num("2"))),
        }
    );
    let e = failure("c ? 1");
    assert_eq!(e.kind, ParseErrorKind::Expected(Delimiter::Colon));
    assert_eq!(e.token, Token::EOF);
}

#[test]
fn statements_of_each_kind() {
    assert_eq!(
        only("if c 1 else 2"),
        ASTNode::Conditional {
            condition: Box::new(var("c")),
            true_branch: Box::new(num("1")),
            false_branch: Some(Box::new(num("2"))),
        }
    );
    assert_eq!(
        only("if c { 1 }"),
        ASTNode::Conditional {
            condition: Box::new(var("c")),
            true_branch: Box::new(ASTNode::Block { statements: vec![num("1")] }),
            false_branch: None,
        }
    );
    assert_eq!(
        only("while c break"),
        ASTNode::Loop { condition: Box::new(var("c")), body: Box::new(ASTNode::Break) }
    );
    assert_eq!(only("return 1"), ASTNode::Return(Box::new(num("1"))));
    assert_eq!(only("let x"), ASTNode::Let { ast: Box::new(var("x")) });
    assert_eq!(
        only("let x = 1"),
        ASTNode::Let {
            ast: Box::new(ASTNode::Assignment {
                name: "x".to_string(),
                value: Box::new(num("1")),
            }),
        }
    );
    assert_eq!(
        only("{ 1; 2; }"),
        ASTNode::Block { statements: vec![num("1"), num("2")] }
    );
}

#[test]
fn function_literals() {
    assert_eq!(
        only("fn (a, b) { a }"),
        ASTNode::FunctionDefinition {
            params: vec!["a".to_string(), "b".to_string()],
            body: Box::new(ASTNode::Block { statements: vec![var("a")] }),
        }
    );
    assert_eq!(
        only("fn () 1"),
        ASTNode::FunctionDefinition { params: vec![], body: Box::new(num("1")) }
    );
    assert_eq!(failure("fn (1) { }").kind, ParseErrorKind::InvalidParameter);
    assert_eq!(failure("fn (a + b) { }").kind, ParseErrorKind::Expected(Delimiter::RParen));
    assert_eq!(failure("fn x { }").kind, ParseErrorKind::Expected(Delimiter::LParen));
    assert_eq!(failure("fn (a, ) { }").kind, ParseErrorKind::InvalidParameter);
}

#[test]
fn statements_need_a_semicolon_between_them() {
    let e = failure("1 2");
    assert_eq!(e.kind, ParseErrorKind::ExpectedSemicolon);
    assert_eq!(e.token, Token::Float("2".to_string()));
    assert_eq!(e.position, 1);
    assert_eq!(failure("let x = 1 let y = 2").kind, ParseErrorKind::ExpectedSemicolon);
    assert_eq!(tree("{ 1 }; 2"), ASTNode::Block {
        statements: vec![ASTNode::Block { statements: vec![num("1")] }, num("2")],
    });
}

#[test]
fn missing_closers() {
    let e = failure("(2 + 3 * 4");
    assert_eq!(e.kind, ParseErrorKind::Expected(Delimiter::RParen));
    assert_eq!(e.token, Token::EOF);
    assert_eq!(e.position, 6);
    assert_eq!(failure("[1, 2").kind, ParseErrorKind::Expected(Delimiter::RBracket));
    assert_eq!(failure("a[1").kind, ParseErrorKind::Expected(Delimiter::RBracket));
    assert_eq!(failure("{ 1; 2").kind, ParseErrorKind::Expected(Delimiter::RBrace));
    assert_eq!(failure("f(1").kind, ParseErrorKind::Expected(Delimiter::RParen));
}

#[test]
fn unexpected_tokens() {
    let e = failure("10 *");
    assert_eq!(e.kind, ParseErrorKind::UnexpectedToken);
    assert_eq!(e.token, Token::EOF);
    assert_eq!(e.position, 2);
    assert_eq!(failure("1 }").kind, ParseErrorKind::UnexpectedToken);
    assert_eq!(failure("* 2").kind, ParseErrorKind::UnexpectedToken);
    assert_eq!(failure("(1, )").kind, ParseErrorKind::UnexpectedToken);
    assert_eq!(failure("else").kind, ParseErrorKind::UnexpectedToken);
}

#[test]
fn lex_errors_come_first() {
    assert_eq!(
        parse("1 + @".to_string()),
        Err(Error::Lex(LexError::InvalidCharacter('@')))
    );
}

#[test]
fn a_parser_stops_where_the_program_ends() {
    let mut parser = Parser::new("1 + 2; 3".to_string()).unwrap();
    assert_eq!(
        parser.parse().unwrap(),
        ASTNode::Block { statements: vec![binary(Token::Plus, num("1"), num("2")), num("3")] }
    );
    let mut parser = Parser::from_tokens(vec![Token::Float("7".to_string())]);
    assert_eq!(parser.parse().unwrap(), ASTNode::Block { statements: vec![num("7")] });
    let mut parser = Parser::from_tokens(vec![]);
    assert_eq!(parser.parse().unwrap(), ASTNode::Block { statements: vec![] });
}

#[test]
fn parse_error_messages() {
    assert_eq!(failure("1 2").message(), "Expected semicolon, found: 2");
    assert_eq!(failure("(1").message(), "Expected RParen, found: EOF");
    assert_eq!(failure("*").message(), "Unexpected token, found: Mul");
    assert_eq!(failure("5 = x").message(), "Invalid assignment, found: Assign");
    assert_eq!(failure("fn (1) 1").message(), "Expected variable name, found: 1");
}

#[test]
fn trees_copy_deeply() {
    let first = tree("let f = fn (x) { if x > 1 { [x, (1, 2)][0] } else { \"s\" } }; f(2)");
    assert_eq!(first.clone(), first);
    let boxed = Box::new(first.clone());
    assert_eq!(boxed.as_ast(), &first);
    assert_eq!(first.as_ast(), &first);
}
