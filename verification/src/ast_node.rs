//! The syntax tree that the parser builds and the interpreter walks.

use vstd::prelude::*;
use crate::text::{clone_names, names_of};
use crate::token::{Token, TokenView};
use crate::value::{Value, ValueView};

verus! {

/// A node of the syntax tree.
#[derive(Debug, PartialEq)]
pub enum ASTNode {
    /// An anonymous function literal.
    FunctionDefinition { params: Vec<String>, body: Box<ASTNode> },
    /// A call of the function that a name is bound to.
    FunctionCall { function: String, arguments: Vec<ASTNode> },
    /// Arithmetic: `+ - * / %`.
    BinaryOperation { operator: Token, left: Box<ASTNode>, right: Box<ASTNode> },
    /// A comparison or a short-circuit `&&` or `||`.
    LogicalOperation { operator: Token, left: Box<ASTNode>, right: Box<ASTNode> },
    /// Unary `+`, `-` or `!`.
    UnaryOperation { operator: Token, operand: Box<ASTNode> },
    /// Statements in sequence.
    Block { statements: Vec<ASTNode> },
    /// A new value for an existing binding.
    Assignment { name: String, value: Box<ASTNode> },
    /// A new binding: the inner node is an `Identifier` or an `Assignment`.
    Let { ast: Box<ASTNode> },
    /// `if`/`else`, and the ternary `? :`.
    Conditional {
        condition: Box<ASTNode>,
        true_branch: Box<ASTNode>,
        false_branch: Option<Box<ASTNode>>,
    },
    /// A `while` loop.
    Loop { condition: Box<ASTNode>, body: Box<ASTNode> },
    /// A value written in the source, or placed in the tree by hand.
    Literal(Value),
    /// A numeric literal, as written. The host turns the text into a double
    /// when the node is evaluated.
    Number(String),
    /// A reference to a variable.
    Identifier(String),
    Tuple(Vec<ASTNode>),
    Vector(Vec<ASTNode>),
    /// A subscript.
    Index { expression: Box<ASTNode>, index: Box<ASTNode> },
    Return(Box<ASTNode>),
    Break,
}

/// The tree as a mathematical value.
pub enum NodeView {
    FunctionDefinition { params: Seq<Seq<char>>, body: Box<NodeView> },
    FunctionCall { function: Seq<char>, arguments: Seq<NodeView> },
    BinaryOperation { operator: TokenView, left: Box<NodeView>, right: Box<NodeView> },
    LogicalOperation { operator: TokenView, left: Box<NodeView>, right: Box<NodeView> },
    UnaryOperation { operator: TokenView, operand: Box<NodeView> },
    Block { statements: Seq<NodeView> },
    Assignment { name: Seq<char>, value: Box<NodeView> },
    Let { ast: Box<NodeView> },
    Conditional {
        condition: Box<NodeView>,
        true_branch: Box<NodeView>,
        false_branch: Option<Box<NodeView>>,
    },
    Loop { condition: Box<NodeView>, body: Box<NodeView> },
    Literal(ValueView),
    Number(Seq<char>),
    Identifier(Seq<char>),
    Tuple(Seq<NodeView>),
    Vector(Seq<NodeView>),
    Index { expression: Box<NodeView>, index: Box<NodeView> },
    Return(Box<NodeView>),
    Break,
}

/// The views of a list of nodes, in order.
pub open spec fn nodes_of(items: Seq<ASTNode>) -> Seq<NodeView>
    decreases items,
{
    Seq::new(
        items.len(),
        |i: int|
            if 0 <= i < items.len() {
                items[i].model()
            } else {
                NodeView::Break
            },
    )
}

impl ASTNode {
    /// The tree that this node is the root of.
    pub open spec fn model(&self) -> NodeView
        decreases self,
    {
        match self {
            ASTNode::FunctionDefinition { params, body } => NodeView::FunctionDefinition {
                params: names_of(params@),
                body: Box::new(body.model()),
            },
            ASTNode::FunctionCall { function, arguments } => NodeView::FunctionCall {
                function: function@,
                arguments: nodes_of(arguments@),
            },
            ASTNode::BinaryOperation { operator, left, right } => NodeView::BinaryOperation {
                operator: operator@,
                left: Box::new(left.model()),
                right: Box::new(right.model()),
            },
            ASTNode::LogicalOperation { operator, left, right } => NodeView::LogicalOperation {
                operator: operator@,
                left: Box::new(left.model()),
                right: Box::new(right.model()),
            },
            ASTNode::UnaryOperation { operator, operand } => NodeView::UnaryOperation {
                operator: operator@,
                operand: Box::new(operand.model()),
            },
            ASTNode::Block { statements } => NodeView::Block { statements: nodes_of(statements@) },
            ASTNode::Assignment { name, value } => NodeView::Assignment {
                name: name@,
                value: Box::new(value.model()),
            },
            ASTNode::Let { ast } => NodeView::Let { ast: Box::new(ast.model()) },
            ASTNode::Conditional { condition, true_branch, false_branch } => NodeView::Conditional {
                condition: Box::new(condition.model()),
                true_branch: Box::new(true_branch.model()),
                false_branch: match false_branch {
                    Some(branch) => Some(Box::new(branch.model())),
                    None => None,
                },
            },
            ASTNode::Loop { condition, body } => NodeView::Loop {
                condition: Box::new(condition.model()),
                body: Box::new(body.model()),
            },
            ASTNode::Literal(value) => NodeView::Literal(value.model()),
            ASTNode::Number(text) => NodeView::Number(text@),
            ASTNode::Identifier(name) => NodeView::Identifier(name@),
            ASTNode::Tuple(items) => NodeView::Tuple(nodes_of(items@)),
            ASTNode::Vector(items) => NodeView::Vector(nodes_of(items@)),
            ASTNode::Index { expression, index } => NodeView::Index {
                expression: Box::new(expression.model()),
                index: Box::new(index.model()),
            },
            ASTNode::Return(inner) => NodeView::Return(Box::new(inner.model())),
            ASTNode::Break => NodeView::Break,
        }
    }
}

impl View for ASTNode {
    type V = NodeView;

    open spec fn view(&self) -> NodeView {
        self.model()
    }
}

/// A copy of a list of nodes.
pub fn clone_nodes(items: &Vec<ASTNode>) -> (r: Vec<ASTNode>)
    ensures
        nodes_of(r@) == nodes_of(items@),
    decreases items,
{
    let mut out: Vec<ASTNode> = Vec::new();
    let mut i: usize = 0;
    while i < items.len()
        invariant
            i <= items.len(),
            out.len() == i,
            forall|j: int| 0 <= j < i ==> out[j]@ == items[j]@,
        decreases items.len() - i,
    {
        out.push(items[i].clone());
        i = i + 1;
    }
    assert(nodes_of(out@) =~= nodes_of(items@));
    out
}

impl Clone for ASTNode {
    fn clone(&self) -> (r: ASTNode)
        ensures
            r@ == self@,
        decreases self,
    {
        match self {
            ASTNode::FunctionDefinition { params, body } => ASTNode::FunctionDefinition {
                params: clone_names(params),
                body: Box::new((**body).clone()),
            },
            ASTNode::FunctionCall { function, arguments } => ASTNode::FunctionCall {
                function: function.clone(),
                arguments: clone_nodes(arguments),
            },
            ASTNode::BinaryOperation { operator, left, right } => ASTNode::BinaryOperation {
                operator: operator.clone(),
                left: Box::new((**left).clone()),
                right: Box::new((**right).clone()),
            },
            ASTNode::LogicalOperation { operator, left, right } => ASTNode::LogicalOperation {
                operator: operator.clone(),
                left: Box::new((**left).clone()),
                right: Box::new((**right).clone()),
            },
            ASTNode::UnaryOperation { operator, operand } => ASTNode::UnaryOperation {
                operator: operator.clone(),
                operand: Box::new((**operand).clone()),
            },
            ASTNode::Block { statements } => ASTNode::Block { statements: clone_nodes(statements) },
            ASTNode::Assignment { name, value } => ASTNode::Assignment {
                name: name.clone(),
                value: Box::new((**value).clone()),
            },
            ASTNode::Let { ast } => ASTNode::Let { ast: Box::new((**ast).clone()) },
            ASTNode::Conditional { condition, true_branch, false_branch } => ASTNode::Conditional {
                condition: Box::new((**condition).clone()),
                true_branch: Box::new((**true_branch).clone()),
                false_branch: match false_branch {
                    Some(branch) => Some(Box::new((**branch).clone())),
                    None => None,
                },
            },
            ASTNode::Loop { condition, body } => ASTNode::Loop {
                condition: Box::new((**condition).clone()),
                body: Box::new((**body).clone()),
            },
            ASTNode::Literal(value) => ASTNode::Literal(value.clone()),
            ASTNode::Number(text) => ASTNode::Number(text.clone()),
            ASTNode::Identifier(name) => ASTNode::Identifier(name.clone()),
            ASTNode::Tuple(items) => ASTNode::Tuple(clone_nodes(items)),
            ASTNode::Vector(items) => ASTNode::Vector(clone_nodes(items)),
            ASTNode::Index { expression, index } => ASTNode::Index {
                expression: Box::new((**expression).clone()),
                index: Box::new((**index).clone()),
            },
            ASTNode::Return(inner) => ASTNode::Return(Box::new((**inner).clone())),
            ASTNode::Break => ASTNode::Break,
        }
    }
}

/// What can be read as a node of the tree.
pub trait AstRef {
    /// The tree that is read.
    spec fn tree(&self) -> NodeView;

    fn as_ast(&self) -> (r: &ASTNode)
        ensures
            r@ == self.tree(),
    ;
}

impl AstRef for ASTNode {
    open spec fn tree(&self) -> NodeView {
        self@
    }

    fn as_ast(&self) -> (r: &ASTNode) {
        self
    }
}

impl AstRef for Box<ASTNode> {
    open spec fn tree(&self) -> NodeView {
        (**self)@
    }

    fn as_ast(&self) -> (r: &ASTNode) {
        &**self
    }
}

} // verus!
