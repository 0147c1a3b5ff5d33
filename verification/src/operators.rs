//! What the operators of the language decide on values.
//!
//! Signs, orderings and type checks are settled here. Where a result needs
//! arithmetic that rounds, these functions say which operation is to be done
//! on which doubles, and leave the doing to the host.

use vstd::prelude::*;
use crate::error::{RuntimeError, RuntimeErrorView};
use crate::number;
use crate::text::push_char;
use crate::token::{Token, TokenView};
use crate::value::{Equality, Value, ValueView};

verus! {

/// An arithmetic operation on two doubles.
#[derive(Debug, PartialEq, Eq, Clone, Copy, Structural)]
pub enum Operation {
    Add,
    Subtract,
    Multiply,
    Divide,
    Remainder,
}

/// What a comparison comes to.
#[derive(Debug, PartialEq, Eq, Clone, Copy, Structural)]
pub enum Comparison {
    /// The answer.
    Decided(bool),
    /// Two numbers compared with `==` or `!=`: they are equal when
    /// `left - right` is negligible, and `negate` turns the answer round.
    Near { left: u64, right: u64, negate: bool },
}

/// The result of a unary operator: `+` keeps a number, `-` flips its sign,
/// `!` turns a boolean round.
pub open spec fn unary_result(operator: TokenView, operand: ValueView) -> Result<
    ValueView,
    RuntimeErrorView,
> {
    match operator {
        TokenView::Plus => match operand {
            ValueView::Number(bits) => Ok(ValueView::Number(bits)),
            _ => Err(RuntimeErrorView::InvalidOperands),
        },
        TokenView::Minus => match operand {
            ValueView::Number(bits) => Ok(ValueView::Number(number::negated(bits))),
            _ => Err(RuntimeErrorView::InvalidOperands),
        },
        TokenView::Not => match operand {
            ValueView::Boolean(b) => Ok(ValueView::Boolean(!b)),
            _ => Err(RuntimeErrorView::InvalidOperands),
        },
        _ => Err(RuntimeErrorView::InvalidOperator),
    }
}

/// The operation that a binary operator node asks for. Both operands must be
/// numbers, and a divisor must not be zero.
pub open spec fn arithmetic_plan(operator: TokenView, left: ValueView, right: ValueView) -> Result<
    (Operation, u64, u64),
    RuntimeErrorView,
> {
    match (left, right) {
        (ValueView::Number(a), ValueView::Number(b)) => match operator {
            TokenView::Plus => Ok((Operation::Add, a, b)),
            TokenView::Minus => Ok((Operation::Subtract, a, b)),
            TokenView::Mul => Ok((Operation::Multiply, a, b)),
            TokenView::Div => if number::is_zero(b) {
                Err(RuntimeErrorView::DivisionByZero)
            } else {
                Ok((Operation::Divide, a, b))
            },
            TokenView::Mod => if number::is_zero(b) {
                Err(RuntimeErrorView::ModuloByZero)
            } else {
                Ok((Operation::Remainder, a, b))
            },
            _ => Err(RuntimeErrorView::InvalidOperator),
        },
        _ => Err(RuntimeErrorView::InvalidOperands),
    }
}

/// What a comparison operator decides. Equality is defined between two
/// numbers and between two booleans. The orderings coerce booleans to 1.0
/// and 0.0 and compare as IEEE 754 does.
pub open spec fn comparison_result(operator: TokenView, left: ValueView, right: ValueView) -> Result<
    Comparison,
    RuntimeErrorView,
> {
    match operator {
        TokenView::Equal | TokenView::UnEqual => {
            let negate = operator is UnEqual;
            match left.equality(right) {
                Some(Equality::Decided(same)) => Ok(Comparison::Decided(same != negate)),
                Some(Equality::Difference(a, b)) => Ok(
                    Comparison::Near { left: a, right: b, negate },
                ),
                None => Err(RuntimeErrorView::InvalidOperands),
            }
        },
        _ => match (left.number(), right.number()) {
            (Some(a), Some(b)) => match operator {
                TokenView::Greater => Ok(Comparison::Decided(number::less(b, a))),
                TokenView::Less => Ok(Comparison::Decided(number::less(a, b))),
                TokenView::GreaterEqual => Ok(Comparison::Decided(number::less_equal(b, a))),
                TokenView::LessEqual => Ok(Comparison::Decided(number::less_equal(a, b))),
                _ => Err(RuntimeErrorView::InvalidOperator),
            },
            _ => Err(RuntimeErrorView::InvalidOperands),
        },
    }
}

/// The answer of a `Near` comparison, once the difference is known.
pub open spec fn near_result(difference: u64, negate: bool) -> bool {
    number::negligible(difference) != negate
}

/// The element of a tuple, vector or string that a subscript names. The
/// subscript must be a number that is a position in the collection. An
/// element of a string is the string of that one character.
pub open spec fn element_at(target: ValueView, index: ValueView) -> Result<
    ValueView,
    RuntimeErrorView,
> {
    match target {
        ValueView::Tuple(items) | ValueView::Vector(items) => match index {
            ValueView::Number(bits) => match number::position(bits, items.len()) {
                Some(i) => Ok(items[i as int]),
                None => Err(RuntimeErrorView::IndexOutOfRange),
            },
            _ => Err(RuntimeErrorView::InvalidOperands),
        },
        ValueView::String(s) => match index {
            ValueView::Number(bits) => match number::position(bits, s.len()) {
                Some(i) => Ok(ValueView::String(seq![s[i as int]])),
                None => Err(RuntimeErrorView::IndexOutOfRange),
            },
            _ => Err(RuntimeErrorView::InvalidOperands),
        },
        _ => Err(RuntimeErrorView::InvalidOperands),
    }
}

/// Applies a unary operator.
pub fn unary(operator: &Token, operand: Value) -> (r: Result<Value, RuntimeError>)
    ensures
        match r {
            Ok(v) => unary_result(operator@, operand@) == Ok::<ValueView, RuntimeErrorView>(v@),
            Err(e) => unary_result(operator@, operand@) == Err::<ValueView, RuntimeErrorView>(e@),
        },
{
    match operator {
        Token::Plus => match operand {
            Value::Number(bits) => Ok(Value::Number(bits)),
            _ => Err(RuntimeError::InvalidOperands),
        },
        Token::Minus => match operand {
            Value::Number(bits) => Ok(Value::Number(number::negate(bits))),
            _ => Err(RuntimeError::InvalidOperands),
        },
        Token::Not => match operand {
            Value::Boolean(b) => Ok(Value::Boolean(!b)),
            _ => Err(RuntimeError::InvalidOperands),
        },
        _ => Err(RuntimeError::InvalidOperator),
    }
}

/// Checks the operands of a binary operator and names the operation.
pub fn arithmetic(operator: &Token, left: &Value, right: &Value) -> (r: Result<
    (Operation, u64, u64),
    RuntimeError,
>)
    ensures
        match r {
            Ok(plan) => arithmetic_plan(operator@, left@, right@) == Ok::<
                (Operation, u64, u64),
                RuntimeErrorView,
            >(plan),
            Err(e) => arithmetic_plan(operator@, left@, right@) == Err::<
                (Operation, u64, u64),
                RuntimeErrorView,
            >(e@),
        },
{
    let a = match left {
        Value::Number(bits) => *bits,
        _ => return Err(RuntimeError::InvalidOperands),
    };
    let b = match right {
        Value::Number(bits) => *bits,
        _ => return Err(RuntimeError::InvalidOperands),
    };
    match operator {
        Token::Plus => Ok((Operation::Add, a, b)),
        Token::Minus => Ok((Operation::Subtract, a, b)),
        Token::Mul => Ok((Operation::Multiply, a, b)),
        Token::Div => if number::zero(b) {
            Err(RuntimeError::DivisionByZero)
        } else {
            Ok((Operation::Divide, a, b))
        },
        Token::Mod => if number::zero(b) {
            Err(RuntimeError::ModuloByZero)
        } else {
            Ok((Operation::Remainder, a, b))
        },
        _ => Err(RuntimeError::InvalidOperator),
    }
}

/// Decides a comparison, or names the difference that decides it.
pub fn comparison(operator: &Token, left: &Value, right: &Value) -> (r: Result<
    Comparison,
    RuntimeError,
>)
    ensures
        match r {
            Ok(c) => comparison_result(operator@, left@, right@) == Ok::<
                Comparison,
                RuntimeErrorView,
            >(c),
            Err(e) => comparison_result(operator@, left@, right@) == Err::<
                Comparison,
                RuntimeErrorView,
            >(e@),
        },
{
    let negate = match operator {
        Token::Equal => Some(false),
        Token::UnEqual => Some(true),
        _ => None,
    };
    match negate {
        Some(negate) => match left.equal(right) {
            Ok(Equality::Decided(same)) => Ok(Comparison::Decided(same != negate)),
            Ok(Equality::Difference(a, b)) => Ok(Comparison::Near { left: a, right: b, negate }),
            Err(e) => Err(e),
        },
        None => {
            let a = match left.to_number() {
                Ok(bits) => bits,
                Err(e) => return Err(e),
            };
            let b = match right.to_number() {
                Ok(bits) => bits,
                Err(e) => return Err(e),
            };
            match operator {
                Token::Greater => Ok(Comparison::Decided(number::less_than(b, a))),
                Token::Less => Ok(Comparison::Decided(number::less_than(a, b))),
                Token::GreaterEqual => Ok(Comparison::Decided(number::at_most(b, a))),
                Token::LessEqual => Ok(Comparison::Decided(number::at_most(a, b))),
                _ => Err(RuntimeError::InvalidOperator),
            }
        },
    }
}

/// Answers a `Near` comparison from the difference of its operands.
pub fn near(difference: u64, negate: bool) -> (r: bool)
    ensures
        r == near_result(difference, negate),
{
    number::within_epsilon(difference) != negate
}

/// Takes the element that a subscript names.
pub fn element(target: &Value, index: &Value) -> (r: Result<Value, RuntimeError>)
    ensures
        match r {
            Ok(v) => element_at(target@, index@) == Ok::<ValueView, RuntimeErrorView>(v@),
            Err(e) => element_at(target@, index@) == Err::<ValueView, RuntimeErrorView>(e@),
        },
{
    match target {
        Value::Tuple(items) | Value::Vector(items) => match index {
            Value::Number(bits) => match number::to_index(*bits, items.len()) {
                Some(i) => Ok(items[i].clone()),
                None => Err(RuntimeError::IndexOutOfRange),
            },
            _ => Err(RuntimeError::InvalidOperands),
        },
        Value::String(s) => match index {
            Value::Number(bits) => {
                let len = s.as_str().unicode_len();
                match number::to_index(*bits, len) {
                    Some(i) => {
                        let mut one = String::new();
                        push_char(&mut one, s.as_str().get_char(i));
                        assert(one@ =~= seq![s@[i as int]]);
                        Ok(Value::String(one))
                    },
                    None => Err(RuntimeError::IndexOutOfRange),
                }
            },
            _ => Err(RuntimeError::InvalidOperands),
        },
        _ => Err(RuntimeError::InvalidOperands),
    }
}

/// `!!x` is `x` for a boolean `x`.
pub proof fn double_negation(b: bool)
    ensures
        unary_result(TokenView::Not, ValueView::Boolean(b)) == Ok::<ValueView, RuntimeErrorView>(
            ValueView::Boolean(!b),
        ),
        unary_result(TokenView::Not, ValueView::Boolean(!b)) == Ok::<ValueView, RuntimeErrorView>(
            ValueView::Boolean(b),
        ),
{
}

/// `--x` is `x` for a number `x`.
pub proof fn double_minus(bits: u64)
    ensures
        unary_result(TokenView::Minus, ValueView::Number(number::negated(bits))) == Ok::<
            ValueView,
            RuntimeErrorView,
        >(ValueView::Number(bits)),
{
    number::negation_is_involutive(bits);
}

/// Dividing by a zero of either sign is refused, whatever the dividend.
pub proof fn division_by_zero_fails(left: u64, right: u64)
    requires
        number::is_zero(right),
    ensures
        arithmetic_plan(TokenView::Div, ValueView::Number(left), ValueView::Number(right)) == Err::<
            (Operation, u64, u64),
            RuntimeErrorView,
        >(RuntimeErrorView::DivisionByZero),
        arithmetic_plan(TokenView::Mod, ValueView::Number(left), ValueView::Number(right)) == Err::<
            (Operation, u64, u64),
            RuntimeErrorView,
        >(RuntimeErrorView::ModuloByZero),
{
}

} // verus!
