//! The signal that evaluating a node ends with.

use vstd::prelude::*;
use crate::value::{Value, ValueView};

verus! {

/// How the evaluation of a node ended: normally with a value, or unwinding
/// to the enclosing call or loop.
#[derive(Debug, PartialEq)]
pub enum ControlFlow {
    Continue(Value),
    Return(Value),
    Break,
}

pub enum ControlFlowView {
    Continue(ValueView),
    Return(ValueView),
    Break,
}

impl View for ControlFlow {
    type V = ControlFlowView;

    open spec fn view(&self) -> ControlFlowView {
        match self {
            ControlFlow::Continue(v) => ControlFlowView::Continue(v@),
            ControlFlow::Return(v) => ControlFlowView::Return(v@),
            ControlFlow::Break => ControlFlowView::Break,
        }
    }
}

impl ControlFlowView {
    /// The value that the signal carries; a `Break` carries `Null`.
    pub open spec fn value(self) -> ValueView {
        match self {
            ControlFlowView::Continue(v) => v,
            ControlFlowView::Return(v) => v,
            ControlFlowView::Break => ValueView::Null,
        }
    }
}

impl Clone for ControlFlow {
    fn clone(&self) -> (r: ControlFlow)
        ensures
            r@ == self@,
    {
        match self {
            ControlFlow::Continue(v) => ControlFlow::Continue(v.clone()),
            ControlFlow::Return(v) => ControlFlow::Return(v.clone()),
            ControlFlow::Break => ControlFlow::Break,
        }
    }
}

impl ControlFlow {
    /// The value that the signal carries; a `Break` carries `Null`.
    pub fn unwrap(self) -> (r: Value)
        ensures
            r@ == self@.value(),
    {
        match self {
            ControlFlow::Continue(value) => value,
            ControlFlow::Return(value) => value,
            ControlFlow::Break => Value::Null,
        }
    }
}

impl From<ControlFlow> for Value {
    fn from(value: ControlFlow) -> (r: Value) {
        match value {
            ControlFlow::Continue(v) => v,
            ControlFlow::Return(v) => v,
            ControlFlow::Break => Value::Null,
        }
    }
}

impl vstd::std_specs::convert::FromSpecImpl<ControlFlow> for Value {
    open spec fn obeys_from_spec() -> bool {
        true
    }

    open spec fn from_spec(value: ControlFlow) -> Value {
        match value {
            ControlFlow::Continue(v) => v,
            ControlFlow::Return(v) => v,
            ControlFlow::Break => Value::Null,
        }
    }
}

} // verus!
