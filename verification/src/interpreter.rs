//! The interpreter: the machine of `machine`, made to run.
//!
//! The interpreter takes a program and makes steps on it. Each step ends
//! with a request to the host, and the host hands its answer to the next
//! step: the host runs the loop.

use vstd::prelude::*;
use vstd::string::StringExecFns;
use crate::ast_node::{nodes_of, ASTNode, NodeView};
use crate::control_flow::{ControlFlow, ControlFlowView};
use crate::environment::{Environment, EnvironmentView};
use crate::error::{Error, ErrorView, RuntimeError, RuntimeErrorView};
use crate::machine::{
    bind_all, tasks_of, Control, ControlView, Event, EventView, MachineView, Outcome, Request,
    RequestView, StateView, Task, TaskView,
};
use crate::operators::{arithmetic, comparison, element, near, unary, Comparison, Operation};
use crate::parser::{parse, parse_text};
use crate::pre_include::initialization;
use crate::text::names_of;
use crate::token::Token;
use crate::value::{values_of, Value, ValueView};

verus! {

/// The machine without what it has in hand.
struct State {
    environment: Environment,
    stack: Vec<Task>,
}

impl View for State {
    type V = StateView;

    closed spec fn view(&self) -> StateView {
        StateView {
            environment: self.environment@,
            stack: tasks_of(self.stack@),
        }
    }
}

/// What a helper of the machine hands back, as an outcome.
pub open spec fn outcome(state: StateView, result: (Control, Request)) -> Outcome {
    Outcome { state, control: result.0@, request: result.1@ }
}

fn go(control: Control) -> (r: (Control, Request))
    ensures
        r.0@ == control@,
        r.1@ == RequestView::Continue,
{
    (control, Request::Continue)
}

fn deliver(value: Value) -> (r: (Control, Request))
    ensures
        r.0@ == ControlView::Flow(ControlFlowView::Continue(value@)),
        r.1@ == RequestView::Continue,
{
    (Control::Flow(ControlFlow::Continue(value)), Request::Continue)
}

fn push_value(done: &mut Vec<Value>, value: Value)
    ensures
        values_of(final(done)@) == values_of(old(done)@).push(value@),
        final(done)@.len() == old(done)@.len() + 1,
{
    done.push(value);
    assert(values_of(done@) =~= values_of(old(done)@).push(value@));
}

impl State {
    fn new() -> (r: State)
        ensures
            r@ == (StateView {
                environment: EnvironmentView::root(),
                stack: Seq::empty(),
            }),
            r@.wf(),
    {
        let r = State { environment: Environment::new(), stack: Vec::new() };
        assert(r@.stack =~= Seq::empty());
        r
    }

    fn push(&mut self, task: Task)
        requires
            old(self)@.wf(),
        ensures
            final(self)@ == old(self)@.with_task(task@),
            final(self)@.wf(),
    {
        self.stack.push(task);
        assert(self@.stack =~= old(self)@.stack.push(task@));
    }

    fn pop(&mut self) -> (r: Option<Task>)
        requires
            old(self)@.wf(),
        ensures
            final(self)@.wf(),
            match r {
                Some(task) => old(self)@.stack.len() > 0 && task@ == old(self)@.stack.last()
                    && final(self)@ == (StateView {
                    environment: old(self)@.environment,
                    stack: old(self)@.stack.drop_last(),
                }),
                None => old(self)@.stack.len() == 0 && final(self)@ == old(self)@,
            },
    {
        let r = self.stack.pop();
        assert(r.is_some() ==> self@.stack =~= old(self)@.stack.drop_last());
        assert(r.is_none() ==> self@.stack =~= old(self)@.stack);
        r
    }

    /// Drops every task and resets the environment.
    fn reset(&mut self)
        requires
            old(self)@.wf(),
        ensures
            final(self)@.wf(),
            final(self)@ == (StateView {
                environment: old(self)@.environment.reset(),
                stack: Seq::empty(),
            }),
    {
        self.stack = Vec::new();
        self.environment.reset();
        assert(self@.stack =~= Seq::empty());
    }

    fn fail(&mut self, error: RuntimeError) -> (r: (Control, Request))
        requires
            old(self)@.wf(),
        ensures
            final(self)@.wf(),
            outcome(final(self)@, r) == old(self)@.fail(error@),
    {
        self.reset();
        (Control::Idle, Request::Failed(error))
    }

    fn finish(&mut self, flow: ControlFlow) -> (r: (Control, Request))
        requires
            old(self)@.wf(),
        ensures
            final(self)@.wf(),
            outcome(final(self)@, r) == old(self)@.finish(flow@),
    {
        self.reset();
        (Control::Idle, Request::Finished(flow))
    }

    fn schedule(&mut self, task: Task, node: ASTNode) -> (r: (Control, Request))
        requires
            old(self)@.wf(),
        ensures
            final(self)@.wf(),
            outcome(final(self)@, r) == old(self)@.schedule(task@, node@),
    {
        self.push(task);
        go(Control::Eval(node))
    }

    /// Leaves the frame of a block or of a function's body, if it had one.
    fn leave(&mut self, scoped: bool)
        requires
            old(self)@.wf(),
        ensures
            final(self)@.wf(),
            final(self)@ == old(self)@.left(scoped),
    {
        if scoped {
            self.environment.leave();
        }
    }

    fn begin_identifier(&mut self, name: String) -> (r: (Control, Request))
        requires
            old(self)@.wf(),
        ensures
            final(self)@.wf(),
            outcome(final(self)@, r) == old(self)@.begin(NodeView::Identifier(name@)),
    {
        match self.environment.get(name.as_str()) {
            Ok(value) => deliver(value),
            Err(error) => self.fail(error),
        }
    }

    fn begin_block(&mut self, statements: Vec<ASTNode>) -> (r: (Control, Request))
        requires
            old(self)@.wf(),
        ensures
            final(self)@.wf(),
            outcome(final(self)@, r) == old(self)@.begin(
                NodeView::Block { statements: nodes_of(statements@) },
            ),
    {
        if statements.len() == 0 {
            deliver(Value::Null)
        } else {
            let current = self.environment.current();
            match self.environment.child_of(current) {
                None => self.fail(RuntimeError::UnknownFrame),
                Some(frame) => {
                    let entered = self.environment.enter(frame);
                    let first = statements[0].clone();
                    self.schedule(Task::Block { statements, next: 1, scoped: true }, first)
                },
            }
        }
    }

    fn begin_let(&mut self, ast: ASTNode) -> (r: (Control, Request))
        requires
            old(self)@.wf(),
        ensures
            final(self)@.wf(),
            outcome(final(self)@, r) == old(self)@.begin(NodeView::Let { ast: Box::new(ast@) }),
    {
        match ast {
            ASTNode::Identifier(name) => match self.environment.define(name, Value::Null) {
                Ok(()) => deliver(Value::Null),
                Err(error) => self.fail(error),
            },
            ASTNode::Assignment { name, value } => self.schedule(Task::Define { name }, *value),
            _ => self.fail(RuntimeError::InvalidBinding),
        }
    }

    fn begin_list(&mut self, items: Vec<ASTNode>, vector: bool) -> (r: (Control, Request))
        requires
            old(self)@.wf(),
        ensures
            final(self)@.wf(),
            outcome(final(self)@, r) == old(self)@.begin(
                if vector {
                    NodeView::Vector(nodes_of(items@))
                } else {
                    NodeView::Tuple(nodes_of(items@))
                },
            ),
    {
        let none: Vec<Value> = Vec::new();
        assert(values_of(none@) =~= Seq::empty());
        if items.len() == 0 {
            if vector {
                deliver(Value::Vector(none))
            } else {
                deliver(Value::Tuple(none))
            }
        } else {
            let first = items[0].clone();
            self.schedule(Task::Collect { items, done: none, vector }, first)
        }
    }

    fn begin_logical(&mut self, operator: Token, left: ASTNode, right: ASTNode) -> (r: (
        Control,
        Request,
    ))
        requires
            old(self)@.wf(),
        ensures
            final(self)@.wf(),
            outcome(final(self)@, r) == old(self)@.begin(
                NodeView::LogicalOperation {
                    operator: operator@,
                    left: Box::new(left@),
                    right: Box::new(right@),
                },
            ),
    {
        match operator {
            Token::And => self.schedule(Task::AndRight { right }, left),
            Token::Or => self.schedule(Task::OrRight { right }, left),
            _ => self.schedule(Task::CompareRight { operator, right }, left),
        }
    }

    fn begin_loop(&mut self, condition: ASTNode, body: ASTNode) -> (r: (Control, Request))
        requires
            old(self)@.wf(),
        ensures
            final(self)@.wf(),
            outcome(final(self)@, r) == old(self)@.begin(
                NodeView::Loop { condition: Box::new(condition@), body: Box::new(body@) },
            ),
    {
        let test = condition.clone();
        self.schedule(Task::LoopTest { condition, body, last: Value::Null }, test)
    }

    fn begin_call(&mut self, function: String, arguments: Vec<ASTNode>) -> (r: (Control, Request))
        requires
            old(self)@.wf(),
        ensures
            final(self)@.wf(),
            outcome(final(self)@, r) == old(self)@.begin(
                NodeView::FunctionCall { function: function@, arguments: nodes_of(arguments@) },
            ),
    {
        match self.environment.get(function.as_str()) {
            Err(error) => self.fail(error),
            Ok(callee) => {
                let fits = match &callee {
                    Value::Function { params, .. } => Some(params.len() == arguments.len()),
                    Value::Hole(_) => Some(true),
                    _ => None,
                };
                match fits {
                    Some(true) => self.gather(callee, arguments),
                    Some(false) => self.fail(RuntimeError::ArityMismatch),
                    None => self.fail(RuntimeError::NotCallable),
                }
            },
        }
    }

    fn begin(&mut self, node: ASTNode) -> (r: (Control, Request))
        requires
            old(self)@.wf(),
        ensures
            final(self)@.wf(),
            outcome(final(self)@, r) == old(self)@.begin(node@),
    {
        match node {
            ASTNode::Literal(value) => deliver(value),
            ASTNode::Number(text) => (Control::AwaitNumber, Request::Parse(text)),
            ASTNode::Identifier(name) => self.begin_identifier(name),
            ASTNode::FunctionDefinition { params, body } => {
                self.environment.capture();
                deliver(Value::Function { params, body, closure: self.environment.current() })
            },
            ASTNode::Break => go(Control::Flow(ControlFlow::Break)),
            ASTNode::Block { statements } => self.begin_block(statements),
            ASTNode::Let { ast } => self.begin_let(*ast),
            ASTNode::Assignment { name, value } => self.schedule(Task::Assign { name }, *value),
            ASTNode::Tuple(items) => self.begin_list(items, false),
            ASTNode::Vector(items) => self.begin_list(items, true),
            ASTNode::Index { expression, index } => self.schedule(
                Task::IndexTarget { index: *index },
                *expression,
            ),
            ASTNode::BinaryOperation { operator, left, right } => self.schedule(
                Task::BinaryRight { operator, right: *right },
                *left,
            ),
            ASTNode::LogicalOperation { operator, left, right } => self.begin_logical(
                operator,
                *left,
                *right,
            ),
            ASTNode::UnaryOperation { operator, operand } => self.schedule(
                Task::Unary { operator },
                *operand,
            ),
            ASTNode::Conditional { condition, true_branch, false_branch } => self.schedule(
                Task::Branch {
                    true_branch: *true_branch,
                    false_branch: match false_branch {
                        Some(branch) => Some(*branch),
                        None => None,
                    },
                },
                *condition,
            ),
            ASTNode::Loop { condition, body } => self.begin_loop(*condition, *body),
            ASTNode::Return(inner) => self.schedule(Task::Return, *inner),
            ASTNode::FunctionCall { function, arguments } => self.begin_call(function, arguments),
        }
    }

    fn gather(&mut self, callee: Value, arguments: Vec<ASTNode>) -> (r: (Control, Request))
        requires
            old(self)@.wf(),
        ensures
            final(self)@.wf(),
            outcome(final(self)@, r) == old(self)@.gather(callee@, nodes_of(arguments@)),
    {
        let none: Vec<Value> = Vec::new();
        assert(values_of(none@) =~= Seq::empty());
        if arguments.len() == 0 {
            self.invoke(callee, none)
        } else {
            let first = arguments[0].clone();
            self.schedule(Task::Arguments { callee, arguments, done: none }, first)
        }
    }

    /// Binds parameters to arguments, pair by pair, in the current frame.
    fn bind_parameters(&mut self, params: &Vec<String>, arguments: &Vec<Value>)
        requires
            old(self)@.wf(),
        ensures
            final(self)@.wf(),
            final(self)@ == old(self)@.with_environment(
                bind_all(old(self)@.environment, names_of(params@), values_of(arguments@), 0),
            ),
            final(self)@.environment.frames.len() == old(self)@.environment.frames.len(),
            final(self)@.environment.current == old(self)@.environment.current,
    {
        let mut i: usize = 0;
        while i < params.len() && i < arguments.len()
            invariant
                self@.wf(),
                self@.stack == old(self)@.stack,
                self@.environment.frames.len() == old(self)@.environment.frames.len(),
                self@.environment.current == old(self)@.environment.current,
                bind_all(self@.environment, names_of(params@), values_of(arguments@), i as nat)
                    == bind_all(
                    old(self)@.environment,
                    names_of(params@),
                    values_of(arguments@),
                    0,
                ),
            decreases params.len() - i,
        {
            self.environment.bind(params[i].clone(), arguments[i].clone());
            i = i + 1;
        }
    }

    fn invoke(&mut self, callee: Value, arguments: Vec<Value>) -> (r: (Control, Request))
        requires
            old(self)@.wf(),
        ensures
            final(self)@.wf(),
            outcome(final(self)@, r) == old(self)@.invoke(callee@, values_of(arguments@)),
    {
        match &callee {
            Value::Function { params, body, closure } => {
                match self.environment.child_of(*closure) {
                    None => self.fail(RuntimeError::UnknownFrame),
                    Some(frame) => {
                        let entered = self.environment.enter(frame);
                        self.bind_parameters(params, &arguments);
                        let node = (**body).clone();
                        match self.environment.define(String::from_str("self"), callee.clone()) {
                            Err(error) => self.fail(error),
                            Ok(()) => self.schedule(Task::Call, node),
                        }
                    },
                }
            },
            Value::Hole(id) => (Control::AwaitValue, Request::Call(*id, arguments)),
            _ => self.fail(RuntimeError::NotCallable),
        }
    }

    fn resume_block(
        &mut self,
        statements: Vec<ASTNode>,
        next: usize,
        scoped: bool,
        value: Value,
    ) -> (r: (Control, Request))
        requires
            old(self)@.wf(),
        ensures
            final(self)@.wf(),
            outcome(final(self)@, r) == old(self)@.resume(
                TaskView::Block { statements: nodes_of(statements@), next: next as nat, scoped },
                value@,
            ),
    {
        if next < statements.len() {
            let node = statements[next].clone();
            self.schedule(Task::Block { statements, next: next + 1, scoped }, node)
        } else {
            self.leave(scoped);
            deliver(value)
        }
    }

    fn resume_define(&mut self, name: String, value: Value) -> (r: (Control, Request))
        requires
            old(self)@.wf(),
        ensures
            final(self)@.wf(),
            outcome(final(self)@, r) == old(self)@.resume(TaskView::Define { name: name@ }, value@),
    {
        match self.environment.define(name, value) {
            Ok(()) => deliver(Value::Null),
            Err(error) => self.fail(error),
        }
    }

    fn resume_assign(&mut self, name: String, value: Value) -> (r: (Control, Request))
        requires
            old(self)@.wf(),
        ensures
            final(self)@.wf(),
            outcome(final(self)@, r) == old(self)@.resume(TaskView::Assign { name: name@ }, value@),
    {
        match self.environment.set(name, value.clone()) {
            Ok(()) => deliver(value),
            Err(error) => self.fail(error),
        }
    }

    fn resume_collect(
        &mut self,
        items: Vec<ASTNode>,
        done: Vec<Value>,
        vector: bool,
        value: Value,
    ) -> (r: (Control, Request))
        requires
            old(self)@.wf(),
        ensures
            final(self)@.wf(),
            outcome(final(self)@, r) == old(self)@.resume(
                TaskView::Collect { items: nodes_of(items@), done: values_of(done@), vector },
                value@,
            ),
    {
        let mut done = done;
        push_value(&mut done, value);
        if done.len() < items.len() {
            let node = items[done.len()].clone();
            self.schedule(Task::Collect { items, done, vector }, node)
        } else if vector {
            deliver(Value::Vector(done))
        } else {
            deliver(Value::Tuple(done))
        }
    }

    fn resume_index(&mut self, target: Value, value: Value) -> (r: (Control, Request))
        requires
            old(self)@.wf(),
        ensures
            final(self)@.wf(),
            outcome(final(self)@, r) == old(self)@.resume(
                TaskView::IndexValue { target: target@ },
                value@,
            ),
    {
        match element(&target, &value) {
            Ok(item) => deliver(item),
            Err(error) => self.fail(error),
        }
    }

    fn resume_binary(&mut self, operator: Token, left: Value, value: Value) -> (r: (
        Control,
        Request,
    ))
        requires
            old(self)@.wf(),
        ensures
            final(self)@.wf(),
            outcome(final(self)@, r) == old(self)@.resume(
                TaskView::BinaryApply { operator: operator@, left: left@ },
                value@,
            ),
    {
        match arithmetic(&operator, &left, &value) {
            Ok((operation, a, b)) => (Control::AwaitNumber, Request::Arithmetic(operation, a, b)),
            Err(error) => self.fail(error),
        }
    }

    fn resume_and(&mut self, right: ASTNode, value: Value) -> (r: (Control, Request))
        requires
            old(self)@.wf(),
        ensures
            final(self)@.wf(),
            outcome(final(self)@, r) == old(self)@.resume(
                TaskView::AndRight { right: right@ },
                value@,
            ),
    {
        if value.truthy() {
            self.schedule(Task::Truth, right)
        } else {
            deliver(Value::Boolean(false))
        }
    }

    fn resume_or(&mut self, right: ASTNode, value: Value) -> (r: (Control, Request))
        requires
            old(self)@.wf(),
        ensures
            final(self)@.wf(),
            outcome(final(self)@, r) == old(self)@.resume(
                TaskView::OrRight { right: right@ },
                value@,
            ),
    {
        if value.truthy() {
            deliver(Value::Boolean(true))
        } else {
            self.schedule(Task::Truth, right)
        }
    }

    fn resume_compare(&mut self, operator: Token, left: Value, value: Value) -> (r: (
        Control,
        Request,
    ))
        requires
            old(self)@.wf(),
        ensures
            final(self)@.wf(),
            outcome(final(self)@, r) == old(self)@.resume(
                TaskView::CompareApply { operator: operator@, left: left@ },
                value@,
            ),
    {
        match comparison(&operator, &left, &value) {
            Ok(Comparison::Decided(answer)) => deliver(Value::Boolean(answer)),
            Ok(Comparison::Near { left, right, negate }) => {
                self.push(Task::Near { negate });
                (Control::AwaitNumber, Request::Arithmetic(Operation::Subtract, left, right))
            },
            Err(error) => self.fail(error),
        }
    }

    fn resume_near(&mut self, negate: bool, value: Value) -> (r: (Control, Request))
        requires
            old(self)@.wf(),
        ensures
            final(self)@.wf(),
            outcome(final(self)@, r) == old(self)@.resume(TaskView::Near { negate }, value@),
    {
        match value {
            Value::Number(difference) => deliver(Value::Boolean(near(difference, negate))),
            _ => self.fail(RuntimeError::UnexpectedEvent),
        }
    }

    fn resume_unary(&mut self, operator: Token, value: Value) -> (r: (Control, Request))
        requires
            old(self)@.wf(),
        ensures
            final(self)@.wf(),
            outcome(final(self)@, r) == old(self)@.resume(
                TaskView::Unary { operator: operator@ },
                value@,
            ),
    {
        match unary(&operator, value) {
            Ok(result) => deliver(result),
            Err(error) => self.fail(error),
        }
    }

    fn resume_branch(
        &mut self,
        true_branch: ASTNode,
        false_branch: Option<ASTNode>,
        value: Value,
    ) -> (r: (Control, Request))
        requires
            old(self)@.wf(),
        ensures
            final(self)@.wf(),
            outcome(final(self)@, r) == old(self)@.resume(
                TaskView::Branch {
                    true_branch: true_branch@,
                    false_branch: match false_branch {
                        Some(branch) => Some(branch@),
                        None => None,
                    },
                },
                value@,
            ),
    {
        match value {
            Value::Boolean(true) => go(Control::Eval(true_branch)),
            Value::Boolean(false) => match false_branch {
                Some(branch) => go(Control::Eval(branch)),
                None => deliver(Value::Null),
            },
            _ => self.fail(RuntimeError::ConditionNotBoolean),
        }
    }

    fn resume_loop_test(&mut self, condition: ASTNode, body: ASTNode, last: Value, value: Value) -> (r:
        (Control, Request))
        requires
            old(self)@.wf(),
        ensures
            final(self)@.wf(),
            outcome(final(self)@, r) == old(self)@.resume(
                TaskView::LoopTest { condition: condition@, body: body@, last: last@ },
                value@,
            ),
    {
        let again = match value {
            Value::Boolean(true) => true,
            _ => false,
        };
        if again {
            let node = body.clone();
            self.schedule(Task::LoopBody { condition, body }, node)
        } else {
            deliver(last)
        }
    }

    fn resume_loop_body(&mut self, condition: ASTNode, body: ASTNode, value: Value) -> (r: (
        Control,
        Request,
    ))
        requires
            old(self)@.wf(),
        ensures
            final(self)@.wf(),
            outcome(final(self)@, r) == old(self)@.resume(
                TaskView::LoopBody { condition: condition@, body: body@ },
                value@,
            ),
    {
        let node = condition.clone();
        self.schedule(Task::LoopTest { condition, body, last: value }, node)
    }

    fn resume_arguments(
        &mut self,
        callee: Value,
        arguments: Vec<ASTNode>,
        done: Vec<Value>,
        value: Value,
    ) -> (r: (Control, Request))
        requires
            old(self)@.wf(),
        ensures
            final(self)@.wf(),
            outcome(final(self)@, r) == old(self)@.resume(
                TaskView::Arguments {
                    callee: callee@,
                    arguments: nodes_of(arguments@),
                    done: values_of(done@),
                },
                value@,
            ),
    {
        let mut done = done;
        push_value(&mut done, value);
        if done.len() < arguments.len() {
            let node = arguments[done.len()].clone();
            self.schedule(Task::Arguments { callee, arguments, done }, node)
        } else {
            self.invoke(callee, done)
        }
    }

    fn resume_call(&mut self, value: Value) -> (r: (Control, Request))
        requires
            old(self)@.wf(),
        ensures
            final(self)@.wf(),
            outcome(final(self)@, r) == old(self)@.resume(TaskView::Call, value@),
    {
        self.leave(true);
        deliver(value)
    }

    fn resume(&mut self, task: Task, value: Value) -> (r: (Control, Request))
        requires
            old(self)@.wf(),
        ensures
            final(self)@.wf(),
            outcome(final(self)@, r) == old(self)@.resume(task@, value@),
    {
        match task {
            Task::Block { statements, next, scoped } => self.resume_block(
                statements,
                next,
                scoped,
                value,
            ),
            Task::Define { name } => self.resume_define(name, value),
            Task::Assign { name } => self.resume_assign(name, value),
            Task::Collect { items, done, vector } => self.resume_collect(
                items,
                done,
                vector,
                value,
            ),
            Task::IndexTarget { index } => self.schedule(Task::IndexValue { target: value }, index),
            Task::IndexValue { target } => self.resume_index(target, value),
            Task::BinaryRight { operator, right } => self.schedule(
                Task::BinaryApply { operator, left: value },
                right,
            ),
            Task::BinaryApply { operator, left } => self.resume_binary(operator, left, value),
            Task::AndRight { right } => self.resume_and(right, value),
            Task::OrRight { right } => self.resume_or(right, value),
            Task::Truth => deliver(Value::Boolean(value.truthy())),
            Task::CompareRight { operator, right } => self.schedule(
                Task::CompareApply { operator, left: value },
                right,
            ),
            Task::CompareApply { operator, left } => self.resume_compare(operator, left, value),
            Task::Near { negate } => self.resume_near(negate, value),
            Task::Unary { operator } => self.resume_unary(operator, value),
            Task::Branch { true_branch, false_branch } => self.resume_branch(
                true_branch,
                false_branch,
                value,
            ),
            Task::LoopTest { condition, body, last } => self.resume_loop_test(
                condition,
                body,
                last,
                value,
            ),
            Task::LoopBody { condition, body } => self.resume_loop_body(condition, body, value),
            Task::Return => go(Control::Flow(ControlFlow::Return(value))),
            Task::Arguments { callee, arguments, done } => self.resume_arguments(
                callee,
                arguments,
                done,
                value,
            ),
            Task::Call => self.resume_call(value),
        }
    }

    fn unwind(&mut self, task: Task, flow: ControlFlow) -> (r: (Control, Request))
        requires
            old(self)@.wf(),
        ensures
            final(self)@.wf(),
            outcome(final(self)@, r) == old(self)@.unwind(task@, flow@),
    {
        match task {
            Task::LoopBody { .. } => match flow {
                ControlFlow::Break => deliver(Value::Null),
                other => go(Control::Flow(other)),
            },
            Task::Call => match flow {
                ControlFlow::Return(value) => {
                    self.leave(true);
                    deliver(value)
                },
                _ => self.fail(RuntimeError::BreakOutsideLoop),
            },
            Task::Block { scoped, .. } => {
                self.leave(scoped);
                go(Control::Flow(flow))
            },
            _ => go(Control::Flow(flow)),
        }
    }

    fn settle(&mut self, flow: ControlFlow) -> (r: (Control, Request))
        requires
            old(self)@.wf(),
        ensures
            final(self)@.wf(),
            outcome(final(self)@, r) == old(self)@.settle(flow@),
    {
        match self.pop() {
            None => self.finish(flow),
            Some(task) => match flow {
                ControlFlow::Continue(value) => self.resume(task, value),
                other => self.unwind(task, other),
            },
        }
    }

    fn step(&mut self, control: Control, event: Event) -> (r: (Control, Request))
        requires
            old(self)@.wf(),
        ensures
            final(self)@.wf(),
            outcome(final(self)@, r) == old(self)@.step(control@, event@),
    {
        match control {
            Control::Idle => (Control::Idle, Request::Idle),
            Control::AwaitNumber => match event {
                Event::Number(bits) => deliver(Value::Number(bits)),
                _ => self.fail(RuntimeError::UnexpectedEvent),
            },
            Control::AwaitValue => match event {
                Event::Value(value) => deliver(value),
                Event::Failure(text) => self.fail(RuntimeError::Builtin(text)),
                _ => self.fail(RuntimeError::UnexpectedEvent),
            },
            Control::Eval(node) => match event {
                Event::Tick => self.begin(node),
                _ => self.fail(RuntimeError::UnexpectedEvent),
            },
            Control::Flow(flow) => match event {
                Event::Tick => self.settle(flow),
                _ => self.fail(RuntimeError::UnexpectedEvent),
            },
        }
    }
}

/// The interpreter.
pub struct Interpreter {
    state: State,
    control: Control,
}

impl View for Interpreter {
    type V = MachineView;

    closed spec fn view(&self) -> MachineView {
        MachineView { state: self.state@, control: self.control@ }
    }
}

impl Interpreter {
    /// An interpreter with an empty environment and no program.
    pub fn new() -> (r: Interpreter)
        ensures
            r@ == MachineView::fresh(),
            r@.wf(),
    {
        Interpreter { state: State::new(), control: Control::Idle }
    }

    /// The number of frames that the environment holds.
    pub fn frames(&self) -> (r: usize)
        ensures
            r == self@.state.environment.frames.len(),
    {
        self.state.environment.len()
    }

    /// Binds the names of the builtins in the current frame.
    pub fn init(&mut self) -> (r: Result<(), RuntimeError>)
        requires
            old(self)@.wf(),
        ensures
            final(self)@.wf(),
            final(self)@ == old(self)@.with_builtins().0,
            match r {
                Ok(()) => old(self)@.with_builtins().1.is_none(),
                Err(e) => old(self)@.with_builtins().1 == Some(e@),
            },
    {
        initialization(&mut self.state.environment)
    }

    /// Binds a name to the builtin with an id, in the current frame.
    pub fn register(&mut self, name: String, id: u32) -> (r: Result<(), RuntimeError>)
        requires
            old(self)@.wf(),
        ensures
            final(self)@.wf(),
            match r {
                Ok(()) => old(self)@.state.environment.define(name@, ValueView::Hole(id)) == Some(
                    final(self)@.state.environment,
                ) && final(self)@ == (MachineView {
                    state: old(self)@.state.with_environment(final(self)@.state.environment),
                    control: old(self)@.control,
                }),
                Err(e) => old(self)@.state.environment.define(name@, ValueView::Hole(id)).is_none()
                    && final(self)@ == old(self)@ && e@ == RuntimeErrorView::Redefinition(name@),
            },
    {
        self.state.environment.define(name, Value::Hole(id))
    }

    /// Takes a source text as the program to run. The program is run by
    /// calling `step` until it asks for no more.
    pub fn interpret(&mut self, text: String) -> (r: Result<(), Error>)
        requires
            old(self)@.wf(),
        ensures
            final(self)@.wf(),
            match r {
                Ok(()) => parse_text(text@) is Ok && final(self)@ == old(self)@.load(
                    parse_text(text@)->Ok_0,
                ),
                Err(e) => parse_text(text@) == Err::<NodeView, ErrorView>(e@) && final(self)@
                    == old(self)@,
            },
    {
        match parse(text) {
            Ok(node) => {
                self.evaluate(node);
                Ok(())
            },
            Err(e) => Err(e),
        }
    }

    /// Takes a tree as the program to run. The program is run by calling
    /// `step` until it asks for no more.
    pub fn evaluate(&mut self, node: ASTNode)
        requires
            old(self)@.wf(),
        ensures
            final(self)@.wf(),
            final(self)@ == old(self)@.load(node@),
    {
        self.state.reset();
        match node {
            ASTNode::Block { statements } => if statements.len() == 0 {
                self.control = Control::Flow(ControlFlow::Continue(Value::Null));
            } else {
                let first = statements[0].clone();
                self.state.push(Task::Block { statements, next: 1, scoped: false });
                self.control = Control::Eval(first);
                assert(self.state@.stack =~= seq![
                    TaskView::Block { statements: nodes_of(statements@), next: 1, scoped: false },
                ]);
            },
            other => {
                self.control = Control::Eval(other);
            },
        }
    }

    /// Makes one step. The event answers the request of the step before;
    /// the first event is a `Tick`.
    pub fn step(&mut self, event: Event) -> (r: Request)
        requires
            old(self)@.wf(),
        ensures
            final(self)@.wf(),
            (final(self)@, r@) == old(self)@.step(event@),
    {
        let mut control = Control::Idle;
        core::mem::swap(&mut self.control, &mut control);
        let (next, request) = self.state.step(control, event);
        self.control = next;
        request
    }

    /// Makes steps until the machine asks for something else than to go on,
    /// or until `budget` steps were made behind the first.
    pub fn run(&mut self, event: Event, budget: usize) -> (r: Request)
        requires
            old(self)@.wf(),
        ensures
            final(self)@.wf(),
            (final(self)@, r@) == old(self)@.run(event@, budget as nat),
    {
        let mut request = self.step(event);
        let mut left = budget;
        while left > 0 && matches!(request, Request::Continue)
            invariant
                self@.wf(),
                old(self)@.run(event@, budget as nat) == (if request@ is Continue && left > 0 {
                    self@.run(EventView::Tick, (left - 1) as nat)
                } else {
                    (self@, request@)
                }),
            decreases left,
        {
            request = self.step(Event::Tick);
            left = left - 1;
        }
        request
    }
}

} // verus!
