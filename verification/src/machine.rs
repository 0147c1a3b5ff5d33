//! The machine that evaluates a program, as a mathematical object.
//!
//! The machine holds the environment, the node or signal in hand, and a stack
//! of tasks: what is still to be done with the value of the node in hand. It
//! never computes with doubles and never touches the outside world. Where a
//! program needs a sum, the value of a numeric literal or a builtin, a step
//! ends with a request, and the next step takes the host's answer as its
//! event. This module says what a step is; the interpreter makes it.

use vstd::prelude::*;
use crate::ast_node::{nodes_of, ASTNode, NodeView};
use crate::control_flow::{ControlFlow, ControlFlowView};
use crate::environment::EnvironmentView;
use crate::error::{RuntimeError, RuntimeErrorView};
use crate::operators::{
    arithmetic_plan, comparison_result, element_at, near_result, unary_result, Comparison,
    Operation,
};
use crate::pre_include::builtins;
use crate::token::{Token, TokenView};
use crate::value::{values_of, Value, ValueView};

verus! {

/// What the machine asks of its host when a step ends.
#[derive(Debug, PartialEq)]
pub enum Request {
    /// Nothing: step again with a `Tick`.
    Continue,
    /// The double that this numeric literal denotes; answer with `Number`.
    Parse(String),
    /// The result of this operation on these doubles; answer with `Number`.
    Arithmetic(Operation, u64, u64),
    /// The result of the builtin with this id on these arguments; answer
    /// with `Value` or `Failure`.
    Call(u32, Vec<Value>),
    /// The program has run to its end, with this signal.
    Finished(ControlFlow),
    /// The program has failed.
    Failed(RuntimeError),
    /// There is no program to run.
    Idle,
}

pub enum RequestView {
    Continue,
    Parse(Seq<char>),
    Arithmetic(Operation, u64, u64),
    Call(u32, Seq<ValueView>),
    Finished(ControlFlowView),
    Failed(RuntimeErrorView),
    Idle,
}

impl View for Request {
    type V = RequestView;

    open spec fn view(&self) -> RequestView {
        match self {
            Request::Continue => RequestView::Continue,
            Request::Parse(text) => RequestView::Parse(text@),
            Request::Arithmetic(operation, left, right) => RequestView::Arithmetic(
                *operation,
                *left,
                *right,
            ),
            Request::Call(id, arguments) => RequestView::Call(*id, values_of(arguments@)),
            Request::Finished(flow) => RequestView::Finished(flow@),
            Request::Failed(error) => RequestView::Failed(error@),
            Request::Idle => RequestView::Idle,
        }
    }
}

/// What the host hands to the machine with a step.
#[derive(Debug, PartialEq)]
pub enum Event {
    /// Nothing: the last request was `Continue`.
    Tick,
    /// The double that was asked for.
    Number(u64),
    /// The value that a builtin returned.
    Value(Value),
    /// The words with which a builtin failed.
    Failure(String),
}

pub enum EventView {
    Tick,
    Number(u64),
    Value(ValueView),
    Failure(Seq<char>),
}

impl View for Event {
    type V = EventView;

    open spec fn view(&self) -> EventView {
        match self {
            Event::Tick => EventView::Tick,
            Event::Number(bits) => EventView::Number(*bits),
            Event::Value(value) => EventView::Value(value@),
            Event::Failure(text) => EventView::Failure(text@),
        }
    }
}

/// What the machine has in hand.
pub enum Control {
    /// Nothing: no program is loaded, or the last one has ended.
    Idle,
    /// A node to evaluate.
    Eval(ASTNode),
    /// The signal that the last node ended with.
    Flow(ControlFlow),
    /// A request for a double is with the host.
    AwaitNumber,
    /// A request for a builtin's result is with the host.
    AwaitValue,
}

pub enum ControlView {
    Idle,
    Eval(NodeView),
    Flow(ControlFlowView),
    AwaitNumber,
    AwaitValue,
}

impl View for Control {
    type V = ControlView;

    open spec fn view(&self) -> ControlView {
        match self {
            Control::Idle => ControlView::Idle,
            Control::Eval(node) => ControlView::Eval(node@),
            Control::Flow(flow) => ControlView::Flow(flow@),
            Control::AwaitNumber => ControlView::AwaitNumber,
            Control::AwaitValue => ControlView::AwaitValue,
        }
    }
}

/// What is still to be done with the value of the node in hand.
pub enum Task {
    /// Go on with statement `next` of a block, or end the block. A block
    /// has a frame of its own, which it leaves at its end, unless it is the
    /// program itself: then it is not `scoped`.
    Block { statements: Vec<ASTNode>, next: usize, scoped: bool },
    /// Bind the value to a new name.
    Define { name: String },
    /// Assign the value to a name.
    Assign { name: String },
    /// Add the value to the items of a tuple or vector, and go on.
    Collect { items: Vec<ASTNode>, done: Vec<Value>, vector: bool },
    /// The value is what a subscript applies to: evaluate the subscript.
    IndexTarget { index: ASTNode },
    /// The value is a subscript: take the element.
    IndexValue { target: Value },
    /// The value is the left operand of arithmetic: evaluate the right one.
    BinaryRight { operator: Token, right: ASTNode },
    /// The value is the right operand of arithmetic: ask for the result.
    BinaryApply { operator: Token, left: Value },
    /// The value is the left operand of `&&`.
    AndRight { right: ASTNode },
    /// The value is the left operand of `||`.
    OrRight { right: ASTNode },
    /// Coerce the value to a boolean.
    Truth,
    /// The value is the left operand of a comparison.
    CompareRight { operator: Token, right: ASTNode },
    /// The value is the right operand of a comparison: decide it.
    CompareApply { operator: Token, left: Value },
    /// The value is the difference of two numbers compared for equality.
    Near { negate: bool },
    /// Apply a unary operator to the value.
    Unary { operator: Token },
    /// The value is a condition: choose the branch.
    Branch { true_branch: ASTNode, false_branch: Option<ASTNode> },
    /// The value is a loop's condition; `last` is what the body last gave.
    LoopTest { condition: ASTNode, body: ASTNode, last: Value },
    /// The value is what a loop's body gave: test the condition again.
    LoopBody { condition: ASTNode, body: ASTNode },
    /// Unwind to the enclosing call with the value.
    Return,
    /// Add the value to the arguments of a call, and go on.
    Arguments { callee: Value, arguments: Vec<ASTNode>, done: Vec<Value> },
    /// The value is what a function's body gave: leave the function's frame.
    Call,
}

pub enum TaskView {
    Block { statements: Seq<NodeView>, next: nat, scoped: bool },
    Define { name: Seq<char> },
    Assign { name: Seq<char> },
    Collect { items: Seq<NodeView>, done: Seq<ValueView>, vector: bool },
    IndexTarget { index: NodeView },
    IndexValue { target: ValueView },
    BinaryRight { operator: TokenView, right: NodeView },
    BinaryApply { operator: TokenView, left: ValueView },
    AndRight { right: NodeView },
    OrRight { right: NodeView },
    Truth,
    CompareRight { operator: TokenView, right: NodeView },
    CompareApply { operator: TokenView, left: ValueView },
    Near { negate: bool },
    Unary { operator: TokenView },
    Branch { true_branch: NodeView, false_branch: Option<NodeView> },
    LoopTest { condition: NodeView, body: NodeView, last: ValueView },
    LoopBody { condition: NodeView, body: NodeView },
    Return,
    Arguments { callee: ValueView, arguments: Seq<NodeView>, done: Seq<ValueView> },
    Call,
}

impl View for Task {
    type V = TaskView;

    open spec fn view(&self) -> TaskView {
        match self {
            Task::Block { statements, next, scoped } => TaskView::Block {
                statements: nodes_of(statements@),
                next: *next as nat,
                scoped: *scoped,
            },
            Task::Define { name } => TaskView::Define { name: name@ },
            Task::Assign { name } => TaskView::Assign { name: name@ },
            Task::Collect { items, done, vector } => TaskView::Collect {
                items: nodes_of(items@),
                done: values_of(done@),
                vector: *vector,
            },
            Task::IndexTarget { index } => TaskView::IndexTarget { index: index@ },
            Task::IndexValue { target } => TaskView::IndexValue { target: target@ },
            Task::BinaryRight { operator, right } => TaskView::BinaryRight {
                operator: operator@,
                right: right@,
            },
            Task::BinaryApply { operator, left } => TaskView::BinaryApply {
                operator: operator@,
                left: left@,
            },
            Task::AndRight { right } => TaskView::AndRight { right: right@ },
            Task::OrRight { right } => TaskView::OrRight { right: right@ },
            Task::Truth => TaskView::Truth,
            Task::CompareRight { operator, right } => TaskView::CompareRight {
                operator: operator@,
                right: right@,
            },
            Task::CompareApply { operator, left } => TaskView::CompareApply {
                operator: operator@,
                left: left@,
            },
            Task::Near { negate } => TaskView::Near { negate: *negate },
            Task::Unary { operator } => TaskView::Unary { operator: operator@ },
            Task::Branch { true_branch, false_branch } => TaskView::Branch {
                true_branch: true_branch@,
                false_branch: match false_branch {
                    Some(branch) => Some(branch@),
                    None => None,
                },
            },
            Task::LoopTest { condition, body, last } => TaskView::LoopTest {
                condition: condition@,
                body: body@,
                last: last@,
            },
            Task::LoopBody { condition, body } => TaskView::LoopBody {
                condition: condition@,
                body: body@,
            },
            Task::Return => TaskView::Return,
            Task::Arguments { callee, arguments, done } => TaskView::Arguments {
                callee: callee@,
                arguments: nodes_of(arguments@),
                done: values_of(done@),
            },
            Task::Call => TaskView::Call,
        }
    }
}

/// The views of a stack of tasks, bottom first.
pub open spec fn tasks_of(stack: Seq<Task>) -> Seq<TaskView> {
    Seq::new(stack.len(), |i: int| stack[i]@)
}

/// The machine without what it has in hand.
pub struct StateView {
    pub environment: EnvironmentView,
    pub stack: Seq<TaskView>,
}

/// How a step ends: the state, what is in hand, and the request.
pub struct Outcome {
    pub state: StateView,
    pub control: ControlView,
    pub request: RequestView,
}

/// The environment after binding `params[i..]` to `arguments[i..]`, pair by
/// pair, in the current frame.
pub open spec fn bind_all(
    environment: EnvironmentView,
    params: Seq<Seq<char>>,
    arguments: Seq<ValueView>,
    i: nat,
) -> EnvironmentView
    decreases params.len() - i,
{
    if i >= params.len() || i >= arguments.len() {
        environment
    } else {
        bind_all(environment.bind(params[i as int], arguments[i as int]), params, arguments, i + 1)
    }
}

impl StateView {
    /// The environment is well formed.
    pub open spec fn wf(self) -> bool {
        self.environment.wf()
    }

    /// The state with a task more on its stack.
    pub open spec fn with_task(self, task: TaskView) -> StateView {
        StateView { environment: self.environment, stack: self.stack.push(task) }
    }

    pub open spec fn with_environment(self, environment: EnvironmentView) -> StateView {
        StateView { environment, stack: self.stack }
    }

    /// Go on with `control` in hand.
    pub open spec fn go(self, control: ControlView) -> Outcome {
        Outcome { state: self, control, request: RequestView::Continue }
    }

    /// The node in hand has the value `value`.
    pub open spec fn deliver(self, value: ValueView) -> Outcome {
        self.go(ControlView::Flow(ControlFlowView::Continue(value)))
    }

    /// Evaluate `node` next, and do `task` with its value.
    pub open spec fn schedule(self, task: TaskView, node: NodeView) -> Outcome {
        self.with_task(task).go(ControlView::Eval(node))
    }

    /// Wait for a double from the host.
    pub open spec fn ask(self, request: RequestView) -> Outcome {
        Outcome { state: self, control: ControlView::AwaitNumber, request }
    }

    /// The program fails: every task is dropped and the environment is
    /// reset.
    pub open spec fn fail(self, error: RuntimeErrorView) -> Outcome {
        Outcome {
            state: StateView {
                environment: self.environment.reset(),
                stack: Seq::empty(),
            },
            control: ControlView::Idle,
            request: RequestView::Failed(error),
        }
    }

    /// The program ends with the signal `flow`.
    pub open spec fn finish(self, flow: ControlFlowView) -> Outcome {
        Outcome {
            state: StateView {
                environment: self.environment.reset(),
                stack: Seq::empty(),
            },
            control: ControlView::Idle,
            request: RequestView::Finished(flow),
        }
    }

    /// The first step on a node.
    pub open spec fn begin(self, node: NodeView) -> Outcome {
        match node {
            NodeView::Literal(value) => self.deliver(value),
            NodeView::Number(text) => self.ask(RequestView::Parse(text)),
            NodeView::Identifier(name) => match self.environment.get(name) {
                Some(value) => self.deliver(value),
                None => self.fail(RuntimeErrorView::UndefinedVariable(name)),
            },
            NodeView::FunctionDefinition { params, body } => self.with_environment(
                self.environment.capture(),
            ).deliver(ValueView::Function { params, body, closure: self.environment.current }),
            NodeView::Break => self.go(ControlView::Flow(ControlFlowView::Break)),
            NodeView::Block { statements } => if statements.len() == 0 {
                self.deliver(ValueView::Null)
            } else {
                match self.environment.child_of(self.environment.current) {
                    None => self.fail(RuntimeErrorView::UnknownFrame),
                    Some(made) => self.with_environment(
                        made.enter(self.environment.frames.len()),
                    ).schedule(TaskView::Block { statements, next: 1, scoped: true }, statements[0]),
                }
            },
            NodeView::Let { ast } => match *ast {
                NodeView::Identifier(name) => match self.environment.define(name, ValueView::Null) {
                    Some(environment) => self.with_environment(environment).deliver(
                        ValueView::Null,
                    ),
                    None => self.fail(RuntimeErrorView::Redefinition(name)),
                },
                NodeView::Assignment { name, value } => self.schedule(
                    TaskView::Define { name },
                    *value,
                ),
                _ => self.fail(RuntimeErrorView::InvalidBinding),
            },
            NodeView::Assignment { name, value } => self.schedule(
                TaskView::Assign { name },
                *value,
            ),
            NodeView::Tuple(items) => if items.len() == 0 {
                self.deliver(ValueView::Tuple(Seq::empty()))
            } else {
                self.schedule(
                    TaskView::Collect { items, done: Seq::empty(), vector: false },
                    items[0],
                )
            },
            NodeView::Vector(items) => if items.len() == 0 {
                self.deliver(ValueView::Vector(Seq::empty()))
            } else {
                self.schedule(
                    TaskView::Collect { items, done: Seq::empty(), vector: true },
                    items[0],
                )
            },
            NodeView::Index { expression, index } => self.schedule(
                TaskView::IndexTarget { index: *index },
                *expression,
            ),
            NodeView::BinaryOperation { operator, left, right } => self.schedule(
                TaskView::BinaryRight { operator, right: *right },
                *left,
            ),
            NodeView::LogicalOperation { operator, left, right } => match operator {
                TokenView::And => self.schedule(TaskView::AndRight { right: *right }, *left),
                TokenView::Or => self.schedule(TaskView::OrRight { right: *right }, *left),
                _ => self.schedule(TaskView::CompareRight { operator, right: *right }, *left),
            },
            NodeView::UnaryOperation { operator, operand } => self.schedule(
                TaskView::Unary { operator },
                *operand,
            ),
            NodeView::Conditional { condition, true_branch, false_branch } => self.schedule(
                TaskView::Branch {
                    true_branch: *true_branch,
                    false_branch: match false_branch {
                        Some(branch) => Some(*branch),
                        None => None,
                    },
                },
                *condition,
            ),
            NodeView::Loop { condition, body } => self.schedule(
                TaskView::LoopTest { condition: *condition, body: *body, last: ValueView::Null },
                *condition,
            ),
            NodeView::Return(inner) => self.schedule(TaskView::Return, *inner),
            NodeView::FunctionCall { function, arguments } => match self.environment.get(
                function,
            ) {
                None => self.fail(RuntimeErrorView::UndefinedVariable(function)),
                Some(callee) => match callee {
                    ValueView::Function { params, .. } => if params.len() != arguments.len() {
                        self.fail(RuntimeErrorView::ArityMismatch)
                    } else {
                        self.gather(callee, arguments)
                    },
                    ValueView::Hole(_) => self.gather(callee, arguments),
                    _ => self.fail(RuntimeErrorView::NotCallable),
                },
            },
        }
    }

    /// Evaluate the arguments of a call from the first, or make the call at
    /// once if there are none.
    pub open spec fn gather(self, callee: ValueView, arguments: Seq<NodeView>) -> Outcome {
        if arguments.len() == 0 {
            self.invoke(callee, Seq::empty())
        } else {
            self.schedule(
                TaskView::Arguments { callee, arguments, done: Seq::empty() },
                arguments[0],
            )
        }
    }

    /// Make a call. A function gets a new frame below the one it captured,
    /// with its parameters and `self` bound in it, and its body is evaluated
    /// there. A builtin is the host's to run.
    pub open spec fn invoke(self, callee: ValueView, arguments: Seq<ValueView>) -> Outcome {
        match callee {
            ValueView::Function { params, body, closure } => match self.environment.child_of(
                closure,
            ) {
                None => self.fail(RuntimeErrorView::UnknownFrame),
                Some(made) => {
                    let frame = self.environment.frames.len();
                    let bound = bind_all(made.enter(frame), params, arguments, 0);
                    match bound.define("self"@, callee) {
                        None => self.with_environment(bound).fail(
                            RuntimeErrorView::Redefinition("self"@),
                        ),
                        Some(ready) => self.with_environment(ready).schedule(
                            TaskView::Call,
                            *body,
                        ),
                    }
                },
            },
            ValueView::Hole(id) => Outcome {
                state: self,
                control: ControlView::AwaitValue,
                request: RequestView::Call(id, arguments),
            },
            _ => self.fail(RuntimeErrorView::NotCallable),
        }
    }

    /// Do `task` with `value`. The task is off the stack already.
    pub open spec fn resume(self, task: TaskView, value: ValueView) -> Outcome {
        match task {
            TaskView::Block { statements, next, scoped } => if next < statements.len() {
                self.schedule(
                    TaskView::Block { statements, next: next + 1, scoped },
                    statements[next as int],
                )
            } else {
                self.left(scoped).deliver(value)
            },
            TaskView::Define { name } => match self.environment.define(name, value) {
                Some(environment) => self.with_environment(environment).deliver(ValueView::Null),
                None => self.fail(RuntimeErrorView::Redefinition(name)),
            },
            TaskView::Assign { name } => match self.environment.set(name, value) {
                Some(environment) => self.with_environment(environment).deliver(value),
                None => self.fail(RuntimeErrorView::Undeclared(name)),
            },
            TaskView::Collect { items, done, vector } => {
                let done = done.push(value);
                if done.len() < items.len() {
                    self.schedule(TaskView::Collect { items, done, vector }, items[done.len() as int])
                } else if vector {
                    self.deliver(ValueView::Vector(done))
                } else {
                    self.deliver(ValueView::Tuple(done))
                }
            },
            TaskView::IndexTarget { index } => self.schedule(
                TaskView::IndexValue { target: value },
                index,
            ),
            TaskView::IndexValue { target } => match element_at(target, value) {
                Ok(item) => self.deliver(item),
                Err(error) => self.fail(error),
            },
            TaskView::BinaryRight { operator, right } => self.schedule(
                TaskView::BinaryApply { operator, left: value },
                right,
            ),
            TaskView::BinaryApply { operator, left } => match arithmetic_plan(
                operator,
                left,
                value,
            ) {
                Ok((operation, a, b)) => self.ask(RequestView::Arithmetic(operation, a, b)),
                Err(error) => self.fail(error),
            },
            TaskView::AndRight { right } => if value.truthy() {
                self.schedule(TaskView::Truth, right)
            } else {
                self.deliver(ValueView::Boolean(false))
            },
            TaskView::OrRight { right } => if value.truthy() {
                self.deliver(ValueView::Boolean(true))
            } else {
                self.schedule(TaskView::Truth, right)
            },
            TaskView::Truth => self.deliver(ValueView::Boolean(value.truthy())),
            TaskView::CompareRight { operator, right } => self.schedule(
                TaskView::CompareApply { operator, left: value },
                right,
            ),
            TaskView::CompareApply { operator, left } => match comparison_result(
                operator,
                left,
                value,
            ) {
                Ok(Comparison::Decided(answer)) => self.deliver(ValueView::Boolean(answer)),
                Ok(Comparison::Near { left, right, negate }) => self.with_task(
                    TaskView::Near { negate },
                ).ask(RequestView::Arithmetic(Operation::Subtract, left, right)),
                Err(error) => self.fail(error),
            },
            TaskView::Near { negate } => match value {
                ValueView::Number(difference) => self.deliver(
                    ValueView::Boolean(near_result(difference, negate)),
                ),
                _ => self.fail(RuntimeErrorView::UnexpectedEvent),
            },
            TaskView::Unary { operator } => match unary_result(operator, value) {
                Ok(result) => self.deliver(result),
                Err(error) => self.fail(error),
            },
            TaskView::Branch { true_branch, false_branch } => match value {
                ValueView::Boolean(true) => self.go(ControlView::Eval(true_branch)),
                ValueView::Boolean(false) => match false_branch {
                    Some(branch) => self.go(ControlView::Eval(branch)),
                    None => self.deliver(ValueView::Null),
                },
                _ => self.fail(RuntimeErrorView::ConditionNotBoolean),
            },
            TaskView::LoopTest { condition, body, last } => if value == ValueView::Boolean(true) {
                self.schedule(TaskView::LoopBody { condition, body }, body)
            } else {
                self.deliver(last)
            },
            TaskView::LoopBody { condition, body } => self.schedule(
                TaskView::LoopTest { condition, body, last: value },
                condition,
            ),
            TaskView::Return => self.go(ControlView::Flow(ControlFlowView::Return(value))),
            TaskView::Arguments { callee, arguments, done } => {
                let done = done.push(value);
                if done.len() < arguments.len() {
                    self.schedule(
                        TaskView::Arguments { callee, arguments, done },
                        arguments[done.len() as int],
                    )
                } else {
                    self.invoke(callee, done)
                }
            },
            TaskView::Call => self.left(true).deliver(value),
        }
    }

    /// The state behind a block or a function's body: its frame is left, if
    /// it had one.
    pub open spec fn left(self, scoped: bool) -> StateView {
        if scoped {
            self.with_environment(self.environment.leave())
        } else {
            self
        }
    }

    /// Pass a `Return` or a `Break` by `task`. A loop ends on a `Break`, a
    /// call ends on a `Return` and fails on a `Break`, a block leaves its
    /// frame; every other task is dropped. The task is off the stack already.
    pub open spec fn unwind(self, task: TaskView, flow: ControlFlowView) -> Outcome {
        match task {
            TaskView::LoopBody { .. } => match flow {
                ControlFlowView::Break => self.deliver(ValueView::Null),
                _ => self.go(ControlView::Flow(flow)),
            },
            TaskView::Call => match flow {
                ControlFlowView::Return(value) => self.left(true).deliver(value),
                _ => self.fail(RuntimeErrorView::BreakOutsideLoop),
            },
            TaskView::Block { scoped, .. } => self.left(scoped).go(ControlView::Flow(flow)),
            _ => self.go(ControlView::Flow(flow)),
        }
    }

    /// Hand the signal in hand to the task on top of the stack, or end the
    /// program if the stack is empty.
    pub open spec fn settle(self, flow: ControlFlowView) -> Outcome {
        if self.stack.len() == 0 {
            self.finish(flow)
        } else {
            let rest = StateView { environment: self.environment, stack: self.stack.drop_last() };
            match flow {
                ControlFlowView::Continue(value) => rest.resume(self.stack.last(), value),
                _ => rest.unwind(self.stack.last(), flow),
            }
        }
    }

    /// One step of the machine.
    pub open spec fn step(self, control: ControlView, event: EventView) -> Outcome {
        match control {
            ControlView::Idle => Outcome {
                state: self,
                control: ControlView::Idle,
                request: RequestView::Idle,
            },
            ControlView::AwaitNumber => match event {
                EventView::Number(bits) => self.deliver(ValueView::Number(bits)),
                _ => self.fail(RuntimeErrorView::UnexpectedEvent),
            },
            ControlView::AwaitValue => match event {
                EventView::Value(value) => self.deliver(value),
                EventView::Failure(text) => self.fail(RuntimeErrorView::Builtin(text)),
                _ => self.fail(RuntimeErrorView::UnexpectedEvent),
            },
            ControlView::Eval(node) => match event {
                EventView::Tick => self.begin(node),
                _ => self.fail(RuntimeErrorView::UnexpectedEvent),
            },
            ControlView::Flow(flow) => match event {
                EventView::Tick => self.settle(flow),
                _ => self.fail(RuntimeErrorView::UnexpectedEvent),
            },
        }
    }
}

/// The machine as a mathematical value.
pub struct MachineView {
    pub state: StateView,
    pub control: ControlView,
}

impl MachineView {
    pub open spec fn wf(self) -> bool {
        self.state.wf()
    }

    /// A machine with one empty frame and no program.
    pub open spec fn fresh() -> MachineView {
        MachineView {
            state: StateView { environment: EnvironmentView::root(), stack: Seq::empty() },
            control: ControlView::Idle,
        }
    }

    /// The machine with `node` as its program, to be run in the root frame.
    /// The statements of a program stand in the root frame themselves: the
    /// block that a program is gets no frame of its own.
    pub open spec fn load(self, node: NodeView) -> MachineView {
        let environment = self.state.environment.reset();
        match node {
            NodeView::Block { statements } => if statements.len() == 0 {
                MachineView {
                    state: StateView { environment, stack: Seq::empty() },
                    control: ControlView::Flow(ControlFlowView::Continue(ValueView::Null)),
                }
            } else {
                MachineView {
                    state: StateView {
                        environment,
                        stack: seq![TaskView::Block { statements, next: 1, scoped: false }],
                    },
                    control: ControlView::Eval(statements[0]),
                }
            },
            _ => MachineView {
                state: StateView { environment, stack: Seq::empty() },
                control: ControlView::Eval(node),
            },
        }
    }

    /// One step: the machine after it, and what it asks of the host.
    pub open spec fn step(self, event: EventView) -> (MachineView, RequestView) {
        let outcome = self.state.step(self.control, event);
        (MachineView { state: outcome.state, control: outcome.control }, outcome.request)
    }

    /// The machine with the builtins bound in its current frame, or the
    /// error at the first of them that is bound there already.
    pub open spec fn with_builtins(self) -> (MachineView, Option<RuntimeErrorView>) {
        let (environment, error) = builtins(self.state.environment);
        (
            MachineView { state: self.state.with_environment(environment), control: self.control },
            error,
        )
    }
}

impl MachineView {
    /// The machine after a number of steps that each get a `Tick`.
    pub open spec fn ticks(self, n: nat) -> MachineView
        decreases n,
    {
        if n == 0 {
            self
        } else {
            self.step(EventView::Tick).0.ticks((n - 1) as nat)
        }
    }

    /// Steps until the machine asks for something else than to go on, for
    /// at most `budget` steps behind the first. The event goes with the
    /// first step.
    pub open spec fn run(self, event: EventView, budget: nat) -> (MachineView, RequestView)
        decreases budget,
    {
        let (next, request) = self.step(event);
        if request is Continue && budget > 0 {
            next.run(EventView::Tick, (budget - 1) as nat)
        } else {
            (next, request)
        }
    }

    /// The machine with another signal in hand and another environment.
    pub open spec fn settled(self, environment: EnvironmentView, flow: ControlFlowView) -> MachineView {
        MachineView {
            state: self.state.with_environment(environment),
            control: ControlView::Flow(flow),
        }
    }
}

/// The left operand decides `&&` when it is falsey: the result is `false`,
/// and the right operand is dropped without being evaluated.
pub proof fn and_short_circuits(state: StateView, right: NodeView, value: ValueView)
    requires
        !value.truthy(),
    ensures
        state.resume(TaskView::AndRight { right }, value) == state.deliver(
            ValueView::Boolean(false),
        ),
{
}

/// The left operand decides `||` when it is truthy: the result is `true`,
/// and the right operand is dropped without being evaluated.
pub proof fn or_short_circuits(state: StateView, right: NodeView, value: ValueView)
    requires
        value.truthy(),
    ensures
        state.resume(TaskView::OrRight { right }, value) == state.deliver(ValueView::Boolean(true)),
{
}

/// `a && b` with a falsey literal `a` is `false` after three steps, whatever
/// `b` is: the machine is as it was, but for the result in hand.
pub proof fn and_skips_right(machine: MachineView, left: ValueView, right: NodeView)
    requires
        !left.truthy(),
        machine.control == ControlView::Eval(
            NodeView::LogicalOperation {
                operator: TokenView::And,
                left: Box::new(NodeView::Literal(left)),
                right: Box::new(right),
            },
        ),
    ensures
        machine.ticks(3) == machine.settled(
            machine.state.environment,
            ControlFlowView::Continue(ValueView::Boolean(false)),
        ),
{
    let first = machine.step(EventView::Tick).0;
    let second = first.step(EventView::Tick).0;
    let third = second.step(EventView::Tick).0;
    assert(first.state.stack == machine.state.stack.push(TaskView::AndRight { right }));
    assert(first.control == ControlView::Eval(NodeView::Literal(left)));
    assert(second.control == ControlView::Flow(ControlFlowView::Continue(left)));
    assert(second.state.stack.drop_last() =~= machine.state.stack);
    assert(third.state.stack == machine.state.stack);
    assert(machine.ticks(3) == first.ticks(2));
    assert(first.ticks(2) == second.ticks(1));
    assert(second.ticks(1) == third.ticks(0));
}

/// `a || b` with a truthy literal `a` is `true` after three steps, whatever
/// `b` is.
pub proof fn or_skips_right(machine: MachineView, left: ValueView, right: NodeView)
    requires
        left.truthy(),
        machine.control == ControlView::Eval(
            NodeView::LogicalOperation {
                operator: TokenView::Or,
                left: Box::new(NodeView::Literal(left)),
                right: Box::new(right),
            },
        ),
    ensures
        machine.ticks(3) == machine.settled(
            machine.state.environment,
            ControlFlowView::Continue(ValueView::Boolean(true)),
        ),
{
    let first = machine.step(EventView::Tick).0;
    let second = first.step(EventView::Tick).0;
    let third = second.step(EventView::Tick).0;
    assert(first.state.stack == machine.state.stack.push(TaskView::OrRight { right }));
    assert(first.control == ControlView::Eval(NodeView::Literal(left)));
    assert(second.control == ControlView::Flow(ControlFlowView::Continue(left)));
    assert(second.state.stack.drop_last() =~= machine.state.stack);
    assert(third.state.stack == machine.state.stack);
    assert(machine.ticks(3) == first.ticks(2));
    assert(first.ticks(2) == second.ticks(1));
    assert(second.ticks(1) == third.ticks(0));
}

/// `!!x` is `x` for a boolean `x`: five steps on the doubly negated literal
/// leave the machine as it was, with `x` in hand.
pub proof fn double_negation_runs(machine: MachineView, x: bool)
    requires
        machine.control == ControlView::Eval(
            NodeView::UnaryOperation {
                operator: TokenView::Not,
                operand: Box::new(
                    NodeView::UnaryOperation {
                        operator: TokenView::Not,
                        operand: Box::new(NodeView::Literal(ValueView::Boolean(x))),
                    },
                ),
            },
        ),
    ensures
        machine.ticks(5) == machine.settled(
            machine.state.environment,
            ControlFlowView::Continue(ValueView::Boolean(x)),
        ),
{
    let not = TaskView::Unary { operator: TokenView::Not };
    let m1 = machine.step(EventView::Tick).0;
    let m2 = m1.step(EventView::Tick).0;
    let m3 = m2.step(EventView::Tick).0;
    let m4 = m3.step(EventView::Tick).0;
    let m5 = m4.step(EventView::Tick).0;
    assert(m1.state.stack == machine.state.stack.push(not));
    assert(m2.state.stack == machine.state.stack.push(not).push(not));
    assert(m3.control == ControlView::Flow(ControlFlowView::Continue(ValueView::Boolean(x))));
    assert(m3.state.stack == m2.state.stack);
    assert(m3.state.stack.drop_last() =~= m1.state.stack);
    assert(m4.control == ControlView::Flow(ControlFlowView::Continue(ValueView::Boolean(!x))));
    assert(m4.state.stack == m1.state.stack);
    assert(m4.state.stack.drop_last() =~= machine.state.stack);
    assert(m5.control == ControlView::Flow(ControlFlowView::Continue(ValueView::Boolean(x))));
    assert(m5.state.stack == machine.state.stack);
    assert(machine.ticks(5) == m1.ticks(4));
    assert(m1.ticks(4) == m2.ticks(3));
    assert(m2.ticks(3) == m3.ticks(2));
    assert(m3.ticks(2) == m4.ticks(1));
    assert(m4.ticks(1) == m5.ticks(0));
}

/// `let x = v; x` is `v`: where the root frame does not bind `x` yet, six
/// steps on the program of the two statements leave `v` in hand, in the
/// environment that has `x` bound to `v`.
pub proof fn let_then_read(machine: MachineView, name: Seq<char>, value: ValueView)
    requires
        machine.state.environment.reset().wf(),
        machine.state.environment.reset().define(name, value).is_some(),
    ensures
        machine.load(
            NodeView::Block {
                statements: seq![
                    NodeView::Let {
                        ast: Box::new(
                            NodeView::Assignment {
                                name,
                                value: Box::new(NodeView::Literal(value)),
                            },
                        ),
                    },
                    NodeView::Identifier(name),
                ],
            },
        ).ticks(6) == (MachineView {
            state: StateView {
                environment: machine.state.environment.reset().define(name, value).unwrap(),
                stack: Seq::empty(),
            },
            control: ControlView::Flow(ControlFlowView::Continue(value)),
        }),
{
    let statements = seq![
        NodeView::Let {
            ast: Box::new(
                NodeView::Assignment { name, value: Box::new(NodeView::Literal(value)) },
            ),
        },
        NodeView::Identifier(name),
    ];
    let start = machine.state.environment.reset();
    let bound = start.define(name, value).unwrap();
    let program = TaskView::Block { statements, next: 1, scoped: false };
    let m0 = machine.load(NodeView::Block { statements });
    let m1 = m0.step(EventView::Tick).0;
    let m2 = m1.step(EventView::Tick).0;
    let m3 = m2.step(EventView::Tick).0;
    let m4 = m3.step(EventView::Tick).0;
    let m5 = m4.step(EventView::Tick).0;
    let m6 = m5.step(EventView::Tick).0;
    assert(m0.state.stack == seq![program]);
    assert(m0.control == ControlView::Eval(statements[0]));
    assert(m1.state.stack == seq![program].push(TaskView::Define { name }));
    assert(m1.control == ControlView::Eval(NodeView::Literal(value)));
    assert(m2.control == ControlView::Flow(ControlFlowView::Continue(value)));
    assert(m2.state.stack == m1.state.stack);
    assert(m2.state.stack.drop_last() =~= seq![program]);
    assert(m3.state.environment == bound);
    assert(m3.control == ControlView::Flow(ControlFlowView::Continue(ValueView::Null)));
    assert(m3.state.stack == seq![program]);
    assert(m3.state.stack.drop_last() =~= Seq::<TaskView>::empty());
    assert(m4.state.stack == Seq::<TaskView>::empty().push(
        TaskView::Block { statements, next: 2, scoped: false },
    ));
    assert(m4.control == ControlView::Eval(NodeView::Identifier(name)));
    start.define_then_get(name, value);
    assert(m5.control == ControlView::Flow(ControlFlowView::Continue(value)));
    assert(m5.state.stack == m4.state.stack);
    assert(m5.state.stack.drop_last() =~= Seq::<TaskView>::empty());
    assert(m6.control == ControlView::Flow(ControlFlowView::Continue(value)));
    assert(m6.state.stack == Seq::<TaskView>::empty());
    assert(m6.state.environment == bound);
    assert(m0.ticks(6) == m1.ticks(5));
    assert(m1.ticks(5) == m2.ticks(4));
    assert(m2.ticks(4) == m3.ticks(3));
    assert(m3.ticks(3) == m4.ticks(2));
    assert(m4.ticks(2) == m5.ticks(1));
    assert(m5.ticks(1) == m6.ticks(0));
}

/// A second `let` of a name in one frame fails.
pub proof fn let_twice_fails(state: StateView, name: Seq<char>, first: ValueView, second: ValueView)
    requires
        state.environment.wf(),
        state.environment.define(name, first).is_some(),
    ensures
        state.with_environment(state.environment.define(name, first).unwrap()).resume(
            TaskView::Define { name },
            second,
        ).request == RequestView::Failed(RuntimeErrorView::Redefinition(name)),
{
    state.environment.define_twice_fails(name, first, second);
}

/// An assignment to a name that no frame of the chain binds fails.
pub proof fn assignment_needs_let(state: StateView, name: Seq<char>, value: ValueView)
    requires
        state.environment.get(name).is_none(),
    ensures
        state.resume(TaskView::Assign { name }, value) == state.fail(
            RuntimeErrorView::Undeclared(name),
        ),
{
    state.environment.set_needs_binding(name, value);
}

} // verus!
