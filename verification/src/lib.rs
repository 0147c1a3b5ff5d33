//! A small interpreter for Lim, an expression-oriented scripting language
//! with first-class functions and lexical closures.
//!
//! Source text becomes tokens (`lexer`), tokens become a tree (`parser`), and
//! the tree is evaluated by a machine that makes one step at a time
//! (`machine`, `interpreter`) over an environment of chained frames
//! (`environment`).
//!
//! Numbers are doubles, carried as their bit patterns (`number`). The
//! library decides what it can on the bits: signs, orderings, zero tests,
//! subscripts. Arithmetic that rounds, the reading of numeric literals and
//! the builtins are the host's: a step of the machine ends with a request,
//! and the host's answer goes into the next step.
//!
//! ```text
//! let mut interpreter = Interpreter::new();
//! interpreter.init()?;
//! interpreter.interpret(text)?;
//! let mut event = Event::Tick;
//! loop {
//!     event = match interpreter.run(event, 1000) {
//!         Request::Continue => Event::Tick,
//!         Request::Parse(digits) => Event::Number(/* the double that the digits denote */),
//!         Request::Arithmetic(operation, left, right) => Event::Number(/* the result */),
//!         Request::Call(id, arguments) => /* Event::Value(..) or Event::Failure(..) */,
//!         Request::Finished(flow) => return Ok(flow.unwrap()),
//!         Request::Failed(error) => return Err(error),
//!         Request::Idle => return Ok(Value::Null),
//!     };
//! }
//! ```

pub mod ast_node;
pub mod control_flow;
pub mod environment;
pub mod error;
pub mod interpreter;
pub mod lexer;
pub mod machine;
pub mod number;
pub mod operators;
pub mod parser;
pub mod pre_include;
pub mod text;
pub mod token;
pub mod value;
