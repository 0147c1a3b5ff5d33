use lim::error::Error;
use lim::interpreter::Interpreter;
use lim::machine::{Event, Request};
use lim::operators::Operation;
use lim::pre_include::hole_func;
use lim::value::Value;

fn compute(operation: Operation, left: u64, right: u64) -> u64 {
    let (a, b) = (f64::from_bits(left), f64::from_bits(right));
    let result = match operation {
        Operation::Add => a + b,
        Operation::Subtract => a - b,
        Operation::Multiply => a * b,
        Operation::Divide => a / b,
        Operation::Remainder => a % b,
    };
    result.to_bits()
}

fn run(interpreter: &mut Interpreter) -> Result<Value, String> {
    let mut event = Event::Tick;
    loop {
        event = match interpreter.step(event) {
            Request::Continue => Event::Tick,
            Request::Parse(text) => Event::Number(text.parse::<f64>().unwrap().to_bits()),
            Request::Arithmetic(operation, left, right) => {
                Event::Number(compute(operation, left, right))
            }
            Request::Call(id, arguments) => match hole_func(id, arguments, 1.0f64.to_bits()) {
                Ok(output) => Event::Value(output.value),
                Err(e) => Event::Failure(e.message()),
            },
            Request::Finished(flow) => return Ok(flow.unwrap()),
            Request::Failed(e) => return Err(e.message()),
            Request::Idle => return Err(String::from("nothing to run")),
        };
    }
}

fn interpret(text: &str) -> Result<Value, String> {
    let mut interpreter = Interpreter::new();
    interpreter
        .interpret(text.to_string())
        .map_err(|e: Error| e.message())?;
    run(&mut interpreter)
}

fn number(x: f64) -> Value {
    Value::Number(x.to_bits())
}

fn assert_float_eq(a: f64, b: f64) {
    assert!((a - b).abs() < 1e-10, "{} != {}", a, b);
}

#[test]
fn test_arithmetic_operations() {
    assert_eq!(interpret("3").unwrap(), number(3.0));
    assert_eq!(interpret("2 + 7 * 4").unwrap(), number(30.0));
    assert_eq!(interpret("7 - 8 / 4").unwrap(), number(5.0));
    assert_eq!(interpret("14 + 2 * 3 - 6 / 2").unwrap(), number(17.0));
    assert_eq!(interpret("10 % 3").unwrap(), number(1.0));
    assert_eq!(interpret("22 % 5").unwrap(), number(2.0));
    assert_float_eq(
        f64::from_bits(interpret("0.1 + 0.2").unwrap().to_number().unwrap()),
        0.3,
    );
}

#[test]
fn test_complex_expressions() {
    assert_eq!(
        interpret("7 + 3 * (10 / (12 / (3 + 1) - 1))").unwrap(),
        number(22.0)
    );
    assert_eq!(
        interpret("7 + 3 * (10 / (12 / (3 + 1) - 1)) / (2 + 3) - 5 - 3 + (8)").unwrap(),
        number(10.0)
    );
    assert_eq!(interpret("7 + (((3 + 2)))").unwrap(), number(12.0));
}

#[test]
fn test_unary_operations() {
    assert_eq!(interpret("-5 + 3").unwrap(), number(-2.0));
    assert_eq!(interpret("-5").unwrap(), number(-5.0));
    assert_eq!(interpret("3 - (-2)").unwrap(), number(5.0));
}

#[test]
fn test_variable_operations() {
    assert_eq!(interpret("let x = 5; x").unwrap(), number(5.0));
    assert_eq!(interpret("let x = 5; x + 3").unwrap(), number(8.0));
    assert_eq!(interpret("let x = 5; let y = 3; x * y").unwrap(), number(15.0));
    assert_eq!(
        interpret("let x = 5; let y = 3; let z = x + y; z * 2").unwrap(),
        number(16.0)
    );
    assert_eq!(interpret("let x = 5; x = 10; x").unwrap(), number(10.0));
}

#[test]
fn test_logical_operators() {
    assert_eq!(interpret("true && true").unwrap(), Value::Boolean(true));
    assert_eq!(interpret("true && false").unwrap(), Value::Boolean(false));
    assert_eq!(interpret("true || false").unwrap(), Value::Boolean(true));
    assert_eq!(interpret("false || false").unwrap(), Value::Boolean(false));
    assert_eq!(interpret("!true").unwrap(), Value::Boolean(false));
    assert_eq!(interpret("!false").unwrap(), Value::Boolean(true));
    assert_eq!(
        interpret("true && true && true && true && true").unwrap(),
        Value::Boolean(true)
    );
    assert_eq!(
        interpret("false || false || true || false || false").unwrap(),
        Value::Boolean(true)
    );
    assert_eq!(
        interpret("true && true && false && true && true").unwrap(),
        Value::Boolean(false)
    );
}

#[test]
fn test_comparison_operators() {
    assert_eq!(interpret("1 == 1").unwrap(), Value::Boolean(true));
    assert_eq!(interpret("1 != 2").unwrap(), Value::Boolean(true));
    assert_eq!(interpret("2 > 1").unwrap(), Value::Boolean(true));
    assert_eq!(interpret("1 < 2").unwrap(), Value::Boolean(true));
    assert_eq!(interpret("2 >= 2").unwrap(), Value::Boolean(true));
    assert_eq!(interpret("2 <= 2").unwrap(), Value::Boolean(true));
    assert_eq!(
        interpret("1 < 2 && 2 < 3 && 3 < 4").unwrap(),
        Value::Boolean(true)
    );
    assert_eq!(
        interpret("1 < 2 && 2 < 3 && 3 > 4").unwrap(),
        Value::Boolean(false)
    );
}

#[test]
fn test_error_handling() {
    assert!(interpret("a + 5").is_err());
    assert!(interpret("10 / (5 - 5)").is_err());
    assert!(interpret("10 % 0").is_err());
    assert!(interpret("10 *").is_err());
    assert!(interpret("5 = x").is_err());
    assert!(interpret("(2 + 3 * 4").is_err());
}

#[test]
fn test_multiple_statements() {
    assert_eq!(interpret("let x = 5;let y = 10; x + y").unwrap(), number(15.0));
    assert_eq!(interpret("let x = 3; x = x * 2; x + 1").unwrap(), number(7.0));
}

#[test]
fn test_precedence() {
    assert_eq!(interpret("2 + 3 * 4").unwrap(), number(14.0));
    assert_eq!(interpret("(2 + 3) * 4").unwrap(), number(20.0));
}

#[test]
fn test_function_definition_and_call() {
    let program = r#"
            let add;
            add = fn (a, b) {
                a + b
            };
            add(3, 4)
        "#;
    assert_eq!(interpret(program).unwrap(), number(7.0));
}

#[test]
fn test_closure() {
    let program = r#"
            let make_adder;
            make_adder = fn (x) {
                fn(y) {
                    x + y
                }
            };
            let add5; 
            add5 = make_adder(5);
            add5(3)
        "#;
    assert_eq!(interpret(program).unwrap(), number(8.0));
}
