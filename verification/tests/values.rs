use lim::environment::Environment;
use lim::error::RuntimeError;
use lim::number;
use lim::operators::{arithmetic, comparison, element, near, unary, Comparison, Operation};
use lim::pre_include::{
    format_string, hole_func, initialization, BuiltinError, FormatError, PRINTF, TIMESTAMP,
};
use lim::token::Token;
use lim::value::{Equality, Piece, Value};

fn bits(x: f64) -> u64 {
    x.to_bits()
}

fn number(x: f64) -> Value {
    Value::Number(x.to_bits())
}

fn text(s: &str) -> Value {
    Value::String(s.to_string())
}

fn render(pieces: &[Piece]) -> String {
    let mut out = String::new();
    for piece in pieces {
        match piece {
            Piece::Char(c) => out.push(*c),
            Piece::Number(b) => out.push_str(&f64::from_bits(*b).to_string()),
        }
    }
    out
}

const SAMPLES: [f64; 14] = [
    0.0,
    -0.0,
    1.0,
    -1.0,
    0.5,
    -2.5,
    1e300,
    -1e300,
    5e-324,
    f64::INFINITY,
    f64::NEG_INFINITY,
    f64::NAN,
    f64::EPSILON,
    4503599627370496.0,
];

#[test]
fn ordering_on_bits_is_the_ordering_of_doubles() {
    for a in SAMPLES {
        for b in SAMPLES {
            assert_eq!(number::less_than(bits(a), bits(b)), a < b, "{} < {}", a, b);
            assert_eq!(number::at_most(bits(a), bits(b)), a <= b, "{} <= {}", a, b);
        }
    }
}

#[test]
fn signs_and_zeros_on_bits() {
    for a in SAMPLES {
        assert_eq!(number::zero(bits(a)), a == 0.0);
        assert_eq!(number::nan(bits(a)), a.is_nan());
        assert_eq!(number::negate(bits(a)), bits(-a));
        assert_eq!(number::negate(number::negate(bits(a))), bits(a));
        assert_eq!(number::within_epsilon(bits(a)), a.abs() < f64::EPSILON);
    }
    assert_eq!(number::from_bool(true), bits(1.0));
    assert_eq!(number::from_bool(false), bits(0.0));
    assert_eq!(number::ONE, bits(1.0));
    assert_eq!(number::EPSILON, bits(f64::EPSILON));
    assert_eq!(number::INFINITY, bits(f64::INFINITY));
}

#[test]
fn doubles_as_positions() {
    assert_eq!(number::to_index(bits(0.0), 1), Some(0));
    assert_eq!(number::to_index(bits(-0.0), 1), Some(0));
    assert_eq!(number::to_index(bits(0.0), 0), None);
    assert_eq!(number::to_index(bits(1.0), 2), Some(1));
    assert_eq!(number::to_index(bits(2.0), 2), None);
    assert_eq!(number::to_index(bits(7.0), 100), Some(7));
    assert_eq!(number::to_index(bits(1.5), 100), None);
    assert_eq!(number::to_index(bits(0.999), 100), None);
    assert_eq!(number::to_index(bits(-1.0), 100), None);
    assert_eq!(number::to_index(bits(5e-324), 100), None);
    assert_eq!(number::to_index(bits(f64::NAN), 100), None);
    assert_eq!(number::to_index(bits(f64::INFINITY), usize::MAX), None);
    assert_eq!(number::to_index(bits(1e300), usize::MAX), None);
    assert_eq!(
        number::to_index(bits(4503599627370496.0), usize::MAX),
        Some(4503599627370496)
    );
    assert_eq!(
        number::to_index(bits(9007199254740993.0), usize::MAX),
        Some(9007199254740992)
    );
    assert_eq!(
        number::to_index(bits(9223372036854775808.0), usize::MAX),
        Some(9223372036854775808)
    );
    assert_eq!(number::to_index(bits(18446744073709551616.0), usize::MAX), None);
    for i in 0..2000usize {
        assert_eq!(number::to_index(bits(i as f64), 2000), Some(i));
        assert_eq!(number::to_index(bits(i as f64 + 0.25), 3000), None);
    }
}

#[test]
fn coercions() {
    assert!(number(1.0).truthy());
    assert!(number(f64::NAN).truthy());
    assert!(!number(0.0).truthy());
    assert!(!number(-0.0).truthy());
    assert!(Value::Boolean(true).truthy());
    assert!(!Value::Boolean(false).truthy());
    assert!(text("a").truthy());
    assert!(!text("").truthy());
    assert!(Value::Hole(1).truthy());
    assert!(Value::Tuple(vec![Value::Null]).truthy());
    assert!(!Value::Tuple(vec![]).truthy());
    assert!(Value::Vector(vec![Value::Null]).truthy());
    assert!(!Value::Vector(vec![]).truthy());
    assert!(!Value::Null.truthy());
    assert!(!Value::Nothing.truthy());

    assert_eq!(number(2.5).to_number(), Ok(bits(2.5)));
    assert_eq!(Value::Boolean(true).to_number(), Ok(bits(1.0)));
    assert_eq!(Value::Boolean(false).to_number(), Ok(bits(0.0)));
    assert_eq!(text("1").to_number(), Err(RuntimeError::InvalidOperands));
    assert_eq!(Value::Null.to_number(), Err(RuntimeError::InvalidOperands));

    assert_eq!(Value::Boolean(true).get_boolean(), Ok(true));
    assert_eq!(Value::Boolean(false).get_boolean(), Ok(false));
    assert_eq!(number(1.0).get_boolean(), Err(RuntimeError::InvalidOperands));
}

#[test]
fn equality_of_values() {
    assert_eq!(
        number(1.0).equal(&number(2.0)),
        Ok(Equality::Difference(bits(1.0), bits(2.0)))
    );
    assert_eq!(Value::Boolean(true).equal(&Value::Boolean(true)), Ok(Equality::Decided(true)));
    assert_eq!(
        Value::Boolean(true).equal(&Value::Boolean(false)),
        Ok(Equality::Decided(false))
    );
    assert_eq!(number(1.0).equal(&Value::Boolean(true)), Err(RuntimeError::InvalidOperands));
    assert_eq!(text("a").equal(&text("a")), Err(RuntimeError::InvalidOperands));
    assert!(near(bits(0.0), false));
    assert!(!near(bits(0.0), true));
    assert!(near(bits(-1e-17), false));
    assert!(!near(bits(f64::EPSILON), false));
    assert!(near(bits(1.0), true));
    assert!(!near(bits(f64::NAN), false));
}

#[test]
fn decisions_of_the_operators() {
    assert_eq!(unary(&Token::Not, Value::Boolean(true)), Ok(Value::Boolean(false)));
    assert_eq!(unary(&Token::Minus, number(2.0)), Ok(number(-2.0)));
    assert_eq!(unary(&Token::Plus, number(2.0)), Ok(number(2.0)));
    assert_eq!(unary(&Token::Plus, Value::Null), Err(RuntimeError::InvalidOperands));
    assert_eq!(unary(&Token::Comma, number(2.0)), Err(RuntimeError::InvalidOperator));
    assert_eq!(unary(&Token::Comma, Value::Null), Err(RuntimeError::InvalidOperator));

    assert_eq!(
        arithmetic(&Token::Plus, &number(1.0), &number(2.0)),
        Ok((Operation::Add, bits(1.0), bits(2.0)))
    );
    assert_eq!(
        arithmetic(&Token::Minus, &number(1.0), &number(2.0)),
        Ok((Operation::Subtract, bits(1.0), bits(2.0)))
    );
    assert_eq!(
        arithmetic(&Token::Mul, &number(1.0), &number(2.0)),
        Ok((Operation::Multiply, bits(1.0), bits(2.0)))
    );
    assert_eq!(
        arithmetic(&Token::Div, &number(1.0), &number(2.0)),
        Ok((Operation::Divide, bits(1.0), bits(2.0)))
    );
    assert_eq!(
        arithmetic(&Token::Mod, &number(1.0), &number(2.0)),
        Ok((Operation::Remainder, bits(1.0), bits(2.0)))
    );
    assert_eq!(
        arithmetic(&Token::Div, &number(1.0), &number(-0.0)),
        Err(RuntimeError::DivisionByZero)
    );
    assert_eq!(
        arithmetic(&Token::Mod, &number(1.0), &number(0.0)),
        Err(RuntimeError::ModuloByZero)
    );
    assert_eq!(
        arithmetic(&Token::Less, &number(1.0), &number(0.0)),
        Err(RuntimeError::InvalidOperator)
    );
    assert_eq!(
        arithmetic(&Token::Less, &Value::Null, &number(0.0)),
        Err(RuntimeError::InvalidOperands)
    );

    assert_eq!(
        comparison(&Token::Equal, &number(1.0), &number(2.0)),
        Ok(Comparison::Near { left: bits(1.0), right: bits(2.0), negate: false })
    );
    assert_eq!(
        comparison(&Token::UnEqual, &number(1.0), &number(2.0)),
        Ok(Comparison::Near { left: bits(1.0), right: bits(2.0), negate: true })
    );
    assert_eq!(
        comparison(&Token::UnEqual, &Value::Boolean(true), &Value::Boolean(true)),
        Ok(Comparison::Decided(false))
    );
    assert_eq!(
        comparison(&Token::Greater, &number(2.0), &Value::Boolean(true)),
        Ok(Comparison::Decided(true))
    );
    assert_eq!(
        comparison(&Token::LessEqual, &number(f64::NAN), &number(f64::NAN)),
        Ok(Comparison::Decided(false))
    );
    assert_eq!(
        comparison(&Token::Plus, &number(2.0), &number(1.0)),
        Err(RuntimeError::InvalidOperator)
    );
    assert_eq!(
        comparison(&Token::Plus, &Value::Null, &number(1.0)),
        Err(RuntimeError::InvalidOperands)
    );

    let items = Value::Vector(vec![number(1.0), text("b")]);
    assert_eq!(element(&items, &number(1.0)), Ok(text("b")));
    assert_eq!(element(&items, &number(2.0)), Err(RuntimeError::IndexOutOfRange));
    assert_eq!(element(&text("abc"), &number(2.0)), Ok(text("c")));
    assert_eq!(element(&Value::Null, &number(0.0)), Err(RuntimeError::InvalidOperands));
}

#[test]
fn values_as_they_are_shown() {
    assert_eq!(render(&number(1.5).pieces()), "1.5");
    assert_eq!(number(1.5).pieces(), vec![Piece::Number(bits(1.5))]);
    assert_eq!(render(&Value::Boolean(true).pieces()), "true");
    assert_eq!(render(&Value::Boolean(false).pieces()), "false");
    assert_eq!(render(&text("héllo").pieces()), "héllo");
    assert_eq!(render(&Value::Null.pieces()), "Null");
    assert_eq!(render(&Value::Nothing.pieces()), "");
    assert_eq!(render(&Value::Hole(12).pieces()), "<Builtin Function (Hole12)>");
    assert_eq!(render(&Value::Hole(0).pieces()), "<Builtin Function (Hole0)>");
    assert_eq!(
        render(&Value::Hole(4294967295).pieces()),
        "<Builtin Function (Hole4294967295)>"
    );
    assert_eq!(render(&Value::Tuple(vec![]).pieces()), "()");
    assert_eq!(render(&Value::Vector(vec![number(1.0)]).pieces()), "[1]");
    assert_eq!(
        render(
            &Value::Tuple(vec![
                number(1.0),
                text("a"),
                Value::Vector(vec![Value::Boolean(true), Value::Null]),
            ])
            .pieces()
        ),
        "(1, a, [true, Null])"
    );
}

#[test]
fn values_copy_deeply() {
    let value = Value::Tuple(vec![
        number(1.0),
        text("a"),
        Value::Vector(vec![Value::Boolean(true), Value::Hole(3), Value::Nothing]),
    ]);
    assert_eq!(value.clone(), value);
}

#[test]
fn formats_and_their_arguments() {
    let arguments = vec![text("skipped"), number(1.0), text("two")];
    assert_eq!(
        format_string("{} and {}!", &arguments, 1).map(|p| render(&p)),
        Ok("1 and two!".to_string())
    );
    assert_eq!(
        format_string("{}{}{}", &arguments, 0).map(|p| render(&p)),
        Ok("skipped1two".to_string())
    );
    assert_eq!(
        format_string("{ } {x} {", &arguments, 3).map(|p| render(&p)),
        Ok("{ } {x} {".to_string())
    );
    assert_eq!(
        format_string("{{}}", &arguments, 2).map(|p| render(&p)),
        Ok("{two}".to_string())
    );
    assert_eq!(format_string("", &arguments, 3), Ok(vec![]));
    assert_eq!(format_string("{}", &arguments, 3), Err(FormatError::NotEnoughArguments));
    assert_eq!(format_string("{} {}", &arguments, 2), Err(FormatError::NotEnoughArguments));
    assert_eq!(format_string("{}", &arguments, 1), Err(FormatError::TooManyArguments));
    assert_eq!(format_string("no holes", &arguments, 2), Err(FormatError::TooManyArguments));
}

#[test]
fn the_builtins() {
    assert_eq!(TIMESTAMP, 1);
    assert_eq!(PRINTF, 12);
    let at = bits(1700000000.0);
    let output = hole_func(1, vec![], at).unwrap();
    assert_eq!(output.value, Value::Number(at));
    assert_eq!(output.printed, vec![]);
    let output = hole_func(1, vec![number(1.0)], at).unwrap();
    assert_eq!(output.value, Value::Number(at));

    let output = hole_func(12, vec![text("x = {}\n"), number(2.0)], at).unwrap();
    assert_eq!(output.value, Value::Nothing);
    assert_eq!(render(&output.printed), "x = 2\n");

    assert_eq!(hole_func(12, vec![], at).err(), Some(BuiltinError::NoFormat));
    assert_eq!(hole_func(12, vec![number(1.0)], at).err(), Some(BuiltinError::NoFormat));
    assert_eq!(
        hole_func(12, vec![text("{}")], at).err(),
        Some(BuiltinError::Format(FormatError::NotEnoughArguments))
    );
    assert_eq!(
        hole_func(12, vec![text(""), Value::Null], at).err(),
        Some(BuiltinError::Format(FormatError::TooManyArguments))
    );
    assert_eq!(hole_func(7, vec![], at).err(), Some(BuiltinError::Unknown(7)));
    assert_eq!(BuiltinError::Unknown(7).message(), "No hole func");
}

#[test]
fn an_environment_of_one_frame() {
    let mut env = Environment::new();
    assert_eq!(env.current(), 0);
    assert_eq!(env.len(), 1);
    assert_eq!(env.get("x"), Err(RuntimeError::UndefinedVariable("x".to_string())));
    assert_eq!(
        env.set("x".to_string(), Value::Null),
        Err(RuntimeError::Undeclared("x".to_string()))
    );
    assert_eq!(env.define("x".to_string(), number(1.0)), Ok(()));
    assert_eq!(env.get("x"), Ok(number(1.0)));
    assert_eq!(
        env.define("x".to_string(), number(2.0)),
        Err(RuntimeError::Redefinition("x".to_string()))
    );
    assert_eq!(env.get("x"), Ok(number(1.0)));
    assert_eq!(env.set("x".to_string(), number(3.0)), Ok(()));
    assert_eq!(env.get("x"), Ok(number(3.0)));
    env.bind("x".to_string(), text("bound"));
    assert_eq!(env.get("x"), Ok(text("bound")));
    env.bind("y".to_string(), Value::Null);
    assert_eq!(env.get("y"), Ok(Value::Null));
}

#[test]
fn frames_chain_to_their_parents() {
    let mut env = Environment::new();
    env.define("x".to_string(), number(1.0)).unwrap();
    env.define("y".to_string(), number(2.0)).unwrap();
    let child = env.child_of(0).unwrap();
    assert_eq!(child, 1);
    assert_eq!(env.len(), 2);
    assert_eq!(env.current(), 0);
    assert!(env.enter(child));
    assert_eq!(env.current(), 1);

    assert_eq!(env.get("x"), Ok(number(1.0)));
    assert_eq!(env.define("x".to_string(), number(10.0)), Ok(()));
    assert_eq!(env.get("x"), Ok(number(10.0)));
    assert_eq!(env.set("y".to_string(), number(20.0)), Ok(()));
    assert_eq!(env.set("x".to_string(), number(11.0)), Ok(()));
    assert_eq!(env.get("x"), Ok(number(11.0)));

    assert!(env.enter(0));
    assert_eq!(env.get("x"), Ok(number(1.0)));
    assert_eq!(env.get("y"), Ok(number(20.0)));

    assert_eq!(env.child_of(5), None);
    assert_eq!(env.len(), 2);
    assert!(!env.enter(2));
    assert_eq!(env.current(), 0);
}

#[test]
fn a_frame_that_is_left_is_dropped_unless_something_holds_it() {
    let mut env = Environment::new();
    env.leave();
    assert_eq!((env.current(), env.len()), (0, 1));

    let a = env.child_of(0).unwrap();
    assert!(env.enter(a));
    env.define("x".to_string(), number(1.0)).unwrap();
    env.leave();
    assert_eq!((env.current(), env.len()), (0, 1));
    assert_eq!(env.get("x"), Err(RuntimeError::UndefinedVariable("x".to_string())));

    let a = env.child_of(0).unwrap();
    assert!(env.enter(a));
    env.capture();
    env.define("x".to_string(), number(1.0)).unwrap();
    env.leave();
    assert_eq!((env.current(), env.len()), (0, 2));
    assert!(env.enter(a));
    assert_eq!(env.get("x"), Ok(number(1.0)));
    assert!(env.enter(0));

    let b = env.child_of(a).unwrap();
    assert!(env.enter(b));
    assert_eq!(env.get("x"), Ok(number(1.0)));
    let c = env.child_of(b).unwrap();
    assert!(env.enter(c));
    assert_eq!(env.len(), 4);
    assert!(env.enter(b));
    env.leave();
    assert_eq!((env.current(), env.len()), (0, 4));
    assert!(env.enter(c));
    env.leave();
    assert_eq!((env.current(), env.len()), (b, 3));
    env.leave();
    assert_eq!((env.current(), env.len()), (0, 2));
}

#[test]
fn a_reset_goes_back_to_the_root() {
    let mut env = Environment::new();
    env.define("x".to_string(), number(1.0)).unwrap();
    let a = env.child_of(0).unwrap();
    assert!(env.enter(a));
    env.capture();
    let b = env.child_of(a).unwrap();
    assert!(env.enter(b));
    let c = env.child_of(b).unwrap();
    assert!(env.enter(c));
    assert_eq!((env.current(), env.len()), (3, 4));
    env.reset();
    assert_eq!((env.current(), env.len()), (0, 2));
    assert_eq!(env.get("x"), Ok(number(1.0)));
    env.reset();
    assert_eq!((env.current(), env.len()), (0, 2));
    let mut env = Environment::new();
    env.reset();
    assert_eq!((env.current(), env.len()), (0, 1));
}

#[test]
fn an_assignment_is_seen_through_every_chain() {
    let mut env = Environment::new();
    env.define("n".to_string(), number(0.0)).unwrap();
    let left = env.child_of(0).unwrap();
    let right = env.child_of(0).unwrap();
    let deep = env.child_of(left).unwrap();
    assert!(env.enter(deep));
    env.set("n".to_string(), number(1.0)).unwrap();
    for frame in [0, left, right, deep] {
        assert!(env.enter(frame));
        assert_eq!(env.get("n"), Ok(number(1.0)));
    }
    assert!(env.enter(left));
    env.define("n".to_string(), number(5.0)).unwrap();
    assert!(env.enter(deep));
    assert_eq!(env.get("n"), Ok(number(5.0)));
    assert!(env.enter(right));
    assert_eq!(env.get("n"), Ok(number(1.0)));
}

#[test]
fn initialization_binds_timestamp_and_printf() {
    let mut env = Environment::new();
    assert_eq!(initialization(&mut env), Ok(()));
    assert_eq!(env.get("timestamp"), Ok(Value::Hole(1)));
    assert_eq!(env.get("printf"), Ok(Value::Hole(12)));
    assert_eq!(
        initialization(&mut env),
        Err(RuntimeError::Redefinition("timestamp".to_string()))
    );
    let mut env = Environment::new();
    env.define("printf".to_string(), Value::Null).unwrap();
    assert_eq!(
        initialization(&mut env),
        Err(RuntimeError::Redefinition("printf".to_string()))
    );
    assert_eq!(env.get("timestamp"), Ok(Value::Hole(1)));
    assert_eq!(env.get("printf"), Ok(Value::Null));
}

#[test]
fn literal_tokens_have_values() {
    assert_eq!(Token::True.to_value(), Some(Value::Boolean(true)));
    assert_eq!(Token::False.to_value(), Some(Value::Boolean(false)));
    assert_eq!(Token::Null.to_value(), Some(Value::Null));
    assert_eq!(Token::String("s".to_string()).to_value(), Some(text("s")));
    assert_eq!(Token::Float("1".to_string()).to_value(), None);
    assert_eq!(Token::Plus.to_value(), None);
    assert_eq!(Token::Identifier("a".to_string()).to_value(), None);
}
