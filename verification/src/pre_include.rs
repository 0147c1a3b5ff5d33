//! The builtins that the host provides, and how their results are laid out.

use vstd::prelude::*;
use vstd::string::StringExecFns;
use crate::environment::{Environment, EnvironmentView};
use crate::error::{RuntimeError, RuntimeErrorView};
use crate::text::{char_at, chars_of};
use crate::value::{values_of, Piece, Value, ValueView};

verus! {

/// The id of the builtin that gives the time.
pub const TIMESTAMP: u32 = 1;

/// The id of the builtin that prints.
pub const PRINTF: u32 = 12;

/// The environment with `timestamp` and `printf` bound in its current frame,
/// in this order, and the error at the first of them that is bound there
/// already.
pub open spec fn builtins(environment: EnvironmentView) -> (
    EnvironmentView,
    Option<RuntimeErrorView>,
) {
    match environment.define("timestamp"@, ValueView::Hole(TIMESTAMP)) {
        None => (environment, Some(RuntimeErrorView::Redefinition("timestamp"@))),
        Some(first) => match first.define("printf"@, ValueView::Hole(PRINTF)) {
            None => (first, Some(RuntimeErrorView::Redefinition("printf"@))),
            Some(second) => (second, None),
        },
    }
}

/// Binds the names of the builtins in the current frame.
pub fn initialization(env: &mut Environment) -> (r: Result<(), RuntimeError>)
    requires
        old(env)@.wf(),
    ensures
        final(env)@.wf(),
        final(env)@.frames.len() == old(env)@.frames.len(),
        final(env)@ == builtins(old(env)@).0,
        match r {
            Ok(()) => builtins(old(env)@).1.is_none(),
            Err(e) => builtins(old(env)@).1 == Some(e@),
        },
{
    match env.define(String::from_str("timestamp"), Value::Hole(TIMESTAMP)) {
        Err(e) => Err(e),
        Ok(()) => env.define(String::from_str("printf"), Value::Hole(PRINTF)),
    }
}

/// What a format string and its arguments print: the characters of the
/// format from position `i` on, with each `{}` replaced by the next unused
/// argument as it is shown. Running out of arguments is an error.
pub open spec fn formatted(format: Seq<char>, i: nat, arguments: Seq<ValueView>, used: nat) -> Result<
    (Seq<Piece>, nat),
    FormatError,
>
    decreases format.len() - i,
{
    if i >= format.len() {
        Ok((Seq::empty(), used))
    } else if format[i as int] == '{' && i + 1 < format.len() && format[i as int + 1] == '}' {
        if used < arguments.len() {
            match formatted(format, i + 2, arguments, used + 1) {
                Ok((rest, total)) => Ok((arguments[used as int].shown() + rest, total)),
                Err(e) => Err(e),
            }
        } else {
            Err(FormatError::NotEnoughArguments)
        }
    } else {
        match formatted(format, i + 1, arguments, used) {
            Ok((rest, total)) => Ok((seq![Piece::Char(format[i as int])] + rest, total)),
            Err(e) => Err(e),
        }
    }
}

/// What `printf` prints for a format and arguments. Every argument must be
/// used by a `{}`.
pub open spec fn printed(format: Seq<char>, arguments: Seq<ValueView>) -> Result<
    Seq<Piece>,
    FormatError,
> {
    match formatted(format, 0, arguments, 0) {
        Err(e) => Err(e),
        Ok((pieces, used)) => if used < arguments.len() {
            Err(FormatError::TooManyArguments)
        } else {
            Ok(pieces)
        },
    }
}

/// The ways in which a format and its arguments do not fit.
#[derive(Debug, PartialEq, Eq, Clone, Copy, Structural)]
pub enum FormatError {
    NotEnoughArguments,
    TooManyArguments,
}

/// Lays out a format string with its arguments. `arguments[from..]` are the
/// arguments.
pub fn format_string(format: &str, arguments: &Vec<Value>, from: usize) -> (r: Result<
    Vec<Piece>,
    FormatError,
>)
    requires
        from <= arguments.len(),
    ensures
        match r {
            Ok(pieces) => printed(
                format@,
                values_of(arguments@).subrange(from as int, arguments.len() as int),
            ) == Ok::<Seq<Piece>, FormatError>(pieces@),
            Err(e) => printed(
                format@,
                values_of(arguments@).subrange(from as int, arguments.len() as int),
            ) == Err::<Seq<Piece>, FormatError>(e),
        },
{
    let chars = chars_of(format);
    let ghost rest = values_of(arguments@).subrange(
        from as int,
        arguments.len() as int,
    );
    let mut out: Vec<Piece> = Vec::new();
    let mut used: usize = from;
    let mut i: usize = 0;
    while i < chars.len()
        invariant
            i <= chars.len(),
            chars@ == format@,
            from <= used <= arguments.len(),
            rest == values_of(arguments@).subrange(
                from as int,
                arguments.len() as int,
            ),
            formatted(format@, 0, rest, 0) == joined(
                out@,
                formatted(format@, i as nat, rest, (used - from) as nat),
            ),
        decreases chars.len() - i,
    {
        let c = char_at(&chars, i);
        if c == '{' && i + 1 < chars.len() && chars[i + 1] == '}' {
            if used < arguments.len() {
                let ghost before = out@;
                let mut shown = arguments[used].pieces();
                assert(shown@ == rest[used - from].shown());
                out.append(&mut shown);
                proof {
                    match formatted(format@, (i + 2) as nat, rest, (used - from + 1) as nat) {
                        Ok((tail, _)) => {
                            assert(before + (rest[used - from].shown() + tail) =~= (before
                                + rest[used - from].shown()) + tail);
                        },
                        Err(_) => {},
                    }
                }
                used = used + 1;
                i = i + 2;
            } else {
                return Err(FormatError::NotEnoughArguments);
            }
        } else {
            let ghost before = out@;
            out.push(Piece::Char(c));
            proof {
                match formatted(format@, (i + 1) as nat, rest, (used - from) as nat) {
                    Ok((tail, _)) => {
                        assert(before + (seq![Piece::Char(c)] + tail) =~= before.push(
                            Piece::Char(c),
                        ) + tail);
                    },
                    Err(_) => {},
                }
            }
            i = i + 1;
        }
    }
    assert(out@ + Seq::<Piece>::empty() =~= out@);
    if used < arguments.len() {
        Err(FormatError::TooManyArguments)
    } else {
        Ok(out)
    }
}

/// A layout behind pieces that were laid out before.
pub open spec fn joined(before: Seq<Piece>, rest: Result<(Seq<Piece>, nat), FormatError>) -> Result<
    (Seq<Piece>, nat),
    FormatError,
> {
    match rest {
        Ok((pieces, used)) => Ok((before + pieces, used)),
        Err(e) => Err(e),
    }
}

/// What a builtin gives: its value, and what it prints.
pub struct Output {
    pub value: Value,
    pub printed: Vec<Piece>,
}

/// What the builtin with an id gives on arguments, `now` being the time in
/// seconds since the epoch, as a double. `timestamp` gives the time and
/// prints nothing. `printf` wants a string first, lays it out with the other
/// arguments, and gives `Nothing`.
pub open spec fn builtin_result(id: u32, arguments: Seq<ValueView>, now: u64) -> Result<
    (ValueView, Seq<Piece>),
    BuiltinError,
> {
    if id == TIMESTAMP {
        Ok((ValueView::Number(now), Seq::empty()))
    } else if id == PRINTF {
        if arguments.len() == 0 {
            Err(BuiltinError::NoFormat)
        } else {
            match arguments[0] {
                ValueView::String(format) => match printed(
                    format,
                    arguments.subrange(1, arguments.len() as int),
                ) {
                    Ok(pieces) => Ok((ValueView::Nothing, pieces)),
                    Err(e) => Err(BuiltinError::Format(e)),
                },
                _ => Err(BuiltinError::NoFormat),
            }
        }
    } else {
        Err(BuiltinError::Unknown(id))
    }
}

/// The ways in which a builtin fails.
#[derive(Debug, PartialEq, Eq, Clone, Copy, Structural)]
pub enum BuiltinError {
    /// No builtin has this id.
    Unknown(u32),
    /// The first argument of `printf` is missing or no string.
    NoFormat,
    /// The format and its arguments do not fit.
    Format(FormatError),
}

impl BuiltinError {
    /// The words for the failure.
    pub fn message(&self) -> (r: String)
        ensures
            r@ == self.text(),
    {
        match self {
            BuiltinError::Unknown(_) => String::from_str("No hole func"),
            BuiltinError::NoFormat => String::from_str("The first argument must be a string"),
            BuiltinError::Format(FormatError::NotEnoughArguments) => String::from_str(
                "Not enough arguments for format string",
            ),
            BuiltinError::Format(FormatError::TooManyArguments) => String::from_str(
                "Too many arguments for format string",
            ),
        }
    }

    pub open spec fn text(self) -> Seq<char> {
        match self {
            BuiltinError::Unknown(_) => "No hole func"@,
            BuiltinError::NoFormat => "The first argument must be a string"@,
            BuiltinError::Format(FormatError::NotEnoughArguments) => "Not enough arguments for format string"@,
            BuiltinError::Format(FormatError::TooManyArguments) => "Too many arguments for format string"@,
        }
    }
}

/// Runs the builtin with an id on arguments. What it prints is handed back,
/// not printed.
pub fn hole_func(id: u32, args: Vec<Value>, now: u64) -> (r: Result<Output, BuiltinError>)
    ensures
        match r {
            Ok(output) => builtin_result(id, values_of(args@), now) == Ok::<
                (ValueView, Seq<Piece>),
                BuiltinError,
            >((output.value@, output.printed@)),
            Err(e) => builtin_result(id, values_of(args@), now) == Err::<
                (ValueView, Seq<Piece>),
                BuiltinError,
            >(e),
        },
{
    if id == TIMESTAMP {
        Ok(Output { value: Value::Number(now), printed: Vec::new() })
    } else if id == PRINTF {
        if args.len() == 0 {
            return Err(BuiltinError::NoFormat);
        }
        match &args[0] {
            Value::String(format) => match format_string(format.as_str(), &args, 1) {
                Ok(pieces) => Ok(Output { value: Value::Nothing, printed: pieces }),
                Err(e) => Err(BuiltinError::Format(e)),
            },
            _ => Err(BuiltinError::NoFormat),
        }
    } else {
        Err(BuiltinError::Unknown(id))
    }
}

} // verus!
