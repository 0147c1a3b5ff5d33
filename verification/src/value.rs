//! The data that a program computes with.

use vstd::prelude::*;
use crate::ast_node::{ASTNode, NodeView};
use crate::error::RuntimeError;
use crate::number;
use crate::text::{clone_names, names_of};

verus! {

/// A runtime value.
#[derive(Debug, PartialEq)]
pub enum Value {
    /// A double, as its IEEE 754 bit pattern.
    Number(u64),
    Boolean(bool),
    String(String),
    /// A closure: the function literal together with the frame that was
    /// current where the literal was evaluated.
    Function { params: Vec<String>, body: Box<ASTNode>, closure: usize },
    /// A handle to a builtin that the host provides.
    Hole(u32),
    Tuple(Vec<Value>),
    Vector(Vec<Value>),
    Null,
    /// The result of a builtin that has nothing to show.
    Nothing,
}

/// A value as a mathematical value.
pub enum ValueView {
    Number(u64),
    Boolean(bool),
    String(Seq<char>),
    Function { params: Seq<Seq<char>>, body: Box<NodeView>, closure: nat },
    Hole(u32),
    Tuple(Seq<ValueView>),
    Vector(Seq<ValueView>),
    Null,
    Nothing,
}

/// The views of a list of values, in order.
pub open spec fn values_of(items: Seq<Value>) -> Seq<ValueView>
    decreases items,
{
    Seq::new(
        items.len(),
        |i: int|
            if 0 <= i < items.len() {
                items[i].model()
            } else {
                ValueView::Null
            },
    )
}

impl Value {
    pub open spec fn model(&self) -> ValueView
        decreases self,
    {
        match self {
            Value::Number(bits) => ValueView::Number(*bits),
            Value::Boolean(b) => ValueView::Boolean(*b),
            Value::String(s) => ValueView::String(s@),
            Value::Function { params, body, closure } => ValueView::Function {
                params: names_of(params@),
                body: Box::new(body.model()),
                closure: *closure as nat,
            },
            Value::Hole(id) => ValueView::Hole(*id),
            Value::Tuple(items) => ValueView::Tuple(values_of(items@)),
            Value::Vector(items) => ValueView::Vector(values_of(items@)),
            Value::Null => ValueView::Null,
            Value::Nothing => ValueView::Nothing,
        }
    }
}

impl View for Value {
    type V = ValueView;

    open spec fn view(&self) -> ValueView {
        self.model()
    }
}

/// A copy of a list of values.
pub fn clone_values(items: &Vec<Value>) -> (r: Vec<Value>)
    ensures
        values_of(r@) == values_of(items@),
    decreases items,
{
    let mut out: Vec<Value> = Vec::new();
    let mut i: usize = 0;
    while i < items.len()
        invariant
            i <= items.len(),
            out.len() == i,
            forall|j: int| 0 <= j < i ==> out[j]@ == items[j]@,
        decreases items.len() - i,
    {
        out.push(items[i].clone());
        i = i + 1;
    }
    assert(values_of(out@) =~= values_of(items@));
    out
}

impl Clone for Value {
    fn clone(&self) -> (r: Value)
        ensures
            r@ == self@,
        decreases self,
    {
        match self {
            Value::Number(bits) => Value::Number(*bits),
            Value::Boolean(b) => Value::Boolean(*b),
            Value::String(s) => Value::String(s.clone()),
            Value::Function { params, body, closure } => Value::Function {
                params: clone_names(params),
                body: Box::new((**body).clone()),
                closure: *closure,
            },
            Value::Hole(id) => Value::Hole(*id),
            Value::Tuple(items) => Value::Tuple(clone_values(items)),
            Value::Vector(items) => Value::Vector(clone_values(items)),
            Value::Null => Value::Null,
            Value::Nothing => Value::Nothing,
        }
    }
}

/// What comparing two values for equality comes to.
#[derive(Debug, PartialEq, Eq, Clone, Copy, Structural)]
pub enum Equality {
    /// Two booleans: whether they are the same.
    Decided(bool),
    /// Two numbers: they count as equal when the difference of these two
    /// doubles is smaller in magnitude than `number::EPSILON`.
    Difference(u64, u64),
}

impl ValueView {
    /// The boolean that a value coerces to: a number is true unless it is a
    /// zero, a string, tuple or vector unless it is empty; functions and
    /// builtins are true; `Null` and `Nothing` are false.
    pub open spec fn truthy(self) -> bool {
        match self {
            ValueView::Number(bits) => !number::is_zero(bits),
            ValueView::Boolean(b) => b,
            ValueView::String(s) => s.len() > 0,
            ValueView::Function { .. } => true,
            ValueView::Hole(_) => true,
            ValueView::Tuple(items) => items.len() > 0,
            ValueView::Vector(items) => items.len() > 0,
            ValueView::Null => false,
            ValueView::Nothing => false,
        }
    }

    /// The double that a value coerces to, for the ordering comparisons.
    pub open spec fn number(self) -> Option<u64> {
        match self {
            ValueView::Number(bits) => Some(bits),
            ValueView::Boolean(b) => Some(number::of_bool(b)),
            _ => None,
        }
    }

    /// Equality is defined between two numbers and between two booleans.
    pub open spec fn equality(self, other: ValueView) -> Option<Equality> {
        match (self, other) {
            (ValueView::Number(a), ValueView::Number(b)) => Some(Equality::Difference(a, b)),
            (ValueView::Boolean(a), ValueView::Boolean(b)) => Some(Equality::Decided(a == b)),
            _ => None,
        }
    }
}

impl Value {
    /// Compares with another value for equality, as far as the types allow.
    pub fn equal(&self, other: &Value) -> (r: Result<Equality, RuntimeError>)
        ensures
            match r {
                Ok(e) => self@.equality(other@) == Some(e),
                Err(e) => self@.equality(other@).is_none() && e@
                    == crate::error::RuntimeErrorView::InvalidOperands,
            },
    {
        match self {
            Value::Number(a) => match other {
                Value::Number(b) => Ok(Equality::Difference(*a, *b)),
                _ => Err(RuntimeError::InvalidOperands),
            },
            Value::Boolean(a) => match other {
                Value::Boolean(b) => Ok(Equality::Decided(*a == *b)),
                _ => Err(RuntimeError::InvalidOperands),
            },
            _ => Err(RuntimeError::InvalidOperands),
        }
    }

    /// The double that the value coerces to.
    pub fn to_number(&self) -> (r: Result<u64, RuntimeError>)
        ensures
            match r {
                Ok(bits) => self@.number() == Some(bits),
                Err(e) => self@.number().is_none() && e@
                    == crate::error::RuntimeErrorView::InvalidOperands,
            },
    {
        match self {
            Value::Number(bits) => Ok(*bits),
            Value::Boolean(b) => Ok(number::from_bool(*b)),
            _ => Err(RuntimeError::InvalidOperands),
        }
    }

    /// The boolean that the value is, if it is one.
    pub fn get_boolean(&self) -> (r: Result<bool, RuntimeError>)
        ensures
            match r {
                Ok(b) => self@ == ValueView::Boolean(b),
                Err(e) => !(self@ is Boolean) && e@
                    == crate::error::RuntimeErrorView::InvalidOperands,
            },
    {
        match self {
            Value::Boolean(b) => Ok(*b),
            _ => Err(RuntimeError::InvalidOperands),
        }
    }

    /// The boolean that the value coerces to.
    pub fn truthy(&self) -> (r: bool)
        ensures
            r == self@.truthy(),
    {
        match self {
            Value::Number(bits) => !number::zero(*bits),
            Value::Boolean(b) => *b,
            Value::String(s) => !s.as_str().is_empty(),
            Value::Function { .. } => true,
            Value::Hole(_) => true,
            Value::Tuple(items) => items.len() > 0,
            Value::Vector(items) => items.len() > 0,
            Value::Null => false,
            Value::Nothing => false,
        }
    }
}

/// A piece of what a value shows as: a character, or a double, which the
/// host writes out.
#[derive(Debug, PartialEq, Eq, Clone, Copy, Structural)]
pub enum Piece {
    Char(char),
    Number(u64),
}

/// The characters of a text as pieces.
pub open spec fn letters(text: Seq<char>) -> Seq<Piece>
    decreases text.len(),
{
    if text.len() == 0 {
        Seq::empty()
    } else {
        letters(text.drop_last()).push(Piece::Char(text.last()))
    }
}

/// The decimal digits of a number, without leading zeros.
pub open spec fn digits(n: nat) -> Seq<char>
    decreases n,
{
    if n < 10 {
        seq![digit(n)]
    } else {
        digits(n / 10).push(digit(n % 10))
    }
}

/// The character of a decimal digit.
pub open spec fn digit(d: nat) -> char {
    if d == 0 {
        '0'
    } else if d == 1 {
        '1'
    } else if d == 2 {
        '2'
    } else if d == 3 {
        '3'
    } else if d == 4 {
        '4'
    } else if d == 5 {
        '5'
    } else if d == 6 {
        '6'
    } else if d == 7 {
        '7'
    } else if d == 8 {
        '8'
    } else {
        '9'
    }
}

/// The items of a tuple or vector as they are shown, from the first: one
/// after the other, with a comma and a blank between them.
pub open spec fn shown_items(items: Seq<ValueView>) -> Seq<Piece>
    decreases items,
{
    if items.len() == 0 {
        Seq::empty()
    } else if items.len() == 1 {
        items[0].shown()
    } else {
        items[0].shown() + letters(", "@) + shown_items(items.subrange(1, items.len() as int))
    }
}

impl ValueView {
    /// The value as it is shown to the user.
    pub open spec fn shown(self) -> Seq<Piece>
        decreases self,
    {
        match self {
            ValueView::Number(bits) => seq![Piece::Number(bits)],
            ValueView::Boolean(b) => if b {
                letters("true"@)
            } else {
                letters("false"@)
            },
            ValueView::String(s) => letters(s),
            ValueView::Tuple(items) => letters("("@) + shown_items(items) + letters(")"@),
            ValueView::Vector(items) => letters("["@) + shown_items(items) + letters("]"@),
            ValueView::Function { .. } => letters("Function"@),
            ValueView::Hole(id) => letters("<Builtin Function (Hole"@) + letters(
                digits(id as nat),
            ) + letters(")>"@),
            ValueView::Null => letters("Null"@),
            ValueView::Nothing => Seq::empty(),
        }
    }
}

/// The pieces of a text with one more character.
proof fn letters_push(text: Seq<char>, c: char)
    ensures
        letters(text.push(c)) == letters(text).push(Piece::Char(c)),
        letters(seq![c]) == seq![Piece::Char(c)],
{
    assert(text.push(c).drop_last() =~= text);
    assert(seq![c].drop_last() =~= Seq::<char>::empty());
    assert(letters(Seq::<char>::empty()) =~= Seq::<Piece>::empty());
    assert(letters(seq![c]) =~= seq![Piece::Char(c)]);
}

/// Pieces put together in two ways.
proof fn pieces_regroup(a: Seq<Piece>, b: Seq<Piece>, c: Seq<Piece>, p: Piece)
    ensures
        a + (b + c) == (a + b) + c,
        (a + b).push(p) == a + b.push(p),
        a + Seq::<Piece>::empty() == a,
        Seq::<Piece>::empty() + a == a,
        a + seq![p] == a.push(p),
{
    assert(a + (b + c) =~= (a + b) + c);
    assert((a + b).push(p) =~= a + b.push(p));
    assert(a + Seq::<Piece>::empty() =~= a);
    assert(Seq::<Piece>::empty() + a =~= a);
    assert(a + seq![p] =~= a.push(p));
}

/// Adds the characters of a text to pieces.
fn put(out: &mut Vec<Piece>, text: &str)
    ensures
        final(out)@ == old(out)@ + letters(text@),
{
    let chars = crate::text::chars_of(text);
    let ghost before = out@;
    let mut i: usize = 0;
    proof {
        assert(text@.subrange(0, 0) =~= Seq::<char>::empty());
        pieces_regroup(before, before, before, Piece::Char(' '));
    }
    while i < chars.len()
        invariant
            i <= chars.len(),
            chars@ == text@,
            out@ == before + letters(text@.subrange(0, i as int)),
        decreases chars.len() - i,
    {
        let c = crate::text::char_at(&chars, i);
        out.push(Piece::Char(c));
        proof {
            let head = text@.subrange(0, i as int);
            assert(text@.subrange(0, i + 1) =~= head.push(c));
            letters_push(head, c);
            pieces_regroup(before, letters(head), before, Piece::Char(c));
        }
        i = i + 1;
    }
    assert(text@.subrange(0, chars.len() as int) =~= text@);
}

/// Adds the decimal digits of a number to pieces.
fn put_number(out: &mut Vec<Piece>, n: u32)
    ensures
        final(out)@ == old(out)@ + letters(digits(n as nat)),
    decreases n,
{
    let ghost before = out@;
    if n >= 10 {
        put_number(out, n / 10);
    }
    let d = n % 10;
    let c = if d == 0 {
        '0'
    } else if d == 1 {
        '1'
    } else if d == 2 {
        '2'
    } else if d == 3 {
        '3'
    } else if d == 4 {
        '4'
    } else if d == 5 {
        '5'
    } else if d == 6 {
        '6'
    } else if d == 7 {
        '7'
    } else if d == 8 {
        '8'
    } else {
        '9'
    };
    assert(c == digit((n % 10) as nat));
    out.push(Piece::Char(c));
    proof {
        if n >= 10 {
            letters_push(digits((n / 10) as nat), c);
            pieces_regroup(before, letters(digits((n / 10) as nat)), before, Piece::Char(c));
        } else {
            letters_push(Seq::empty(), c);
            pieces_regroup(before, before, before, Piece::Char(c));
        }
    }
}

/// Adds the items of a tuple or vector, as they are shown, to pieces.
fn put_items(out: &mut Vec<Piece>, items: &Vec<Value>)
    ensures
        final(out)@ == old(out)@ + shown_items(values_of(items@)),
    decreases items,
{
    let ghost all = values_of(items@);
    let mut i: usize = 0;
    assert(all.subrange(0, all.len() as int) =~= all);
    while i < items.len()
        invariant
            i <= items.len(),
            all == values_of(items@),
            out@ + shown_items(all.subrange(i as int, all.len() as int)) == old(out)@
                + shown_items(all),
        decreases items.len() - i,
    {
        let ghost before = out@;
        let ghost rest = all.subrange(i as int, all.len() as int);
        assert(rest[0] == items[i as int]@);
        items[i].put(out);
        if i + 1 < items.len() {
            put(out, ", ");
            assert(rest.subrange(1, rest.len() as int) =~= all.subrange(
                i + 1,
                all.len() as int,
            ));
            assert(before + (rest[0].shown() + letters(", "@) + shown_items(
                rest.subrange(1, rest.len() as int),
            )) =~= (before + rest[0].shown() + letters(", "@)) + shown_items(
                rest.subrange(1, rest.len() as int),
            ));
        } else {
            assert(all.subrange(i + 1, all.len() as int) =~= Seq::<ValueView>::empty());
            assert(before + rest[0].shown() + Seq::<Piece>::empty() =~= before + rest[0].shown());
        }
        i = i + 1;
    }
    assert(all.subrange(all.len() as int, all.len() as int) =~= Seq::<ValueView>::empty());
    assert(out@ + Seq::<Piece>::empty() =~= out@);
}

impl Value {
    /// Adds the value, as it is shown, to pieces.
    fn put(&self, out: &mut Vec<Piece>)
        ensures
            final(out)@ == old(out)@ + self@.shown(),
        decreases self,
    {
        match self {
            Value::Number(bits) => {
                out.push(Piece::Number(*bits));
                assert(out@ =~= old(out)@ + self@.shown());
            },
            Value::Boolean(b) => if *b {
                put(out, "true");
            } else {
                put(out, "false");
            },
            Value::String(s) => put(out, s.as_str()),
            Value::Tuple(items) => {
                put(out, "(");
                put_items(out, items);
                put(out, ")");
                assert(out@ =~= old(out)@ + self@.shown());
            },
            Value::Vector(items) => {
                put(out, "[");
                put_items(out, items);
                put(out, "]");
                assert(out@ =~= old(out)@ + self@.shown());
            },
            Value::Function { .. } => put(out, "Function"),
            Value::Hole(id) => {
                put(out, "<Builtin Function (Hole");
                put_number(out, *id);
                put(out, ")>");
                assert(out@ =~= old(out)@ + self@.shown());
            },
            Value::Null => put(out, "Null"),
            Value::Nothing => {
                assert(out@ =~= old(out)@ + self@.shown());
            },
        }
    }

    /// The value as it is shown to the user: characters, and doubles for the
    /// host to write out.
    pub fn pieces(&self) -> (r: Vec<Piece>)
        ensures
            r@ == self@.shown(),
    {
        let mut out: Vec<Piece> = Vec::new();
        self.put(&mut out);
        assert(Seq::<Piece>::empty() + self@.shown() =~= self@.shown());
        out
    }
}

} // verus!
