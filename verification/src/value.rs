//! Values and the operations the machine performs on them by itself.
//!
//! A number is held as the bit pattern of an IEEE-754 binary64 value. What can
//! be said of such a pattern with integers alone is said here: which patterns
//! are NaN, when two of them compare equal, and what negation does. The
//! arithmetic proper is named by [`ArithOp`] and left to the host.

use vstd::prelude::*;
use vstd::std_specs::cmp::PartialEqSpecImpl;
use crate::error::Fault;

verus! {

/// The sign bit of a binary64 pattern.
pub const SIGN_BIT: u64 = 0x8000_0000_0000_0000;

/// The pattern of positive infinity: every pattern whose magnitude is larger
/// is a NaN.
pub const INFINITY_BITS: u64 = 0x7FF0_0000_0000_0000;

/// A binary64 pattern without its sign.
pub open spec fn magnitude(bits: u64) -> int {
    bits as int % 0x8000_0000_0000_0000
}

/// Whether a binary64 pattern is a NaN.
pub open spec fn is_nan(bits: u64) -> bool {
    magnitude(bits) > 0x7FF0_0000_0000_0000
}

/// Numeric equality of two binary64 patterns: a NaN equals nothing, the two
/// zeros equal each other, and any other value has one pattern.
pub open spec fn number_eq(a: u64, b: u64) -> bool {
    !is_nan(a) && !is_nan(b) && (a == b || (magnitude(a) == 0 && magnitude(b) == 0))
}

/// The pattern with the sign bit flipped.
pub open spec fn negated(bits: u64) -> u64 {
    if bits >= 0x8000_0000_0000_0000 {
        (bits - 0x8000_0000_0000_0000) as u64
    } else {
        (bits + 0x8000_0000_0000_0000) as u64
    }
}

/// The five operations on two numbers that the host computes.
#[derive(Clone, Copy, Debug, PartialEq, Eq, Structural)]
pub enum ArithOp {
    Add,
    Subtract,
    Multiply,
    Divide,
    Modulo,
}

/// What a value is: the model that contracts speak of.
pub enum ValueView {
    Number(u64),
    Boolean(bool),
    Str(Seq<char>),
}

/// Equality of values: numeric for two numbers, plain for two Booleans or two
/// strings, and false across variants.
pub open spec fn value_eq(a: ValueView, b: ValueView) -> bool {
    match (a, b) {
        (ValueView::Number(x), ValueView::Number(y)) => number_eq(x, y),
        (ValueView::Boolean(x), ValueView::Boolean(y)) => x == y,
        (ValueView::Str(x), ValueView::Str(y)) => x == y,
        _ => false,
    }
}

/// A number, a Boolean or a string.
#[derive(Debug)]
pub enum Value {
    /// The bit pattern of a binary64 number.
    Number(u64),
    Boolean(bool),
    Str(String),
}

impl View for Value {
    type V = ValueView;

    open spec fn view(&self) -> ValueView {
        match self {
            Value::Number(bits) => ValueView::Number(*bits),
            Value::Boolean(b) => ValueView::Boolean(*b),
            Value::Str(s) => ValueView::Str(s@),
        }
    }
}

impl Clone for Value {
    fn clone(&self) -> (r: Self)
        ensures
            r@ == self@,
    {
        match self {
            Value::Number(bits) => Value::Number(*bits),
            Value::Boolean(b) => Value::Boolean(*b),
            Value::Str(s) => Value::Str(s.clone()),
        }
    }
}

impl PartialEq for Value {
    fn eq(&self, other: &Self) -> (r: bool) {
        match (self, other) {
            (Value::Number(a), Value::Number(b)) => numbers_equal(*a, *b),
            (Value::Boolean(a), Value::Boolean(b)) => *a == *b,
            (Value::Str(a), Value::Str(b)) => a.eq(b),
            _ => false,
        }
    }
}

impl PartialEqSpecImpl for Value {
    open spec fn obeys_eq_spec() -> bool {
        true
    }

    open spec fn eq_spec(&self, other: &Self) -> bool {
        value_eq(self@, other@)
    }
}

/// Numeric equality of two binary64 patterns.
pub fn numbers_equal(a: u64, b: u64) -> (r: bool)
    ensures
        r == number_eq(a, b),
{
    let ma: u64 = if a >= SIGN_BIT { a - SIGN_BIT } else { a };
    let mb: u64 = if b >= SIGN_BIT { b - SIGN_BIT } else { b };
    ma <= INFINITY_BITS && mb <= INFINITY_BITS && (a == b || (ma == 0 && mb == 0))
}

impl Value {
    /// The text that printing shows for a Boolean or a string. A number has
    /// none here: its text is made from the binary64 value by the host.
    pub fn text(&self) -> (r: Option<String>)
        ensures
            match self@ {
                ValueView::Number(_) => r is None,
                ValueView::Boolean(b) => r is Some && r->0@ == (if b {
                    "true"@
                } else {
                    "false"@
                }),
                ValueView::Str(chars) => r is Some && r->0@ == chars,
            },
    {
        match self {
            Value::Number(_) => None,
            Value::Boolean(b) => Some(if *b { "true".to_owned() } else { "false".to_owned() }),
            Value::Str(s) => Some(s.clone()),
        }
    }

    /// The negation of a number. Anything else is a type mismatch.
    pub fn negate(&self) -> (r: Result<Value, Fault>)
        ensures
            match self@ {
                ValueView::Number(bits) => r is Ok && r->Ok_0@ == ValueView::Number(negated(bits)),
                _ => r == Err::<Value, Fault>(Fault::TypeMismatch),
            },
    {
        match self {
            Value::Number(bits) => {
                let flipped: u64 = if *bits >= SIGN_BIT {
                    *bits - SIGN_BIT
                } else {
                    *bits + SIGN_BIT
                };
                Ok(Value::Number(flipped))
            },
            _ => Err(Fault::TypeMismatch),
        }
    }

    /// The conjunction of two Booleans. Anything else is a type mismatch.
    pub fn logical_and(&self, other: &Value) -> (r: Result<Value, Fault>)
        ensures
            match (self@, other@) {
                (ValueView::Boolean(a), ValueView::Boolean(b)) => r is Ok && r->Ok_0@
                    == ValueView::Boolean(a && b),
                _ => r == Err::<Value, Fault>(Fault::TypeMismatch),
            },
    {
        match (self, other) {
            (Value::Boolean(a), Value::Boolean(b)) => Ok(Value::Boolean(*a && *b)),
            _ => Err(Fault::TypeMismatch),
        }
    }

    /// The disjunction of two Booleans. Anything else is a type mismatch.
    pub fn logical_or(&self, other: &Value) -> (r: Result<Value, Fault>)
        ensures
            match (self@, other@) {
                (ValueView::Boolean(a), ValueView::Boolean(b)) => r is Ok && r->Ok_0@
                    == ValueView::Boolean(a || b),
                _ => r == Err::<Value, Fault>(Fault::TypeMismatch),
            },
    {
        match (self, other) {
            (Value::Boolean(a), Value::Boolean(b)) => Ok(Value::Boolean(*a || *b)),
            _ => Err(Fault::TypeMismatch),
        }
    }

    /// The negation of a Boolean. Anything else is a type mismatch.
    pub fn logical_not(&self) -> (r: Result<Value, Fault>)
        ensures
            match self@ {
                ValueView::Boolean(a) => r is Ok && r->Ok_0@ == ValueView::Boolean(!a),
                _ => r == Err::<Value, Fault>(Fault::TypeMismatch),
            },
    {
        match self {
            Value::Boolean(a) => Ok(Value::Boolean(!*a)),
            _ => Err(Fault::TypeMismatch),
        }
    }
}

} // verus!
