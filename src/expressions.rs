//! Cost formulas (integer-valued) and guard conditions (boolean-valued),
//! evaluated against the values a match has bound.
use vstd::prelude::*;
use crate::ast::ValueView;
use crate::captures::{strip_sigil, Captures};
use crate::number::Number;
use std::cmp::Ordering;

verus! {

#[derive(Debug)]
pub enum LinearOperator {
    Add,
    Subtract,
    Multiply,
}

#[derive(Debug)]
pub enum ComparisonOperator {
    Equal,
    NotEqual,
    Less,
    LessOrEqual,
    Greater,
    GreaterOrEqual,
}

#[derive(Debug)]
pub enum BooleanOperator {
    And,
    Or,
}

/// An integer-valued cost formula.
#[derive(Debug)]
pub enum LinearExpression {
    Const(Number),
    Variable(String),
    BinaryExpression(LinearOperator, Box<LinearExpression>, Box<LinearExpression>),
}

/// A boolean-valued guard.
#[derive(Debug)]
pub enum Condition {
    Comparison(ComparisonOperator, LinearExpression, LinearExpression),
    Boolean(BooleanOperator, Box<Condition>, Box<Condition>),
    Variable(String),
    Const(bool),
}

pub open spec fn apply_linear(op: LinearOperator, a: int, b: int) -> int {
    match op {
        LinearOperator::Add => a + b,
        LinearOperator::Subtract => a - b,
        LinearOperator::Multiply => a * b,
    }
}

pub open spec fn apply_comparison(op: ComparisonOperator, a: int, b: int) -> bool {
    match op {
        ComparisonOperator::Equal => a == b,
        ComparisonOperator::NotEqual => a != b,
        ComparisonOperator::Less => a < b,
        ComparisonOperator::LessOrEqual => a <= b,
        ComparisonOperator::Greater => a > b,
        ComparisonOperator::GreaterOrEqual => a >= b,
    }
}

pub open spec fn apply_boolean(op: BooleanOperator, a: bool, b: bool) -> bool {
    match op {
        BooleanOperator::And => a && b,
        BooleanOperator::Or => a || b,
    }
}

/// The integer bound under `name` (leading `$` removed); `None` where the
/// name is unbound or bound to a value of another kind.
pub open spec fn int_capture(c: Map<Seq<char>, ValueView>, name: Seq<char>) -> Option<int> {
    if c.contains_key(strip_sigil(name)) {
        match c[strip_sigil(name)] {
            ValueView::Int(n) => Some(n),
            _ => None,
        }
    } else {
        None
    }
}

/// The boolean bound under `name`, as `int_capture` does for integers.
pub open spec fn bool_capture(c: Map<Seq<char>, ValueView>, name: Seq<char>) -> Option<bool> {
    if c.contains_key(strip_sigil(name)) {
        match c[strip_sigil(name)] {
            ValueView::Boolean(b) => Some(b),
            _ => None,
        }
    } else {
        None
    }
}

/// The value of a cost formula; `None` where a variable has no integer bound.
pub open spec fn linear_value(e: LinearExpression, c: Map<Seq<char>, ValueView>) -> Option<int>
    decreases e,
{
    match e {
        LinearExpression::Const(n) => Some(n@),
        LinearExpression::Variable(name) => int_capture(c, name@),
        LinearExpression::BinaryExpression(op, l, r) => {
            match (linear_value(*l, c), linear_value(*r, c)) {
                (Some(a), Some(b)) => Some(apply_linear(op, a, b)),
                _ => None,
            }
        },
    }
}

/// The value of a guard; `None` where a variable it reads has no value of
/// the kind it needs.
pub open spec fn condition_value(e: Condition, c: Map<Seq<char>, ValueView>) -> Option<bool>
    decreases e,
{
    match e {
        Condition::Comparison(op, l, r) => {
            match (linear_value(l, c), linear_value(r, c)) {
                (Some(a), Some(b)) => Some(apply_comparison(op, a, b)),
                _ => None,
            }
        },
        Condition::Boolean(op, l, r) => {
            match (condition_value(*l, c), condition_value(*r, c)) {
                (Some(a), Some(b)) => Some(apply_boolean(op, a, b)),
                _ => None,
            }
        },
        Condition::Variable(name) => bool_capture(c, name@),
        Condition::Const(b) => Some(b),
    }
}

impl LinearExpression {
    pub fn eval(&self, captures: &Captures) -> (r: Result<Number, ()>)
        requires
            captures.wf(),
        ensures
            match r {
                Ok(n) => linear_value(*self, captures@) == Some(n@),
                Err(()) => linear_value(*self, captures@) is None,
            },
        decreases self,
    {
        match self {
            LinearExpression::Const(n) => Ok(n.duplicate()),
            LinearExpression::Variable(name) => match captures.get_int(name.as_str()) {
                Some(Ok(n)) => Ok(n.duplicate()),
                _ => Err(()),
            },
            LinearExpression::BinaryExpression(op, l, r) => {
                let a = l.eval(captures);
                let b = r.eval(captures);
                match (a, b) {
                    (Ok(a), Ok(b)) => match op {
                        LinearOperator::Add => Ok(a.add(&b)),
                        LinearOperator::Subtract => Ok(a.sub(&b)),
                        LinearOperator::Multiply => Ok(a.mul(&b)),
                    },
                    _ => Err(()),
                }
            },
        }
    }
}

impl Condition {
    pub fn eval(&self, captures: &Captures) -> (r: Result<bool, ()>)
        requires
            captures.wf(),
        ensures
            match r {
                Ok(b) => condition_value(*self, captures@) == Some(b),
                Err(()) => condition_value(*self, captures@) is None,
            },
        decreases self,
    {
        match self {
            Condition::Comparison(op, l, r) => {
                let a = l.eval(captures);
                let b = r.eval(captures);
                match (a, b) {
                    (Ok(a), Ok(b)) => {
                        let (lt, eq) = match a.compare(&b) {
                            Ordering::Less => (true, false),
                            Ordering::Equal => (false, true),
                            Ordering::Greater => (false, false),
                        };
                        let v = match op {
                            ComparisonOperator::Equal => eq,
                            ComparisonOperator::NotEqual => !eq,
                            ComparisonOperator::Less => lt,
                            ComparisonOperator::LessOrEqual => lt || eq,
                            ComparisonOperator::Greater => !lt && !eq,
                            ComparisonOperator::GreaterOrEqual => !lt,
                        };
                        Ok(v)
                    },
                    _ => Err(()),
                }
            },
            Condition::Boolean(op, l, r) => {
                let a = l.eval(captures);
                let b = r.eval(captures);
                match (a, b) {
                    (Ok(a), Ok(b)) => match op {
                        BooleanOperator::And => Ok(a && b),
                        BooleanOperator::Or => Ok(a || b),
                    },
                    _ => Err(()),
                }
            },
            Condition::Variable(name) => match captures.get_bool(name.as_str()) {
                Some(Ok(b)) => Ok(b),
                _ => Err(()),
            },
            Condition::Const(b) => Ok(*b),
        }
    }
}

} // verus!
