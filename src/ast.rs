//! The parts of a GraphQL query document that rules are matched against.
use vstd::prelude::*;
use crate::number::Number;

verus! {

/// An argument value. Lists and input objects are held in their printed form.
#[derive(Debug)]
pub enum Value {
    Variable(String),
    Int(Number),
    Float(String),
    Str(String),
    Boolean(bool),
    Null,
    Enum(String),
    Composite(String),
}

/// What a `Value` denotes: text as characters, integers as `int`.
pub enum ValueView {
    Variable(Seq<char>),
    Int(int),
    Float(Seq<char>),
    Str(Seq<char>),
    Boolean(bool),
    Null,
    Enum(Seq<char>),
    Composite(Seq<char>),
}

impl View for Value {
    type V = ValueView;

    open spec fn view(&self) -> ValueView {
        match self {
            Value::Variable(s) => ValueView::Variable(s@),
            Value::Int(n) => ValueView::Int(n@),
            Value::Float(s) => ValueView::Float(s@),
            Value::Str(s) => ValueView::Str(s@),
            Value::Boolean(b) => ValueView::Boolean(*b),
            Value::Null => ValueView::Null,
            Value::Enum(s) => ValueView::Enum(s@),
            Value::Composite(s) => ValueView::Composite(s@),
        }
    }
}

/// Whether two values are of the same kind (both integers, both strings, ...).
pub open spec fn same_kind(a: ValueView, b: ValueView) -> bool {
    match (a, b) {
        (ValueView::Variable(_), ValueView::Variable(_)) => true,
        (ValueView::Int(_), ValueView::Int(_)) => true,
        (ValueView::Float(_), ValueView::Float(_)) => true,
        (ValueView::Str(_), ValueView::Str(_)) => true,
        (ValueView::Boolean(_), ValueView::Boolean(_)) => true,
        (ValueView::Null, ValueView::Null) => true,
        (ValueView::Enum(_), ValueView::Enum(_)) => true,
        (ValueView::Composite(_), ValueView::Composite(_)) => true,
        _ => false,
    }
}

impl Value {
    pub fn equals(&self, other: &Value) -> (r: bool)
        ensures
            r == (self@ == other@),
    {
        match (self, other) {
            (Value::Variable(a), Value::Variable(b)) => *a == *b,
            (Value::Int(a), Value::Int(b)) => a.equals(b),
            (Value::Float(a), Value::Float(b)) => *a == *b,
            (Value::Str(a), Value::Str(b)) => *a == *b,
            (Value::Boolean(a), Value::Boolean(b)) => *a == *b,
            (Value::Null, Value::Null) => true,
            (Value::Enum(a), Value::Enum(b)) => *a == *b,
            (Value::Composite(a), Value::Composite(b)) => *a == *b,
            _ => false,
        }
    }

    pub fn same_kind_as(&self, other: &Value) -> (r: bool)
        ensures
            r == same_kind(self@, other@),
    {
        match (self, other) {
            (Value::Variable(_), Value::Variable(_)) => true,
            (Value::Int(_), Value::Int(_)) => true,
            (Value::Float(_), Value::Float(_)) => true,
            (Value::Str(_), Value::Str(_)) => true,
            (Value::Boolean(_), Value::Boolean(_)) => true,
            (Value::Null, Value::Null) => true,
            (Value::Enum(_), Value::Enum(_)) => true,
            (Value::Composite(_), Value::Composite(_)) => true,
            _ => false,
        }
    }

    pub fn duplicate(&self) -> (r: Value)
        ensures
            r@ == self@,
    {
        match self {
            Value::Variable(s) => Value::Variable(s.clone()),
            Value::Int(n) => Value::Int(n.duplicate()),
            Value::Float(s) => Value::Float(s.clone()),
            Value::Str(s) => Value::Str(s.clone()),
            Value::Boolean(b) => Value::Boolean(*b),
            Value::Null => Value::Null,
            Value::Enum(s) => Value::Enum(s.clone()),
            Value::Composite(s) => Value::Composite(s.clone()),
        }
    }
}

/// A directive: `@name(arg: value, ...)`.
#[derive(Debug)]
pub struct Directive {
    pub name: String,
    pub arguments: Vec<(String, Value)>,
}

/// A field: `alias: name(arg: value, ...) { ... }`.
#[derive(Debug)]
pub struct Field {
    pub alias: Option<String>,
    pub name: String,
    pub arguments: Vec<(String, Value)>,
    pub selection_set: SelectionSet,
}

/// A fragment spread: `...Name`.
#[derive(Debug)]
pub struct FragmentSpread {
    pub fragment_name: String,
}

/// An inline fragment: `... on Type { ... }`.
#[derive(Debug)]
pub struct InlineFragment {
    pub type_condition: Option<String>,
    pub selection_set: SelectionSet,
}

#[derive(Debug)]
pub struct SelectionSet {
    pub items: Vec<Selection>,
}

#[derive(Debug)]
pub enum Selection {
    Field(Field),
    FragmentSpread(FragmentSpread),
    InlineFragment(InlineFragment),
}

/// A named fragment: `fragment Name on Type { ... }`.
#[derive(Debug)]
pub struct FragmentDefinition {
    pub name: String,
    pub type_condition: String,
    pub selection_set: SelectionSet,
}

/// A query operation: its directives and its outermost selection set.
#[derive(Debug)]
pub struct Query {
    pub name: Option<String>,
    pub directives: Vec<Directive>,
    pub selection_set: SelectionSet,
}

} // verus!
