//! The semantic domain: values, and the neutral values that are stuck on a
//! free variable.
use vstd::pervasive::unreached;
use vstd::prelude::*;
use crate::expr::Expr;
use crate::model::{Sem, Stuck};
use crate::{Int, Level, Name};

verus! {

/// A computation that is blocked on a free variable.
#[derive(Debug)]
pub enum Neutral {
    /// An addition whose left operand is stuck.
    Add(Box<Neutral>, Box<Value>),
    /// A free variable.
    Var(Name),
}

/// A semantic value.
#[derive(Debug)]
pub enum Value {
    /// The universe of a level.
    U(Level),
    /// The type of integers.
    Int,
    /// An integer.
    IntLit(Int),
    /// A stuck computation.
    Neutral(Neutral),
    /// The type with one inhabitant.
    Trivial,
    /// The inhabitant of `Trivial`.
    Sole,
}

impl View for Neutral {
    type V = Stuck;

    open spec fn view(&self) -> Stuck
        decreases self,
    {
        match self {
            Neutral::Add(n, v) => Stuck::Add(Box::new((**n).view()), Box::new((**v).view())),
            Neutral::Var(x) => Stuck::Var(x@),
        }
    }
}

impl View for Value {
    type V = Sem;

    open spec fn view(&self) -> Sem
        decreases self,
    {
        match self {
            Value::U(i) => Sem::U(*i as nat),
            Value::Int => Sem::Int,
            Value::IntLit(i) => Sem::IntLit(*i as int),
            Value::Neutral(n) => Sem::Neutral(n.view()),
            Value::Trivial => Sem::Trivial,
            Value::Sole => Sem::Sole,
        }
    }
}

impl Clone for Neutral {
    fn clone(&self) -> (r: Self)
        ensures
            r@ == self@,
        decreases self,
    {
        match self {
            Neutral::Add(n, v) => Neutral::Add(Box::new((**n).clone()), Box::new((**v).clone())),
            Neutral::Var(x) => Neutral::Var(x.clone()),
        }
    }
}

impl Clone for Value {
    fn clone(&self) -> (r: Self)
        ensures
            r@ == self@,
        decreases self,
    {
        match self {
            Value::U(i) => Value::U(*i),
            Value::Int => Value::Int,
            Value::IntLit(i) => Value::IntLit(*i),
            Value::Neutral(n) => Value::Neutral(n.clone()),
            Value::Trivial => Value::Trivial,
            Value::Sole => Value::Sole,
        }
    }
}

impl From<Int> for Value {
    /// The integer as a value.
    fn from(value: Int) -> (v: Value) {
        Value::IntLit(value)
    }
}

impl vstd::std_specs::convert::FromSpecImpl<Int> for Value {
    open spec fn obeys_from_spec() -> bool {
        true
    }

    open spec fn from_spec(value: Int) -> Value {
        Value::IntLit(value)
    }
}

impl From<Neutral> for Value {
    /// The stuck computation as a value.
    fn from(value: Neutral) -> (v: Value) {
        Value::Neutral(value)
    }
}

impl vstd::std_specs::convert::FromSpecImpl<Neutral> for Value {
    open spec fn obeys_from_spec() -> bool {
        true
    }

    open spec fn from_spec(value: Neutral) -> Value {
        Value::Neutral(value)
    }
}

impl Neutral {
    /// Reifies a stuck computation as the term it stands for.
    pub fn quote(&self) -> (e: Expr)
        ensures
            e@ == self@.quote(),
        decreases self,
    {
        match self {
            Neutral::Add(n, v) => (**n).quote() + (**v).quote(),
            Neutral::Var(x) => Expr::Var(x.clone()),
        }
    }
}

impl std::ops::Add<Value> for Neutral {
    type Output = Neutral;

    /// The stuck sum of a stuck computation and a value.
    fn add(self, rhs: Value) -> (r: Neutral) {
        Neutral::Add(Box::new(self), Box::new(rhs))
    }
}

impl vstd::std_specs::ops::AddSpecImpl<Value> for Neutral {
    open spec fn obeys_add_spec() -> bool {
        true
    }

    open spec fn add_req(self, rhs: Value) -> bool {
        true
    }

    open spec fn add_spec(self, rhs: Value) -> Neutral {
        Neutral::Add(Box::new(self), Box::new(rhs))
    }
}

impl Value {
    /// Reifies a value as the term it stands for.
    pub fn quote(&self) -> (e: Expr)
        ensures
            e@ == self@.quote(),
        decreases self,
    {
        match self {
            Value::U(i) => Expr::U(*i),
            Value::Int => Expr::Int,
            Value::IntLit(i) => Expr::IntLit(*i),
            Value::Neutral(n) => n.quote(),
            Value::Trivial => Expr::Trivial,
            Value::Sole => Expr::Sole,
        }
    }

    /// The value of a free variable: the variable itself, stuck.
    pub fn var(x: Name) -> (v: Value)
        ensures
            v@ == Sem::Neutral(Stuck::Var(x@)),
    {
        Value::Neutral(Neutral::Var(x))
    }

    /// The sum of two values, or `None` where `add` does not accept them.
    pub fn checked_add(self, rhs: Value) -> (r: Option<Value>)
        ensures
            r is Some <==> self@.addable(rhs@),
            r matches Some(v) ==> v@ == self@.plus(rhs@),
    {
        match (self, rhs) {
            (Value::IntLit(i), Value::IntLit(j)) => match i.checked_add(j) {
                Some(k) => Some(Value::IntLit(k)),
                None => None,
            },
            (Value::Neutral(n), v) => Some(Value::Neutral(n + v)),
            (v, Value::Neutral(n)) => Some(Value::Neutral(n + v)),
            _ => None,
        }
    }
}

impl std::ops::Add for Value {
    type Output = Value;

    /// The sum of two values of integer type: the integer sum of two
    /// literals, and a stuck sum where an operand is stuck. The caller vouches
    /// that the operands are such, and that the sum of two literals is a
    /// machine integer; `checked_add` is there for operands of which that is
    /// not known.
    fn add(self, rhs: Value) -> (r: Value)
        ensures
            r@ == self@.plus(rhs@),
    {
        match (self, rhs) {
            (Value::IntLit(i), Value::IntLit(j)) => Value::IntLit(i + j),
            (Value::Neutral(n), v) => Value::Neutral(n + v),
            (v, Value::Neutral(n)) => Value::Neutral(n + v),
            // Nothing else can be added, and nothing else gets here.
            _ => unreached(),
        }
    }
}

impl vstd::std_specs::ops::AddSpecImpl for Value {
    open spec fn obeys_add_spec() -> bool {
        true
    }

    open spec fn add_req(self, rhs: Value) -> bool {
        self@.addable(rhs@)
    }

    open spec fn add_spec(self, rhs: Value) -> Value {
        match (self, rhs) {
            (Value::IntLit(i), Value::IntLit(j)) => Value::IntLit((i + j) as i64),
            (Value::Neutral(n), v) => Value::Neutral(Neutral::Add(Box::new(n), Box::new(v))),
            (v, Value::Neutral(n)) => Value::Neutral(Neutral::Add(Box::new(n), Box::new(v))),
            _ => arbitrary(),
        }
    }
}

} // verus!
