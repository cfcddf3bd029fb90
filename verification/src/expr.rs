//! Terms: the syntax of the calculus, and structural equality on it.
use vstd::prelude::*;
use crate::context::Env;
use crate::model::Term;
use crate::value::Value;
use crate::{Int, Level, Name};

verus! {

/// A term of the calculus.
#[derive(Debug)]
pub enum Expr {
    /// A term with a type ascription.
    Ann(Box<Expr>, Box<Expr>),
    /// The universe of a level.
    U(Level),
    /// The type of integers.
    Int,
    /// An integer literal.
    IntLit(Int),
    /// The sum of two terms.
    Add(Box<Expr>, Box<Expr>),
    /// A name.
    Var(Name),
    /// The type with one inhabitant.
    Trivial,
    /// The inhabitant of `Trivial`.
    Sole,
}

impl View for Expr {
    type V = Term;

    open spec fn view(&self) -> Term
        decreases self,
    {
        match self {
            Expr::Ann(e, t) => Term::Ann(Box::new((**e).view()), Box::new((**t).view())),
            Expr::U(i) => Term::U(*i as nat),
            Expr::Int => Term::Int,
            Expr::IntLit(i) => Term::IntLit(*i as int),
            Expr::Add(a, b) => Term::Add(Box::new((**a).view()), Box::new((**b).view())),
            Expr::Var(x) => Term::Var(x@),
            Expr::Trivial => Term::Trivial,
            Expr::Sole => Term::Sole,
        }
    }
}

impl Clone for Expr {
    fn clone(&self) -> (r: Self)
        ensures
            r@ == self@,
        decreases self,
    {
        match self {
            Expr::Ann(e, t) => Expr::Ann(Box::new((**e).clone()), Box::new((**t).clone())),
            Expr::U(i) => Expr::U(*i),
            Expr::Int => Expr::Int,
            Expr::IntLit(i) => Expr::IntLit(*i),
            Expr::Add(a, b) => Expr::Add(Box::new((**a).clone()), Box::new((**b).clone())),
            Expr::Var(x) => Expr::Var(x.clone()),
            Expr::Trivial => Expr::Trivial,
            Expr::Sole => Expr::Sole,
        }
    }
}

impl PartialEq for Expr {
    fn eq(&self, other: &Self) -> (r: bool)
        decreases self,
    {
        match (self, other) {
            (Expr::Ann(e, t), Expr::Ann(f, u)) => {
                let r1 = (**e).eq(&**f);
                let r2 = (**t).eq(&**u);
                r1 && r2
            },
            (Expr::U(i), Expr::U(j)) => *i == *j,
            (Expr::Int, Expr::Int) => true,
            (Expr::IntLit(i), Expr::IntLit(j)) => *i == *j,
            (Expr::Add(a, b), Expr::Add(c, d)) => {
                let r1 = (**a).eq(&**c);
                let r2 = (**b).eq(&**d);
                r1 && r2
            },
            (Expr::Var(x), Expr::Var(y)) => *x == *y,
            (Expr::Trivial, Expr::Trivial) => true,
            (Expr::Sole, Expr::Sole) => true,
            _ => false,
        }
    }
}

impl vstd::std_specs::cmp::PartialEqSpecImpl for Expr {
    open spec fn obeys_eq_spec() -> bool {
        true
    }

    open spec fn eq_spec(&self, other: &Self) -> bool {
        self@ == other@
    }
}

impl Eq for Expr {

}

impl From<Int> for Expr {
    /// The integer as a literal.
    fn from(value: Int) -> (e: Expr) {
        Expr::IntLit(value)
    }
}

impl vstd::std_specs::convert::FromSpecImpl<Int> for Expr {
    open spec fn obeys_from_spec() -> bool {
        true
    }

    open spec fn from_spec(value: Int) -> Expr {
        Expr::IntLit(value)
    }
}

impl std::ops::Add for Expr {
    type Output = Expr;

    /// The sum of two terms.
    fn add(self, rhs: Expr) -> (e: Expr) {
        Expr::Add(Box::new(self), Box::new(rhs))
    }
}

impl vstd::std_specs::ops::AddSpecImpl for Expr {
    open spec fn obeys_add_spec() -> bool {
        true
    }

    open spec fn add_req(self, rhs: Expr) -> bool {
        true
    }

    open spec fn add_spec(self, rhs: Expr) -> Expr {
        Expr::Add(Box::new(self), Box::new(rhs))
    }
}

impl Expr {
    /// Equality of terms up to the names of bound variables. The calculus
    /// binds no variable, so this is structural equality.
    pub fn alpha_eq(&self, other: &Self) -> (r: bool)
        ensures
            r == (self@ == other@),
    {
        self == other
    }

    /// Evaluates the term to a value under `env`. A name that `env` does not
    /// bind evaluates to itself, stuck; an annotation is dropped. The caller
    /// vouches that every sum on the way is defined and fits the machine
    /// integers: `checked_eval` is there for a term of which that is not
    /// known.
    pub fn eval(&self, env: &Env) -> (v: Value)
        requires
            self@.evaluable(env@),
        ensures
            v@ == self@.eval(env@),
        decreases self,
    {
        match self {
            Expr::Ann(e, _) => (**e).eval(env),
            Expr::U(i) => Value::U(*i),
            Expr::Int => Value::Int,
            Expr::IntLit(i) => Value::IntLit(*i),
            Expr::Add(a, b) => {
                let x = (**a).eval(env);
                let y = (**b).eval(env);
                x + y
            },
            Expr::Var(x) => match env.get(x) {
                Some(v) => v.clone(),
                None => Value::var(x.clone()),
            },
            Expr::Trivial => Value::Trivial,
            Expr::Sole => Value::Sole,
        }
    }

    /// Evaluates the term as `eval` does, or returns `None` where some sum on
    /// the way is undefined or leaves the machine integers.
    pub fn checked_eval(&self, env: &Env) -> (r: Option<Value>)
        ensures
            r is Some <==> self@.evaluable(env@),
            r matches Some(v) ==> v@ == self@.eval(env@),
        decreases self,
    {
        match self {
            Expr::Ann(e, _) => (**e).checked_eval(env),
            Expr::U(i) => Some(Value::U(*i)),
            Expr::Int => Some(Value::Int),
            Expr::IntLit(i) => Some(Value::IntLit(*i)),
            Expr::Add(a, b) => match (**a).checked_eval(env) {
                None => None,
                Some(x) => match (**b).checked_eval(env) {
                    None => None,
                    Some(y) => x.checked_add(y),
                },
            },
            Expr::Var(x) => match env.get(x) {
                Some(v) => Some(v.clone()),
                None => Some(Value::var(x.clone())),
            },
            Expr::Trivial => Some(Value::Trivial),
            Expr::Sole => Some(Value::Sole),
        }
    }
}

} // verus!
