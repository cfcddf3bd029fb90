//! The bidirectional type checker.
use vstd::prelude::*;
use crate::context::Context;
use crate::error::TypeError;
use crate::expr::Expr;
use crate::laws::{lemma_every_term_has_a_rule, lemma_types_are_evaluable};
use crate::model::Sem;
use crate::value::Value;
use crate::{Type, MAX_LEVEL};

verus! {

impl Expr {
    /// Whether a checking rule accepts the term at `t` outright.
    fn checks_directly(&self, t: &Type) -> (r: bool)
        ensures
            r == self@.checks_directly(t@),
    {
        match (self, t) {
            (Expr::U(i), Value::U(j)) => *i < *j,
            (Expr::Int, Value::U(_)) => true,
            (Expr::IntLit(_), Value::Int) => true,
            (Expr::Trivial, Value::U(_)) => true,
            (Expr::Sole, Value::Trivial) => true,
            _ => false,
        }
    }

    /// Checks the term against the type `t` in `ctx`. A universe is accepted
    /// in a strictly higher one, the integer and the trivial type in every
    /// universe, a literal in the integer type and `sole` in the trivial
    /// type; any other term must synthesise a type that quotes to the same
    /// term as `t`, and is refused with `TypeMismatch` where it does not.
    pub fn check(&self, t: &Type, ctx: &Context) -> (r: Result<(), TypeError>)
        ensures
            r == self@.check(t@, ctx@),
            r != Err::<(), TypeError>(TypeError::SynthesisFailure),
        decreases self, 1nat,
    {
        proof {
            lemma_every_term_has_a_rule(self@, t@, ctx@);
        }
        if self.checks_directly(t) {
            Ok(())
        } else {
            match self.infer(ctx) {
                Err(err) => Err(err),
                Ok(found) => if t.quote().alpha_eq(&found.quote()) {
                    Ok(())
                } else {
                    Err(TypeError::TypeMismatch)
                },
            }
        }
    }

    /// Synthesises the type of the term in `ctx`. The result is the one that
    /// the synthesis judgment of the model gives: the same type, or the same
    /// error, which is never `SynthesisFailure`.
    #[allow(unreachable_patterns)]
    pub fn infer(&self, ctx: &Context) -> (r: Result<Type, TypeError>)
        ensures
            match r {
                Ok(t) => self@.infer(ctx@) == Ok::<Sem, TypeError>(t@),
                Err(err) => self@.infer(ctx@) == Err::<Sem, TypeError>(err),
            },
            !(r matches Err(TypeError::SynthesisFailure)),
        decreases self, 0nat,
    {
        proof {
            lemma_every_term_has_a_rule(self@, Sem::Int, ctx@);
        }
        match self {
            Expr::Ann(e, t) => {
                let top = Value::U(MAX_LEVEL);
                match (**t).check(&top, ctx) {
                    Err(err) => Err(err),
                    Ok(_) => {
                        let env = ctx.env();
                        proof {
                            lemma_types_are_evaluable((**t)@, top@, ctx@, env@);
                        }
                        let ty = (**t).eval(&env);
                        match (**e).check(&ty, ctx) {
                            Err(err) => Err(err),
                            Ok(_) => Ok(ty),
                        }
                    },
                }
            },
            Expr::U(i) => if *i < MAX_LEVEL {
                Ok(Value::U(*i + 1))
            } else {
                Err(TypeError::UniverseOverflow)
            },
            Expr::Int => Ok(Value::U(0)),
            Expr::IntLit(_) => Ok(Value::Int),
            Expr::Add(a, b) => {
                let integer = Value::Int;
                match (**a).check(&integer, ctx) {
                    Err(err) => Err(err),
                    Ok(_) => match (**b).check(&integer, ctx) {
                        Err(err) => Err(err),
                        Ok(_) => Ok(integer),
                    },
                }
            },
            Expr::Var(x) => match ctx.get(x) {
                Some(t) => Ok(t.clone()),
                None => Err(TypeError::NameNotFound),
            },
            Expr::Trivial => Ok(Value::U(0)),
            Expr::Sole => Ok(Value::Trivial),
            // Every term of today has a rule above. A term to come that has
            // none will need an annotation, and ends here.
            _ => Err(TypeError::SynthesisFailure),
        }
    }
}

} // verus!
