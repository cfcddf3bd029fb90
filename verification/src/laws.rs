//! What holds of the judgments, proved over the model.
use vstd::prelude::*;
use crate::error::TypeError;
use crate::model::{ctx_sound, env_of, Sem, SemCtx, SemEnv, Stuck, Term};

verus! {

/// A term that checks against a universe can be evaluated under every
/// environment: no addition stands where evaluation reaches.
pub proof fn lemma_types_are_evaluable(t: Term, ty: Sem, ctx: SemCtx, env: SemEnv)
    requires
        ty is U,
        t.check(ty, ctx) is Ok,
    ensures
        t.evaluable(env),
    decreases t,
{
    if !t.checks_directly(ty) {
        match t {
            Term::Ann(e, a) => {
                let found = (*a).eval(env_of(ctx));
                lemma_quote_is_injective(ty, found);
                lemma_types_are_evaluable(*e, found, ctx, env);
            },
            _ => {},
        }
    }
}

/// What synthesis finds, checking accepts: if a term has the synthesised
/// type `ty` in a context, it checks against `ty` in that context.
pub proof fn lemma_synthesis_is_sound(t: Term, ctx: SemCtx, ty: Sem)
    requires
        t.infer(ctx) == Ok::<Sem, TypeError>(ty),
    ensures
        t.check(ty, ctx) is Ok,
{
}

/// Normalising a literal gives the literal back: the quotation of its value,
/// under the empty environment as under any other, is the literal itself.
pub proof fn lemma_literals_are_normal(t: Term, env: SemEnv)
    requires
        t.is_literal(),
    ensures
        t.eval(env).quote() == t,
        t.eval(Map::empty()).quote() == t,
{
}

/// The quotation of a stuck computation evaluates, under the empty
/// environment, to that computation.
pub proof fn lemma_stuck_is_normal(n: Stuck)
    ensures
        n.quote().eval(Map::empty()) == Sem::Neutral(n),
    decreases n,
{
    match n {
        Stuck::Add(m, v) => {
            lemma_stuck_is_normal(*m);
            lemma_values_are_normal(*v);
        },
        Stuck::Var(x) => {},
    }
}

/// Quoting loses nothing: the quotation of a value evaluates, under the
/// empty environment, to that value. So two values are the same exactly when
/// their quotations are the same term.
pub proof fn lemma_values_are_normal(v: Sem)
    ensures
        v.quote().eval(Map::empty()) == v,
    decreases v,
{
    match v {
        Sem::Neutral(n) => lemma_stuck_is_normal(n),
        _ => {},
    }
}

/// Neither judgment ever fails for want of a synthesis rule: every term has
/// one.
pub proof fn lemma_every_term_has_a_rule(t: Term, ty: Sem, ctx: SemCtx)
    ensures
        t.infer(ctx) != Err::<Sem, TypeError>(TypeError::SynthesisFailure),
        t.check(ty, ctx) != Err::<(), TypeError>(TypeError::SynthesisFailure),
    decreases t,
{
    match t {
        Term::Ann(e, a) => {
            lemma_every_term_has_a_rule(*a, Sem::U(crate::MAX_LEVEL as nat), ctx);
            lemma_every_term_has_a_rule(*e, (*a).eval(env_of(ctx)), ctx);
        },
        Term::Add(a, b) => {
            lemma_every_term_has_a_rule(*a, Sem::Int, ctx);
            lemma_every_term_has_a_rule(*b, Sem::Int, ctx);
        },
        _ => {},
    }
}

/// Two values with the same quotation are the same value.
pub proof fn lemma_quote_is_injective(v: Sem, w: Sem)
    requires
        v.quote() == w.quote(),
    ensures
        v == w,
{
    lemma_values_are_normal(v);
    lemma_values_are_normal(w);
}

/// Well-typed terms do not go wrong, for synthesis: where the values of a
/// context are of their types, a term with a synthesised type evaluates,
/// under the environment of the context, by defined additions alone, and to
/// a value of that type.
pub proof fn lemma_synthesis_is_safe(t: Term, ctx: SemCtx, ty: Sem)
    requires
        ctx_sound(ctx),
        t.infer(ctx) == Ok::<Sem, TypeError>(ty),
    ensures
        t.summable(env_of(ctx)),
        t.eval(env_of(ctx)).inhabits(ty),
    decreases t, 0nat,
{
    match t {
        Term::Ann(e, a) => {
            lemma_checking_is_safe(*e, ctx, ty);
        },
        Term::Add(a, b) => {
            lemma_checking_is_safe(*a, ctx, Sem::Int);
            lemma_checking_is_safe(*b, ctx, Sem::Int);
        },
        Term::Var(x) => {
            assert(ctx.contains_key(x));
        },
        _ => {},
    }
}

/// Well-typed terms do not go wrong, for checking: where the values of a
/// context are of their types, a term that checks against a type evaluates,
/// under the environment of the context, by defined additions alone, and to
/// a value of that type.
pub proof fn lemma_checking_is_safe(t: Term, ctx: SemCtx, ty: Sem)
    requires
        ctx_sound(ctx),
        t.check(ty, ctx) is Ok,
    ensures
        t.summable(env_of(ctx)),
        t.eval(env_of(ctx)).inhabits(ty),
    decreases t, 1nat,
{
    if !t.checks_directly(ty) {
        let found = t.infer(ctx)->Ok_0;
        lemma_quote_is_injective(ty, found);
        lemma_synthesis_is_safe(t, ctx, found);
    }
}

/// A term that has a type in the empty context reduces all the way: its
/// value under the empty environment is not stuck.
pub proof fn lemma_closed_terms_reduce(t: Term, ty: Sem)
    requires
        t.check(ty, Map::empty()) is Ok || t.infer(Map::empty()) is Ok,
    ensures
        !(t.eval(Map::empty()) is Neutral),
    decreases t,
{
    let ctx = Map::<Seq<char>, (Sem, Option<Sem>)>::empty();
    match t {
        Term::Ann(e, a) => {
            lemma_closed_terms_reduce(*e, (*a).eval(env_of(ctx)));
        },
        Term::Add(a, b) => {
            lemma_closed_terms_reduce(*a, Sem::Int);
            lemma_closed_terms_reduce(*b, Sem::Int);
            assert(env_of(ctx) =~= Map::<Seq<char>, Sem>::empty());
            lemma_checking_is_safe(*a, ctx, Sem::Int);
            lemma_checking_is_safe(*b, ctx, Sem::Int);
        },
        _ => {},
    }
}

/// A term that has a type in the empty context adds integers only: if the
/// machine cannot evaluate it, a sum of two literals has left the machine
/// integers.
pub proof fn lemma_closed_terms_are_summable(t: Term)
    requires
        t.infer(Map::empty()) is Ok,
    ensures
        t.summable(Map::empty()),
{
    let ctx = Map::<Seq<char>, (Sem, Option<Sem>)>::empty();
    assert(env_of(ctx) =~= Map::<Seq<char>, Sem>::empty());
    lemma_synthesis_is_safe(t, ctx, t.infer(ctx)->Ok_0);
}

} // verus!
