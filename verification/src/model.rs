//! The mathematical model: terms, semantic values and the judgments over
//! them, as specification functions on unbounded integers and sequences of
//! characters.
use vstd::prelude::*;
use crate::error::TypeError;

verus! {

/// The model of a term.
pub enum Term {
    Ann(Box<Term>, Box<Term>),
    U(nat),
    Int,
    IntLit(int),
    Add(Box<Term>, Box<Term>),
    Var(Seq<char>),
    Trivial,
    Sole,
}

/// The model of a computation that is blocked on a free variable.
pub enum Stuck {
    Add(Box<Stuck>, Box<Sem>),
    Var(Seq<char>),
}

/// The model of a semantic value.
pub enum Sem {
    U(nat),
    Int,
    IntLit(int),
    Neutral(Stuck),
    Trivial,
    Sole,
}

/// How tightly the outermost construct of a term binds. An annotation binds
/// loosest, then a sum, then an atom.
#[derive(Clone, Copy, Debug, PartialEq, Eq, Structural)]
pub enum Prec {
    Ann,
    Add,
    Atom,
}

impl Prec {
    /// The rank of a precedence: a looser one has the smaller rank.
    pub open spec fn rank(self) -> nat {
        match self {
            Prec::Ann => 0,
            Prec::Add => 1,
            Prec::Atom => 2,
        }
    }
}

/// The character of a decimal digit.
pub open spec fn digit(d: nat) -> char
    recommends
        d < 10,
{
    if d == 0 {
        '0'
    } else if d == 1 {
        '1'
    } else if d == 2 {
        '2'
    } else if d == 3 {
        '3'
    } else if d == 4 {
        '4'
    } else if d == 5 {
        '5'
    } else if d == 6 {
        '6'
    } else if d == 7 {
        '7'
    } else if d == 8 {
        '8'
    } else {
        '9'
    }
}

/// A natural number in decimal, without leading zeros.
pub open spec fn digits(n: nat) -> Seq<char>
    decreases n,
{
    if n < 10 {
        seq![digit(n)]
    } else {
        digits(n / 10).push(digit(n % 10))
    }
}

/// An integer in decimal, with a minus sign where it is negative.
pub open spec fn decimal(i: int) -> Seq<char> {
    if i < 0 {
        seq!['-'] + digits((-i) as nat)
    } else {
        digits(i as nat)
    }
}

/// An evaluation environment: the values of the names that have one.
pub type SemEnv = Map<Seq<char>, Sem>;

/// A typing context: for each name its type and, where it is defined, its
/// value.
pub type SemCtx = Map<Seq<char>, (Sem, Option<Sem>)>;

/// The environment that a context gives rise to: its names that have a
/// value, each with that value.
pub open spec fn env_of(ctx: SemCtx) -> SemEnv {
    Map::new(|x: Seq<char>| ctx.contains_key(x) && ctx[x].1 is Some, |x: Seq<char>| ctx[x].1->0)
}

/// Whether every value that the context records is of the type recorded
/// with it.
pub open spec fn ctx_sound(ctx: SemCtx) -> bool {
    forall|x: Seq<char>| #[trigger]
        ctx.contains_key(x) ==> (ctx[x].1 matches Some(v) ==> v.inhabits(ctx[x].0))
}

impl Stuck {
    /// The term that a stuck computation stands for.
    pub open spec fn quote(self) -> Term
        decreases self,
    {
        match self {
            Stuck::Add(n, v) => Term::Add(Box::new((*n).quote()), Box::new((*v).quote())),
            Stuck::Var(x) => Term::Var(x),
        }
    }
}

impl Sem {
    /// The term that a value stands for.
    pub open spec fn quote(self) -> Term
        decreases self,
    {
        match self {
            Sem::U(i) => Term::U(i),
            Sem::Int => Term::Int,
            Sem::IntLit(i) => Term::IntLit(i),
            Sem::Neutral(n) => n.quote(),
            Sem::Trivial => Term::Trivial,
            Sem::Sole => Term::Sole,
        }
    }

    /// Whether addition is defined on the two values: both are integer
    /// literals, or at least one of them is stuck.
    pub open spec fn summable(self, rhs: Sem) -> bool {
        ||| self is IntLit && rhs is IntLit
        ||| self is Neutral
        ||| rhs is Neutral
    }

    /// Whether the value is of the type `ty`, as far as its shape tells: an
    /// integer literal is of the integer type, `sole` of the trivial type, a
    /// type of the universes it lives in. A stuck value may be of any type,
    /// and so may any value where `ty` is stuck.
    pub open spec fn inhabits(self, ty: Sem) -> bool {
        self is Neutral || match ty {
            Sem::Int => self is IntLit,
            Sem::Trivial => self is Sole,
            Sem::U(j) => match self {
                Sem::U(i) => i < j,
                Sem::Int => true,
                Sem::Trivial => true,
                _ => false,
            },
            Sem::Neutral(_) => true,
            _ => false,
        }
    }

    /// Whether the machine can add the two values: addition is defined on
    /// them and the sum of two literals is a 64-bit signed integer.
    pub open spec fn addable(self, rhs: Sem) -> bool {
        &&& self.summable(rhs)
        &&& match (self, rhs) {
            (Sem::IntLit(i), Sem::IntLit(j)) => i64::MIN <= i + j <= i64::MAX,
            _ => true,
        }
    }

    /// The sum of two values. Two literals give their integer sum; where one
    /// operand is stuck the sum is stuck too, with the stuck operand on the
    /// left (the left one, where both are stuck). Meaningful only for
    /// summable operands.
    pub open spec fn plus(self, rhs: Sem) -> Sem
        recommends
            self.summable(rhs),
    {
        match (self, rhs) {
            (Sem::IntLit(i), Sem::IntLit(j)) => Sem::IntLit(i + j),
            (Sem::Neutral(n), v) => Sem::Neutral(Stuck::Add(Box::new(n), Box::new(v))),
            (v, Sem::Neutral(n)) => Sem::Neutral(Stuck::Add(Box::new(n), Box::new(v))),
            _ => arbitrary(),
        }
    }
}

impl Term {
    /// The value of a term under an environment. A name without a value
    /// evaluates to itself, stuck; an annotation is transparent.
    pub open spec fn eval(self, env: SemEnv) -> Sem
        decreases self,
    {
        match self {
            Term::Ann(e, _) => (*e).eval(env),
            Term::U(i) => Sem::U(i),
            Term::Int => Sem::Int,
            Term::IntLit(i) => Sem::IntLit(i),
            Term::Add(a, b) => (*a).eval(env).plus((*b).eval(env)),
            Term::Var(x) => if env.contains_key(x) {
                env[x]
            } else {
                Sem::Neutral(Stuck::Var(x))
            },
            Term::Trivial => Sem::Trivial,
            Term::Sole => Sem::Sole,
        }
    }

    /// Whether the term is a literal: a universe, the integer type, an
    /// integer, the trivial type or its inhabitant. A literal holds no name
    /// and nothing to reduce.
    pub open spec fn is_literal(self) -> bool {
        self is U || self is Int || self is IntLit || self is Trivial || self is Sole
    }

    /// Whether every addition that evaluation performs is defined.
    pub open spec fn summable(self, env: SemEnv) -> bool
        decreases self,
    {
        match self {
            Term::Ann(e, _) => (*e).summable(env),
            Term::Add(a, b) => {
                &&& (*a).summable(env)
                &&& (*b).summable(env)
                &&& (*a).eval(env).summable((*b).eval(env))
            },
            _ => true,
        }
    }

    /// Whether the machine can evaluate the term: every addition that
    /// evaluation performs is defined and stays within the machine integers.
    pub open spec fn evaluable(self, env: SemEnv) -> bool
        decreases self,
    {
        match self {
            Term::Ann(e, _) => (*e).evaluable(env),
            Term::Add(a, b) => {
                &&& (*a).evaluable(env)
                &&& (*b).evaluable(env)
                &&& (*a).eval(env).addable((*b).eval(env))
            },
            _ => true,
        }
    }

    /// Whether a checking rule accepts the term at the type outright: a
    /// universe in a strictly higher universe, the integer and the trivial
    /// type in any universe, a literal in the integer type, `sole` in the
    /// trivial type.
    pub open spec fn checks_directly(self, ty: Sem) -> bool {
        match (self, ty) {
            (Term::U(i), Sem::U(j)) => i < j,
            (Term::Int, Sem::U(_)) => true,
            (Term::IntLit(_), Sem::Int) => true,
            (Term::Trivial, Sem::U(_)) => true,
            (Term::Sole, Sem::Trivial) => true,
            _ => false,
        }
    }

    /// The checking judgment: the term has the type `ty` in `ctx`. Where no
    /// rule accepts it outright, its type is synthesised and must quote to
    /// the same term as `ty`.
    pub open spec fn check(self, ty: Sem, ctx: SemCtx) -> Result<(), TypeError>
        decreases self, 1nat,
    {
        if self.checks_directly(ty) {
            Ok(())
        } else {
            match self.infer(ctx) {
                Err(err) => Err(err),
                Ok(found) => if ty.quote() == found.quote() {
                    Ok(())
                } else {
                    Err(TypeError::TypeMismatch)
                },
            }
        }
    }

    /// The synthesis judgment: the type of the term in `ctx`.
    pub open spec fn infer(self, ctx: SemCtx) -> Result<Sem, TypeError>
        decreases self, 0nat,
    {
        match self {
            Term::Ann(e, t) => match (*t).check(Sem::U(crate::MAX_LEVEL as nat), ctx) {
                Err(err) => Err(err),
                Ok(_) => {
                    let ty = (*t).eval(env_of(ctx));
                    match (*e).check(ty, ctx) {
                        Err(err) => Err(err),
                        Ok(_) => Ok(ty),
                    }
                },
            },
            Term::U(i) => if i < crate::MAX_LEVEL {
                Ok(Sem::U(i + 1))
            } else {
                Err(TypeError::UniverseOverflow)
            },
            Term::Int => Ok(Sem::U(0)),
            Term::IntLit(_) => Ok(Sem::Int),
            Term::Add(a, b) => match (*a).check(Sem::Int, ctx) {
                Err(err) => Err(err),
                Ok(_) => match (*b).check(Sem::Int, ctx) {
                    Err(err) => Err(err),
                    Ok(_) => Ok(Sem::Int),
                },
            },
            Term::Var(x) => if ctx.contains_key(x) {
                Ok(ctx[x].0)
            } else {
                Err(TypeError::NameNotFound)
            },
            Term::Trivial => Ok(Sem::U(0)),
            Term::Sole => Ok(Sem::Trivial),
        }
    }

    /// How tightly the outermost construct of the term binds.
    pub open spec fn prec(self) -> Prec {
        match self {
            Term::Ann(_, _) => Prec::Ann,
            Term::Add(_, _) => Prec::Add,
            _ => Prec::Atom,
        }
    }

    /// The text of the term, in round brackets where `bracketed` holds.
    pub open spec fn render_parens(self, bracketed: bool) -> Seq<char>
        decreases self, 1nat,
    {
        if bracketed {
            seq!['('] + self.render() + seq![')']
        } else {
            self.render()
        }
    }

    /// The text of the term. An operand of a sum stands in round brackets
    /// where it binds looser than the sum, that is where it is an
    /// annotation; nothing else is bracketed.
    pub open spec fn render(self) -> Seq<char>
        decreases self, 0nat,
    {
        match self {
            Term::Ann(e, t) => (*e).render() + seq![' ', ':', ' '] + (*t).render(),
            Term::U(i) => seq!['U', '('] + digits(i) + seq![')'],
            Term::Int => seq!['I', 'n', 't'],
            Term::IntLit(i) => decimal(i),
            Term::Add(a, b) => (*a).render_parens(self.prec().rank() > (*a).prec().rank()) + seq![
                ' ',
                '+',
                ' ',
            ] + (*b).render_parens(self.prec().rank() > (*b).prec().rank()),
            Term::Var(x) => x,
            Term::Trivial => seq!['T', 'r', 'i', 'v', 'i', 'a', 'l'],
            Term::Sole => seq!['s', 'o', 'l', 'e'],
        }
    }
}

} // verus!
