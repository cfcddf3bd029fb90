//! The text of a term.
use vstd::prelude::*;
use vstd::string::StringExecFns;
use crate::expr::Expr;
use crate::model::{decimal, digit, digits, Prec};

verus! {

/// The character of the decimal digit `d`.
fn digit_char(d: u8) -> (c: char)
    requires
        d < 10,
    ensures
        c == digit(d as nat),
{
    if d == 0 {
        '0'
    } else if d == 1 {
        '1'
    } else if d == 2 {
        '2'
    } else if d == 3 {
        '3'
    } else if d == 4 {
        '4'
    } else if d == 5 {
        '5'
    } else if d == 6 {
        '6'
    } else if d == 7 {
        '7'
    } else if d == 8 {
        '8'
    } else {
        '9'
    }
}

/// Appends the decimal digits of `n` to `out`.
fn push_digits(out: &mut String, n: u64)
    ensures
        final(out)@ == old(out)@ + digits(n as nat),
    decreases n,
{
    if n >= 10 {
        push_digits(out, n / 10);
    }
    out.push(digit_char((n % 10) as u8));
}

/// Appends the decimal form of `i` to `out`.
fn push_decimal(out: &mut String, i: i64)
    ensures
        final(out)@ == old(out)@ + decimal(i as int),
{
    if i < 0 {
        out.push('-');
        let magnitude: u64 = if i == i64::MIN {
            9223372036854775808u64
        } else {
            (-i) as u64
        };
        push_digits(out, magnitude);
        assert(final(out)@ =~= old(out)@ + decimal(i as int));
    } else {
        push_digits(out, i as u64);
    }
}

impl Prec {
    /// Whether `self` binds tighter than `other`.
    pub fn tighter_than(self, other: Prec) -> (r: bool)
        ensures
            r == (self.rank() > other.rank()),
    {
        match (self, other) {
            (Prec::Add, Prec::Ann) => true,
            (Prec::Atom, Prec::Ann) => true,
            (Prec::Atom, Prec::Add) => true,
            _ => false,
        }
    }
}

impl Expr {
    /// How tightly the outermost construct of the term binds.
    pub fn prec(&self) -> (p: Prec)
        ensures
            p == self@.prec(),
    {
        match self {
            Expr::Ann(_, _) => Prec::Ann,
            Expr::Add(_, _) => Prec::Add,
            _ => Prec::Atom,
        }
    }

    /// Appends the text of the term to `f`, in round brackets where
    /// `condition` holds.
    pub fn fmt_parens(&self, f: &mut String, condition: bool)
        ensures
            final(f)@ == old(f)@ + self@.render_parens(condition),
        decreases self, 1nat,
    {
        if condition {
            f.push('(');
            self.fmt(f);
            f.push(')');
            assert(final(f)@ =~= old(f)@ + self@.render_parens(condition));
        } else {
            self.fmt(f);
        }
    }

    /// Appends the text of the term to `f`.
    pub fn fmt(&self, f: &mut String)
        ensures
            final(f)@ == old(f)@ + self@.render(),
        decreases self, 0nat,
    {
        match self {
            Expr::Ann(e, t) => {
                (**e).fmt(f);
                f.push(' ');
                f.push(':');
                f.push(' ');
                (**t).fmt(f);
            },
            Expr::U(i) => {
                f.push('U');
                f.push('(');
                push_digits(f, *i as u64);
                f.push(')');
            },
            Expr::Int => {
                f.push('I');
                f.push('n');
                f.push('t');
            },
            Expr::IntLit(i) => push_decimal(f, *i),
            Expr::Add(a, b) => {
                (**a).fmt_parens(f, self.prec().tighter_than((**a).prec()));
                f.push(' ');
                f.push('+');
                f.push(' ');
                (**b).fmt_parens(f, self.prec().tighter_than((**b).prec()));
            },
            Expr::Var(x) => f.append(x.as_str()),
            Expr::Trivial => {
                f.push('T');
                f.push('r');
                f.push('i');
                f.push('v');
                f.push('i');
                f.push('a');
                f.push('l');
            },
            Expr::Sole => {
                f.push('s');
                f.push('o');
                f.push('l');
                f.push('e');
            },
        }
        assert(final(f)@ =~= old(f)@ + self@.render());
    }

    /// The text of the term.
    pub fn to_string(&self) -> (s: String)
        ensures
            s@ == self@.render(),
    {
        let mut s = String::new();
        self.fmt(&mut s);
        assert(s@ =~= self@.render());
        s
    }
}

} // verus!
