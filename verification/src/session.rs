//! What an interactive session answers to a line: the value of the term on
//! it and its type, both in the empty context.
use vstd::prelude::*;
use crate::context::{Context, Env};
use crate::error::{ParseError, TypeError};
use crate::expr::Expr;
use crate::grammar;
use crate::grammar::Parsed;
use crate::model::{Sem, Term};
use crate::text::trimmed;

verus! {

/// Why a line has no answer.
#[derive(Clone, Copy, Debug, PartialEq, Eq, Structural)]
pub enum Failure {
    /// The line is no term.
    Parse(ParseError),
    /// The term has no type.
    Type(TypeError),
    /// The term has a type, and a sum in it leaves the 64-bit integers.
    Overflow,
}

impl Failure {
    /// A short description of the failure, for the user.
    pub fn message(&self) -> (s: &'static str)
        ensures
            s@ == self.message_text(),
    {
        match self {
            Failure::Parse(e) => e.message(),
            Failure::Type(e) => e.message(),
            Failure::Overflow => "Integer overflow",
        }
    }

    /// The text of `message`.
    pub open spec fn message_text(&self) -> Seq<char> {
        match self {
            Failure::Parse(e) => e.message_text(),
            Failure::Type(e) => e.message_text(),
            Failure::Overflow => "Integer overflow"@,
        }
    }
}

/// The answer to a term that has a type and a value: the quotation of the
/// value, ` : `, and the quotation of the type.
pub open spec fn answer(t: Term) -> Seq<char>
    recommends
        t.infer(Map::empty()) is Ok,
{
    t.eval(Map::empty()).quote().render() + seq![' ', ':', ' '] + t.infer(
        Map::empty(),
    )->Ok_0.quote().render()
}

/// Whether `r` is what a session makes of the term `t`: the type error of
/// `t` where it has no type in the empty context, else `Overflow` where the
/// machine cannot evaluate it, else its answer.
pub open spec fn judged(t: Term, r: Result<String, Failure>) -> bool {
    match t.infer(Map::empty()) {
        Err(err) => r == Err::<String, Failure>(Failure::Type(err)),
        Ok(_) => if t.evaluable(Map::empty()) {
            r matches Ok(line) && line@ == answer(t)
        } else {
            r == Err::<String, Failure>(Failure::Overflow)
        },
    }
}

/// Whether `r` is what a session makes of the text `text`: the parse error
/// where the text is no term, else what it makes of the term.
pub open spec fn handled(text: Seq<char>, r: Result<String, Failure>) -> bool {
    match grammar::parse(text) {
        Parsed::Term(t) => judged(t, r),
        Parsed::NoTerm => r == Err::<String, Failure>(Failure::Parse(ParseError::NoTerm)),
        Parsed::Trailing(at) => r matches Err(Failure::Parse(ParseError::Trailing(n))) && n == at,
    }
}

/// Synthesises the type of `e` and evaluates it, both in the empty context,
/// and renders the answer.
pub fn judge(e: &Expr) -> (r: Result<String, Failure>)
    ensures
        judged(e@, r),
{
    let ctx = Context::new();
    let env = Env::new();
    match e.infer(&ctx) {
        Err(err) => Err(Failure::Type(err)),
        Ok(ty) => match e.checked_eval(&env) {
            None => Err(Failure::Overflow),
            Some(v) => {
                let mut line = v.quote().to_string();
                line.push(' ');
                line.push(':');
                line.push(' ');
                ty.quote().fmt(&mut line);
                assert(line@ =~= answer(e@));
                Ok(line)
            },
        },
    }
}

/// Reads the term on `line`, leaving aside the white space around it, and
/// answers it.
pub fn handle(line: &str) -> (r: Result<String, Failure>)
    ensures
        handled(trimmed(line@), r),
{
    match Expr::from_str(line) {
        Err(err) => Err(Failure::Parse(err)),
        Ok(e) => judge(&e),
    }
}

} // verus!
