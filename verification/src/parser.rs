//! The parser of the surface syntax.
use vstd::prelude::*;
use crate::error::ParseError;
use crate::expr::Expr;
use crate::grammar;
use crate::grammar::Parsed;
use crate::lexer::{has_char, has_word, parse_integer, parse_level, parse_name, skip_spaces};
use crate::text::{chars_of, trim, trimmed};

verus! {

/// Reads a universe at `pos`.
fn parse_universe(s: &Vec<char>, pos: usize) -> (r: Option<(Expr, usize)>)
    requires
        pos <= s.len(),
    ensures
        match r {
            Some((e, end)) => grammar::parse_universe(s@, pos as int) == Some((e@, end as int))
                && pos < end <= s.len(),
            None => grammar::parse_universe(s@, pos as int) is None,
        },
{
    if !has_char(s, pos, 'U') {
        return None;
    }
    let open = skip_spaces(s, pos + 1);
    if !has_char(s, open, '(') {
        return None;
    }
    match parse_level(s, skip_spaces(s, open + 1)) {
        Some((level, end)) => {
            let close = skip_spaces(s, end);
            if has_char(s, close, ')') {
                Some((Expr::U(level), close + 1))
            } else {
                None
            }
        },
        None => None,
    }
}

/// Reads at `pos` an atom that is no bracketed term.
fn parse_plain_atom(s: &Vec<char>, pos: usize) -> (r: Option<(Expr, usize)>)
    requires
        pos <= s.len(),
    ensures
        match r {
            Some((e, end)) => grammar::parse_plain_atom(s@, pos as int) == Some((e@, end as int))
                && pos < end <= s.len(),
            None => grammar::parse_plain_atom(s@, pos as int) is None,
        },
{
    if has_word(s, pos, &vec!['I', 'n', 't']) {
        return Some((Expr::Int, pos + 3));
    }
    if has_word(s, pos, &vec!['T', 'r', 'i', 'v', 'i', 'a', 'l']) {
        return Some((Expr::Trivial, pos + 7));
    }
    if has_word(s, pos, &vec!['s', 'o', 'l', 'e']) {
        return Some((Expr::Sole, pos + 4));
    }
    if let Some((i, end)) = parse_integer(s, pos) {
        return Some((Expr::IntLit(i), end));
    }
    if let Some(found) = parse_universe(s, pos) {
        return Some(found);
    }
    if let Some((x, end)) = parse_name(s, pos) {
        return Some((Expr::Var(x), end));
    }
    None
}

/// Reads an atom at `pos`.
fn parse_atom(s: &Vec<char>, pos: usize) -> (r: Option<(Expr, usize)>)
    requires
        pos <= s.len(),
    ensures
        match r {
            Some((e, end)) => grammar::parse_atom(s@, pos as int) == Some((e@, end as int))
                && pos < end <= s.len(),
            None => grammar::parse_atom(s@, pos as int) is None,
        },
    decreases s.len() - pos, 0nat,
{
    if has_char(s, pos, '(') {
        let inner = skip_spaces(s, pos + 1);
        match parse_expr(s, inner) {
            Some((e, end)) => {
                let close = skip_spaces(s, end);
                if has_char(s, close, ')') {
                    Some((e, close + 1))
                } else {
                    None
                }
            },
            None => None,
        }
    } else {
        parse_plain_atom(s, pos)
    }
}

/// Reads a sum at `pos`.
fn parse_sum(s: &Vec<char>, pos: usize) -> (r: Option<(Expr, usize)>)
    requires
        pos <= s.len(),
    ensures
        match r {
            Some((e, end)) => grammar::parse_sum(s@, pos as int) == Some((e@, end as int))
                && pos < end <= s.len(),
            None => grammar::parse_sum(s@, pos as int) is None,
        },
    decreases s.len() - pos, 2nat,
{
    match parse_atom(s, pos) {
        None => None,
        Some((first, first_end)) => {
            let ghost whole = grammar::parse_sum_tail(s@, first@, first_end as int);
            let mut acc = first;
            let mut end = first_end;
            loop
                invariant
                    pos < end <= s.len(),
                    grammar::parse_sum_tail(s@, acc@, end as int) == whole,
                    grammar::parse_sum(s@, pos as int) == Some(whole),
                decreases s.len() - end,
            {
                let plus = skip_spaces(s, end);
                if !has_char(s, plus, '+') {
                    return Some((acc, end));
                }
                let next = skip_spaces(s, plus + 1);
                match parse_atom(s, next) {
                    None => {
                        return Some((acc, end));
                    },
                    Some((t, next_end)) => {
                        acc = Expr::Add(Box::new(acc), Box::new(t));
                        end = next_end;
                    },
                }
            }
        },
    }
}

/// Reads a term at `pos`.
fn parse_expr(s: &Vec<char>, pos: usize) -> (r: Option<(Expr, usize)>)
    requires
        pos <= s.len(),
    ensures
        match r {
            Some((e, end)) => grammar::parse_expr(s@, pos as int) == Some((e@, end as int))
                && pos < end <= s.len(),
            None => grammar::parse_expr(s@, pos as int) is None,
        },
    decreases s.len() - pos, 3nat,
{
    match parse_sum(s, pos) {
        None => None,
        Some((e, end)) => {
            let colon = skip_spaces(s, end);
            if !has_char(s, colon, ':') {
                return Some((e, end));
            }
            let next = skip_spaces(s, colon + 1);
            match parse_sum(s, next) {
                Some((t, end2)) => Some((Expr::Ann(Box::new(e), Box::new(t)), end2)),
                None => Some((e, end)),
            }
        },
    }
}

/// Whether a result of the parser is what the grammar gives for the text.
pub open spec fn agrees(r: Result<Expr, ParseError>, text: Seq<char>) -> bool {
    match r {
        Ok(e) => grammar::parse(text) == Parsed::Term(e@),
        Err(ParseError::NoTerm) => grammar::parse(text) == Parsed::NoTerm,
        Err(ParseError::Trailing(at)) => grammar::parse(text) == Parsed::Trailing(at as int),
    }
}

impl Expr {
    /// Reads `input` as a term. The whole of it must be the term: blanks are
    /// read between the parts of a term, not before it or behind it.
    pub fn parse(input: &str) -> (r: Result<Expr, ParseError>)
        ensures
            agrees(r, input@),
            r matches Err(ParseError::Trailing(at)) ==> 0 < at < input@.len(),
    {
        let s = chars_of(input);
        match parse_expr(&s, 0) {
            Some((e, end)) => if end == s.len() {
                Ok(e)
            } else {
                Err(ParseError::Trailing(end))
            },
            None => Err(ParseError::NoTerm),
        }
    }

    /// Reads `s` as a term, leaving aside the white space at its start and at
    /// its end.
    pub fn from_str(s: &str) -> (r: Result<Expr, ParseError>)
        ensures
            agrees(r, trimmed(s@)),
    {
        Expr::parse(trim(s))
    }
}

impl std::str::FromStr for Expr {
    type Err = ParseError;

    /// Reads `s` as a term, as the function of the same name on `Expr` does.
    fn from_str(s: &str) -> (r: Result<Expr, ParseError>)
        ensures
            agrees(r, trimmed(s@)),
    {
        Expr::from_str(s)
    }
}

} // verus!
