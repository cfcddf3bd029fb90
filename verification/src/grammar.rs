//! The surface syntax, as functions on sequences of characters.
//!
//! ```text
//! expr  := sum (':' sum)?
//! sum   := atom ('+' atom)*
//! atom  := '(' expr ')' | 'Int' | 'Trivial' | 'sole'
//!        | integer | 'U' '(' level ')' | name
//! name  := (letter | '_') (letter | digit | '_' | '\'')*
//! ```
//!
//! Each function reads at a position and gives what it read with the
//! position behind it, or `None`. The alternatives of an atom are tried in
//! the order of the grammar and the first that reads anything is taken for
//! good, so `Intx` is the type `Int` followed by `x`, not a name. Spaces, tabs
//! and line ends may stand around a bracketed term, around `+` and `:`, and
//! around the brackets and the level of a universe.
use vstd::prelude::*;
use crate::model::Term;

verus! {

/// Blank characters: space, tab, carriage return, line feed.
pub open spec fn is_space(c: char) -> bool {
    c == ' ' || c == '\t' || c == '\r' || c == '\n'
}

/// The letters of ASCII.
pub open spec fn is_alpha(c: char) -> bool {
    ('a' <= c && c <= 'z') || ('A' <= c && c <= 'Z')
}

/// The decimal digits of ASCII.
pub open spec fn is_digit(c: char) -> bool {
    '0' <= c && c <= '9'
}

/// The characters that a name may hold behind its first.
pub open spec fn is_name_char(c: char) -> bool {
    is_alpha(c) || is_digit(c) || c == '_' || c == '\''
}

/// The number that a decimal digit stands for.
pub open spec fn digit_value(c: char) -> int
    recommends
        is_digit(c),
{
    c as int - '0' as int
}

/// The position behind the blanks that start at `pos`.
pub open spec fn skip_spaces(s: Seq<char>, pos: int) -> int
    decreases s.len() - pos,
{
    if 0 <= pos < s.len() && is_space(s[pos]) {
        skip_spaces(s, pos + 1)
    } else {
        pos
    }
}

/// The position behind the digits that start at `pos`.
pub open spec fn digits_end(s: Seq<char>, pos: int) -> int
    decreases s.len() - pos,
{
    if 0 <= pos < s.len() && is_digit(s[pos]) {
        digits_end(s, pos + 1)
    } else {
        pos
    }
}

/// The position behind the name characters that start at `pos`.
pub open spec fn name_end(s: Seq<char>, pos: int) -> int
    decreases s.len() - pos,
{
    if 0 <= pos < s.len() && is_name_char(s[pos]) {
        name_end(s, pos + 1)
    } else {
        pos
    }
}

/// The number that the digits from `from` up to `to` spell in decimal.
pub open spec fn number(s: Seq<char>, from: int, to: int) -> int
    recommends
        0 <= from <= to <= s.len(),
    decreases to - from,
{
    if to <= from {
        0
    } else {
        number(s, from, to - 1) * 10 + digit_value(s[to - 1])
    }
}

/// Whether `word` stands at `pos`.
pub open spec fn has_word(s: Seq<char>, pos: int, word: Seq<char>) -> bool {
    0 <= pos && pos + word.len() <= s.len() && s.subrange(pos, pos + word.len()) == word
}

/// Whether the character `c` stands at `pos`.
pub open spec fn has_char(s: Seq<char>, pos: int, c: char) -> bool {
    0 <= pos < s.len() && s[pos] == c
}

/// A universe level: one or more digits that spell a number up to 255.
pub open spec fn parse_level(s: Seq<char>, pos: int) -> Option<(nat, int)> {
    let end = digits_end(s, pos);
    let n = number(s, pos, end);
    if pos < end && n <= u8::MAX {
        Some((n as nat, end))
    } else {
        None
    }
}

/// An integer: an optional sign, `-` or `+`, and one or more digits that
/// spell a 64-bit signed integer.
pub open spec fn parse_integer(s: Seq<char>, pos: int) -> Option<(int, int)> {
    let start = if has_char(s, pos, '-') || has_char(s, pos, '+') {
        pos + 1
    } else {
        pos
    };
    let end = digits_end(s, start);
    let n = if has_char(s, pos, '-') {
        -number(s, start, end)
    } else {
        number(s, start, end)
    };
    if start < end && i64::MIN <= n <= i64::MAX {
        Some((n, end))
    } else {
        None
    }
}

/// A name: a letter or `_`, then name characters as far as they go.
pub open spec fn parse_name(s: Seq<char>, pos: int) -> Option<(Seq<char>, int)> {
    if 0 <= pos < s.len() && (is_alpha(s[pos]) || s[pos] == '_') {
        let end = name_end(s, pos + 1);
        Some((s.subrange(pos, end), end))
    } else {
        None
    }
}

/// A universe: `U`, then a level in round brackets.
pub open spec fn parse_universe(s: Seq<char>, pos: int) -> Option<(Term, int)> {
    if has_char(s, pos, 'U') {
        let open = skip_spaces(s, pos + 1);
        if has_char(s, open, '(') {
            match parse_level(s, skip_spaces(s, open + 1)) {
                Some((level, end)) => {
                    let close = skip_spaces(s, end);
                    if has_char(s, close, ')') {
                        Some((Term::U(level), close + 1))
                    } else {
                        None
                    }
                },
                None => None,
            }
        } else {
            None
        }
    } else {
        None
    }
}

/// An atom that is no bracketed term: the first of `Int`, `Trivial`, `sole`,
/// an integer, a universe and a name that stands at `pos`.
pub open spec fn parse_plain_atom(s: Seq<char>, pos: int) -> Option<(Term, int)> {
    if has_word(s, pos, seq!['I', 'n', 't']) {
        Some((Term::Int, pos + 3))
    } else if has_word(s, pos, seq!['T', 'r', 'i', 'v', 'i', 'a', 'l']) {
        Some((Term::Trivial, pos + 7))
    } else if has_word(s, pos, seq!['s', 'o', 'l', 'e']) {
        Some((Term::Sole, pos + 4))
    } else if let Some((i, end)) = parse_integer(s, pos) {
        Some((Term::IntLit(i), end))
    } else if let Some(found) = parse_universe(s, pos) {
        Some(found)
    } else if let Some((x, end)) = parse_name(s, pos) {
        Some((Term::Var(x), end))
    } else {
        None
    }
}

/// Whether a reader that started at `pos` and stopped at `end` has moved on
/// and stayed within the text. Every atom that is read does so
/// (`lemma_atom_advances`); the readers test it where they go on reading, so
/// that their recursion is well founded on the face of it.
pub open spec fn advanced(s: Seq<char>, pos: int, end: int) -> bool {
    pos < end <= s.len()
}

/// An atom: a term in round brackets, or else a plain atom.
pub open spec fn parse_atom(s: Seq<char>, pos: int) -> Option<(Term, int)>
    decreases s.len() - pos, 0nat,
{
    if has_char(s, pos, '(') {
        let inner = skip_spaces(s, pos + 1);
        if pos < inner <= s.len() {
            match parse_expr(s, inner) {
                Some((t, end)) => {
                    let close = skip_spaces(s, end);
                    if has_char(s, close, ')') {
                        Some((t, close + 1))
                    } else {
                        None
                    }
                },
                None => None,
            }
        } else {
            None
        }
    } else {
        parse_plain_atom(s, pos)
    }
}

/// What follows the first atoms of a sum, whose sum so far is `acc`: as long
/// as a `+` and an atom follow, the atom is added on the right. A `+` without
/// an atom behind it is not read.
pub open spec fn parse_sum_tail(s: Seq<char>, acc: Term, pos: int) -> (Term, int)
    decreases s.len() - pos, 1nat,
{
    let plus = skip_spaces(s, pos);
    if pos <= plus && has_char(s, plus, '+') {
        let next = skip_spaces(s, plus + 1);
        if plus < next <= s.len() {
            match parse_atom(s, next) {
                Some((t, end)) => if advanced(s, next, end) {
                    parse_sum_tail(s, Term::Add(Box::new(acc), Box::new(t)), end)
                } else {
                    (acc, pos)
                },
                None => (acc, pos),
            }
        } else {
            (acc, pos)
        }
    } else {
        (acc, pos)
    }
}

/// A sum: one or more atoms with `+` between them, added up from the left.
pub open spec fn parse_sum(s: Seq<char>, pos: int) -> Option<(Term, int)>
    decreases s.len() - pos, 2nat,
{
    match parse_atom(s, pos) {
        Some((t, end)) => if advanced(s, pos, end) {
            Some(parse_sum_tail(s, t, end))
        } else {
            None
        },
        None => None,
    }
}

/// A term: a sum, and where `:` and a second sum follow, the first annotated
/// with the second. A `:` without a sum behind it is not read.
pub open spec fn parse_expr(s: Seq<char>, pos: int) -> Option<(Term, int)>
    decreases s.len() - pos, 3nat,
{
    match parse_sum(s, pos) {
        Some((t, end)) => {
            let colon = skip_spaces(s, end);
            let next = skip_spaces(s, colon + 1);
            if pos < end <= colon < next <= s.len() && has_char(s, colon, ':') {
                match parse_sum(s, next) {
                    Some((ty, end2)) => Some((Term::Ann(Box::new(t), Box::new(ty)), end2)),
                    None => Some((t, end)),
                }
            } else {
                Some((t, end))
            }
        },
        None => None,
    }
}

/// What reading a whole text gives.
pub enum Parsed {
    /// The text is a term.
    Term(Term),
    /// No term stands at the start of the text.
    NoTerm,
    /// A term stands at the start and the text goes on behind it, from the
    /// given position.
    Trailing(int),
}

/// Reads a whole text: a term with nothing before it and nothing behind it.
pub open spec fn parse(s: Seq<char>) -> Parsed {
    match parse_expr(s, 0) {
        Some((t, end)) => if end == s.len() {
            Parsed::Term(t)
        } else {
            Parsed::Trailing(end)
        },
        None => Parsed::NoTerm,
    }
}

/// Skipping blanks moves forward and stays within the text.
pub proof fn lemma_skip_spaces_bounds(s: Seq<char>, pos: int)
    requires
        0 <= pos <= s.len(),
    ensures
        pos <= skip_spaces(s, pos) <= s.len(),
    decreases s.len() - pos,
{
    if pos < s.len() && is_space(s[pos]) {
        lemma_skip_spaces_bounds(s, pos + 1);
    }
}

/// A run of digits ends within the text.
pub proof fn lemma_digits_end_bounds(s: Seq<char>, pos: int)
    requires
        0 <= pos <= s.len(),
    ensures
        pos <= digits_end(s, pos) <= s.len(),
    decreases s.len() - pos,
{
    if pos < s.len() && is_digit(s[pos]) {
        lemma_digits_end_bounds(s, pos + 1);
    }
}

/// A run of name characters ends within the text.
pub proof fn lemma_name_end_bounds(s: Seq<char>, pos: int)
    requires
        0 <= pos <= s.len(),
    ensures
        pos <= name_end(s, pos) <= s.len(),
    decreases s.len() - pos,
{
    if pos < s.len() && is_name_char(s[pos]) {
        lemma_name_end_bounds(s, pos + 1);
    }
}

/// A plain atom that is read takes at least one character and ends within
/// the text.
pub proof fn lemma_plain_atom_advances(s: Seq<char>, pos: int)
    requires
        0 <= pos <= s.len(),
    ensures
        parse_plain_atom(s, pos) matches Some((_, end)) ==> advanced(s, pos, end),
{
    if pos < s.len() {
        lemma_digits_end_bounds(s, pos);
        lemma_digits_end_bounds(s, pos + 1);
        lemma_name_end_bounds(s, pos + 1);
        lemma_skip_spaces_bounds(s, pos + 1);
        let open = skip_spaces(s, pos + 1);
        if open < s.len() {
            lemma_skip_spaces_bounds(s, open + 1);
            let level = skip_spaces(s, open + 1);
            lemma_digits_end_bounds(s, level);
            lemma_skip_spaces_bounds(s, digits_end(s, level));
        }
    }
}

/// An atom that is read takes at least one character and ends within the
/// text.
pub proof fn lemma_atom_advances(s: Seq<char>, pos: int)
    requires
        0 <= pos <= s.len(),
    ensures
        parse_atom(s, pos) matches Some((_, end)) ==> advanced(s, pos, end),
    decreases s.len() - pos, 0nat,
{
    if has_char(s, pos, '(') {
        let inner = skip_spaces(s, pos + 1);
        lemma_skip_spaces_bounds(s, pos + 1);
        lemma_expr_advances(s, inner);
        if let Some((_, end)) = parse_expr(s, inner) {
            lemma_skip_spaces_bounds(s, end);
        }
    } else {
        lemma_plain_atom_advances(s, pos);
    }
}

/// The rest of a sum ends where it started or later, within the text.
pub proof fn lemma_sum_tail_advances(s: Seq<char>, acc: Term, pos: int)
    requires
        0 <= pos <= s.len(),
    ensures
        pos <= parse_sum_tail(s, acc, pos).1 <= s.len(),
    decreases s.len() - pos, 1nat,
{
    let plus = skip_spaces(s, pos);
    lemma_skip_spaces_bounds(s, pos);
    if has_char(s, plus, '+') {
        let next = skip_spaces(s, plus + 1);
        lemma_skip_spaces_bounds(s, plus + 1);
        lemma_atom_advances(s, next);
        if let Some((t, end)) = parse_atom(s, next) {
            lemma_sum_tail_advances(s, Term::Add(Box::new(acc), Box::new(t)), end);
        }
    }
}

/// A sum that is read takes at least one character and ends within the
/// text.
pub proof fn lemma_sum_advances(s: Seq<char>, pos: int)
    requires
        0 <= pos <= s.len(),
    ensures
        parse_sum(s, pos) matches Some((_, end)) ==> advanced(s, pos, end),
    decreases s.len() - pos, 2nat,
{
    lemma_atom_advances(s, pos);
    if let Some((t, end)) = parse_atom(s, pos) {
        lemma_sum_tail_advances(s, t, end);
    }
}

/// A term that is read takes at least one character and ends within the
/// text.
pub proof fn lemma_expr_advances(s: Seq<char>, pos: int)
    requires
        0 <= pos <= s.len(),
    ensures
        parse_expr(s, pos) matches Some((_, end)) ==> advanced(s, pos, end),
    decreases s.len() - pos, 3nat,
{
    lemma_sum_advances(s, pos);
    if let Some((_, end)) = parse_sum(s, pos) {
        let colon = skip_spaces(s, end);
        lemma_skip_spaces_bounds(s, end);
        if has_char(s, colon, ':') {
            let next = skip_spaces(s, colon + 1);
            lemma_skip_spaces_bounds(s, colon + 1);
            lemma_sum_advances(s, next);
        }
    }
}

} // verus!
