//! The readers of the smallest parts of the syntax: blanks, words, numbers
//! and names.
use vstd::prelude::*;
use crate::grammar;

verus! {

/// Whether `c` is a blank.
pub(crate) fn is_space(c: char) -> (r: bool)
    ensures
        r == grammar::is_space(c),
{
    c == ' ' || c == '\t' || c == '\r' || c == '\n'
}

/// Whether `c` is a letter of ASCII.
pub(crate) fn is_alpha(c: char) -> (r: bool)
    ensures
        r == grammar::is_alpha(c),
{
    ('a' <= c && c <= 'z') || ('A' <= c && c <= 'Z')
}

/// Whether `c` is a decimal digit of ASCII.
pub(crate) fn is_digit(c: char) -> (r: bool)
    ensures
        r == grammar::is_digit(c),
{
    '0' <= c && c <= '9'
}

/// Whether a name may hold `c` behind its first character.
pub(crate) fn is_name_char(c: char) -> (r: bool)
    ensures
        r == grammar::is_name_char(c),
{
    is_alpha(c) || is_digit(c) || c == '_' || c == '\''
}

/// The position behind the blanks that start at `pos`.
pub(crate) fn skip_spaces(s: &Vec<char>, pos: usize) -> (end: usize)
    requires
        pos <= s.len(),
    ensures
        end == grammar::skip_spaces(s@, pos as int),
        pos <= end <= s.len(),
{
    let mut i: usize = pos;
    while i < s.len() && is_space(s[i])
        invariant
            pos <= i <= s.len(),
            grammar::skip_spaces(s@, i as int) == grammar::skip_spaces(s@, pos as int),
        decreases s.len() - i,
    {
        i = i + 1;
    }
    i
}

/// The position behind the digits that start at `pos`.
pub(crate) fn digits_end(s: &Vec<char>, pos: usize) -> (end: usize)
    requires
        pos <= s.len(),
    ensures
        end == grammar::digits_end(s@, pos as int),
        pos <= end <= s.len(),
        forall|i: int| pos <= i < end ==> grammar::is_digit(#[trigger] s@[i]),
{
    let mut i: usize = pos;
    while i < s.len() && is_digit(s[i])
        invariant
            pos <= i <= s.len(),
            grammar::digits_end(s@, i as int) == grammar::digits_end(s@, pos as int),
            forall|k: int| pos <= k < i ==> grammar::is_digit(#[trigger] s@[k]),
        decreases s.len() - i,
    {
        i = i + 1;
    }
    i
}

/// The position behind the name characters that start at `pos`.
pub(crate) fn name_end(s: &Vec<char>, pos: usize) -> (end: usize)
    requires
        pos <= s.len(),
    ensures
        end == grammar::name_end(s@, pos as int),
        pos <= end <= s.len(),
{
    let mut i: usize = pos;
    while i < s.len() && is_name_char(s[i])
        invariant
            pos <= i <= s.len(),
            grammar::name_end(s@, i as int) == grammar::name_end(s@, pos as int),
        decreases s.len() - i,
    {
        i = i + 1;
    }
    i
}

/// Whether the character `c` stands at `pos`.
pub(crate) fn has_char(s: &Vec<char>, pos: usize, c: char) -> (r: bool)
    ensures
        r == grammar::has_char(s@, pos as int, c),
{
    pos < s.len() && s[pos] == c
}

/// Whether `word` stands at `pos`.
pub(crate) fn has_word(s: &Vec<char>, pos: usize, word: &Vec<char>) -> (r: bool)
    ensures
        r == grammar::has_word(s@, pos as int, word@),
{
    if word.len() > s.len() || pos > s.len() - word.len() {
        return false;
    }
    let mut i: usize = 0;
    while i < word.len()
        invariant
            i <= word.len(),
            pos + word.len() <= s.len(),
            forall|k: int| 0 <= k < i ==> s@[pos + k] == word@[k],
        decreases word.len() - i,
    {
        if s[pos + i] != word[i] {
            proof {
                let part = s@.subrange(pos as int, pos + word.len());
                assert(part[i as int] == s@[pos + i]);
            }
            return false;
        }
        i = i + 1;
    }
    proof {
        assert(s@.subrange(pos as int, pos + word.len()) =~= word@);
    }
    true
}

/// The number that a run of digits spells does not shrink as the run grows.
pub proof fn lemma_number_grows(s: Seq<char>, from: int, mid: int, to: int)
    requires
        0 <= from <= mid <= to <= s.len(),
        forall|i: int| from <= i < to ==> grammar::is_digit(#[trigger] s[i]),
    ensures
        0 <= grammar::number(s, from, mid) <= grammar::number(s, from, to),
    decreases to - mid,
{
    if mid < to {
        lemma_number_grows(s, from, mid, to - 1);
        assert(grammar::is_digit(s[to - 1]));
    } else {
        lemma_number_is_natural(s, from, mid);
    }
}

/// A run of digits spells a natural number.
pub proof fn lemma_number_is_natural(s: Seq<char>, from: int, to: int)
    requires
        0 <= from <= to <= s.len(),
        forall|i: int| from <= i < to ==> grammar::is_digit(#[trigger] s[i]),
    ensures
        0 <= grammar::number(s, from, to),
    decreases to - from,
{
    if from < to {
        lemma_number_is_natural(s, from, to - 1);
        assert(grammar::is_digit(s[to - 1]));
    }
}

/// The number that the digits from `from` up to `to` spell, or `None` where
/// it exceeds `bound`.
pub(crate) fn number_up_to(s: &Vec<char>, from: usize, to: usize, bound: u64) -> (r: Option<u64>)
    requires
        from <= to <= s.len(),
        bound <= 9223372036854775808,
        forall|i: int| from <= i < to ==> grammar::is_digit(#[trigger] s@[i]),
    ensures
        match r {
            Some(n) => n == grammar::number(s@, from as int, to as int) && n <= bound,
            None => grammar::number(s@, from as int, to as int) > bound,
        },
{
    let mut acc: u64 = 0;
    let mut i: usize = from;
    while i < to
        invariant
            from <= i <= to <= s.len(),
            bound <= 9223372036854775808,
            acc == grammar::number(s@, from as int, i as int),
            acc <= bound,
            forall|k: int| from <= k < to ==> grammar::is_digit(#[trigger] s@[k]),
        decreases to - i,
    {
        assert(grammar::is_digit(s@[i as int]));
        let d: u64 = (s[i] as u32 - '0' as u32) as u64;
        let wide: u128 = acc as u128 * 10 + d as u128;
        assert(wide == grammar::number(s@, from as int, i + 1));
        if wide > bound as u128 {
            proof {
                lemma_number_grows(s@, from as int, i + 1, to as int);
            }
            return None;
        }
        acc = wide as u64;
        i = i + 1;
    }
    Some(acc)
}

/// Reads a universe level at `pos`.
pub(crate) fn parse_level(s: &Vec<char>, pos: usize) -> (r: Option<(u8, usize)>)
    requires
        pos <= s.len(),
    ensures
        match r {
            Some((n, end)) => grammar::parse_level(s@, pos as int) == Some((n as nat, end as int))
                && pos < end <= s.len(),
            None => grammar::parse_level(s@, pos as int) is None,
        },
{
    let end = digits_end(s, pos);
    if end == pos {
        return None;
    }
    match number_up_to(s, pos, end, 255) {
        Some(n) => Some((n as u8, end)),
        None => None,
    }
}

/// Reads an integer at `pos`.
pub(crate) fn parse_integer(s: &Vec<char>, pos: usize) -> (r: Option<(i64, usize)>)
    requires
        pos <= s.len(),
    ensures
        match r {
            Some((n, end)) => grammar::parse_integer(s@, pos as int) == Some((n as int, end as int))
                && pos < end <= s.len(),
            None => grammar::parse_integer(s@, pos as int) is None,
        },
{
    let negative = has_char(s, pos, '-');
    let start = if negative || has_char(s, pos, '+') {
        pos + 1
    } else {
        pos
    };
    let end = digits_end(s, start);
    if end == start {
        return None;
    }
    let bound: u64 = if negative {
        9223372036854775808
    } else {
        9223372036854775807
    };
    match number_up_to(s, start, end, bound) {
        Some(n) => {
            let value: i64 = if !negative {
                n as i64
            } else if n == 9223372036854775808 {
                i64::MIN
            } else {
                -(n as i64)
            };
            Some((value, end))
        },
        None => {
            proof {
                lemma_number_is_natural(s@, start as int, end as int);
            }
            None
        },
    }
}

/// Reads a name at `pos`.
pub(crate) fn parse_name(s: &Vec<char>, pos: usize) -> (r: Option<(String, usize)>)
    requires
        pos <= s.len(),
    ensures
        match r {
            Some((x, end)) => grammar::parse_name(s@, pos as int) == Some((x@, end as int))
                && pos < end <= s.len(),
            None => grammar::parse_name(s@, pos as int) is None,
        },
{
    if pos < s.len() && (is_alpha(s[pos]) || s[pos] == '_') {
        let end = name_end(s, pos + 1);
        let mut x = String::new();
        let mut i: usize = pos;
        while i < end
            invariant
                pos <= i <= end <= s.len(),
                x@ == s@.subrange(pos as int, i as int),
            decreases end - i,
        {
            x.push(s[i]);
            i = i + 1;
            assert(x@ =~= s@.subrange(pos as int, i as int));
        }
        Some((x, end))
    } else {
        None
    }
}

} // verus!
