use vstd::prelude::*;
use crate::record::{name_in, LocalName};

verus! {

/// The segments of a property path, as character sequences.
pub open spec fn segments(props: Seq<String>) -> Seq<Seq<char>> {
    props.map_values(|s: String| s@)
}

/// Segment `i` of a path, if the path is that long.
pub open spec fn seg(p: Seq<Seq<char>>, i: int) -> Option<Seq<char>> {
    if 0 <= i < p.len() {
        Some(p[i])
    } else {
        None
    }
}

/// Whether a segment is exactly the given word (no case folding, no trimming).
pub fn seg_is(s: &String, word: &str) -> (r: bool)
    ensures
        r == (s@ == word@),
{
    let w: String = word.to_owned();
    *s == w
}

/// Whether segment `i` of the path is exactly `word`.
pub fn seg_at_is(props: &[String], i: usize, word: &str) -> (r: bool)
    ensures
        r == (seg(segments(props@), i as int) == Some(word@)),
{
    if i < props.len() {
        seg_is(&props[i], word)
    } else {
        false
    }
}

pub open spec fn is_digit(c: char) -> bool {
    48 <= (c as u32) && (c as u32) <= 57
}

pub open spec fn digit_of(c: char) -> nat {
    ((c as u32) - 48) as nat
}

/// Whether every character of `s` is an ASCII decimal digit.
pub open spec fn all_digits(s: Seq<char>) -> bool {
    forall|i: int| 0 <= i < s.len() ==> is_digit(#[trigger] s[i])
}

/// The number that a string of decimal digits denotes.
pub open spec fn digits_value(s: Seq<char>) -> nat
    decreases s.len(),
{
    if s.len() == 0 {
        0
    } else {
        digits_value(s.drop_last()) * 10 + digit_of(s.last())
    }
}

/// The digits of an index segment: the segment without one leading `+`.
pub open spec fn index_digits(s: Seq<char>) -> Seq<char> {
    if s.len() > 0 && s[0] == '+' {
        s.drop_first()
    } else {
        s
    }
}

/// The non-negative integer that a segment denotes, read as a `usize` is read
/// by Rust: an optional `+`, then at least one decimal digit, the value fitting
/// in `usize`. Any other segment denotes no index.
pub open spec fn index_value(s: Seq<char>) -> Option<nat> {
    let d = index_digits(s);
    if d.len() > 0 && all_digits(d) && digits_value(d) <= usize::MAX {
        Some(digits_value(d))
    } else {
        None
    }
}

proof fn lemma_digits_value_grows(s: Seq<char>, k: int)
    requires
        0 <= k <= s.len(),
    ensures
        digits_value(s.subrange(0, k)) <= digits_value(s),
    decreases s.len() - k,
{
    if k < s.len() {
        lemma_digits_value_grows(s, k + 1);
        let t = s.subrange(0, k + 1);
        assert(t.drop_last() =~= s.subrange(0, k));
    } else {
        assert(s.subrange(0, k) =~= s);
    }
}

/// Parses an index segment the way `str::parse::<usize>` does.
pub fn parse_index(s: &String) -> (r: Option<usize>)
    ensures
        match r {
            Some(v) => index_value(s@) == Some(v as nat),
            None => index_value(s@) is None,
        },
{
    let t: &str = s.as_str();
    let n: usize = t.unicode_len();
    if n == 0 {
        return None;
    }
    let start: usize = if t.get_char(0) == '+' { 1 } else { 0 };
    let ghost d = index_digits(s@);
    assert(d =~= s@.subrange(start as int, n as int));
    if start == n {
        return None;
    }
    let mut i: usize = start;
    let mut v: usize = 0;
    while i < n
        invariant
            start <= i <= n,
            n == s@.len(),
            t@ == s@,
            d == index_digits(s@),
            d =~= s@.subrange(start as int, n as int),
            all_digits(s@.subrange(start as int, i as int)),
            v as nat == digits_value(s@.subrange(start as int, i as int)),
        decreases n - i,
    {
        let c = t.get_char(i);
        let ghost pre = s@.subrange(start as int, i as int);
        let ghost next = s@.subrange(start as int, i as int + 1);
        assert(next.drop_last() =~= pre);
        assert(d[i - start] == c);
        let code: u32 = c as u32;
        if code < 48 || code > 57 {
            assert(!is_digit(d[i - start]));
            assert(!all_digits(d));
            return None;
        }
        let dg: usize = (code - 48) as usize;
        assert(digits_value(next) == v * 10 + dg);
        if v > (usize::MAX - dg) / 10 {
            assert(v * 10 + dg > usize::MAX) by (nonlinear_arith)
                requires
                    v > (usize::MAX - dg) / 10,
                    dg <= 9,
            ;
            assert(next =~= d.subrange(0, (i - start + 1) as int));
            proof { lemma_digits_value_grows(d, (i - start + 1) as int); }
            assert(digits_value(d) > usize::MAX);
            return None;
        }
        assert(v * 10 + dg <= usize::MAX) by (nonlinear_arith)
            requires
                v <= (usize::MAX - dg) / 10,
                dg <= 9,
        ;
        v = v * 10 + dg;
        i = i + 1;
    }
    assert(s@.subrange(start as int, n as int) =~= d);
    Some(v)
}

/// Looks up the name in `lang` among localized names.
pub fn find_name(names: &Vec<LocalName>, lang: &String) -> (r: Option<String>)
    ensures
        match r {
            Some(s) => name_in(names@, lang@) == Some(s@),
            None => name_in(names@, lang@) is None,
        },
{
    let mut i: usize = 0;
    assert(names@.subrange(0, names@.len() as int) =~= names@);
    while i < names.len()
        invariant
            i <= names@.len(),
            name_in(names@, lang@) == name_in(names@.subrange(i as int, names@.len() as int), lang@),
        decreases names@.len() - i,
    {
        let ghost rest = names@.subrange(i as int, names@.len() as int);
        assert(rest.drop_first() =~= names@.subrange(i + 1, names@.len() as int));
        if names[i].lang == *lang {
            return Some(names[i].name.clone());
        }
        i = i + 1;
    }
    None
}

} // verus!
