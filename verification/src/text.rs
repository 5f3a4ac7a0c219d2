//! Searching in text, and writing numbers as text.

use vstd::prelude::*;
use vstd::std_specs::iter::IteratorSpec;
use vstd::string::StringExecFns;

verus! {

/// Whether `pat` lies in `s` at the position `at`.
pub open spec fn occurs_at(s: Seq<char>, pat: Seq<char>, at: int) -> bool {
    0 <= at && at + pat.len() <= s.len() && s.subrange(at, at + pat.len()) == pat
}

/// The first position at or after `from` at which `pat` lies in `s`.
pub open spec fn first_from(s: Seq<char>, pat: Seq<char>, from: int) -> Option<int>
    decreases s.len() - from + 1,
{
    if from < 0 || from + pat.len() > s.len() {
        None
    } else if occurs_at(s, pat, from) {
        Some(from)
    } else {
        first_from(s, pat, from + 1)
    }
}

/// The last position at or before `upto` at which `pat` lies in `s`.
pub open spec fn last_upto(s: Seq<char>, pat: Seq<char>, upto: int) -> Option<int>
    decreases upto + 1,
{
    if upto < 0 {
        None
    } else if occurs_at(s, pat, upto) {
        Some(upto)
    } else {
        last_upto(s, pat, upto - 1)
    }
}

/// The first position at which `pat` lies in `s`.
pub open spec fn first_occurrence(s: Seq<char>, pat: Seq<char>) -> Option<int> {
    first_from(s, pat, 0)
}

/// The last position at which `pat` lies in `s`.
pub open spec fn last_occurrence(s: Seq<char>, pat: Seq<char>) -> Option<int> {
    last_upto(s, pat, s.len() - pat.len())
}

/// `first_from` finds an occurrence before which, from `from` on, there is
/// none; it finds nothing only where there is none from `from` on.
pub proof fn lemma_first_from(s: Seq<char>, pat: Seq<char>, from: int)
    requires
        0 <= from,
    ensures
        match first_from(s, pat, from) {
            Some(p) => from <= p && occurs_at(s, pat, p) && forall|q: int|
                from <= q < p ==> !occurs_at(s, pat, q),
            None => forall|q: int| from <= q ==> !occurs_at(s, pat, q),
        },
    decreases s.len() - from + 1,
{
    if from + pat.len() <= s.len() && !occurs_at(s, pat, from) {
        lemma_first_from(s, pat, from + 1);
    }
}

/// `last_upto` finds an occurrence after which, up to `upto`, there is none;
/// it finds nothing only where there is none up to `upto`.
pub proof fn lemma_last_upto(s: Seq<char>, pat: Seq<char>, upto: int)
    ensures
        match last_upto(s, pat, upto) {
            Some(p) => p <= upto && occurs_at(s, pat, p) && forall|q: int|
                p < q <= upto ==> !occurs_at(s, pat, q),
            None => forall|q: int| q <= upto ==> !occurs_at(s, pat, q),
        },
    decreases upto + 1,
{
    if upto >= 0 && !occurs_at(s, pat, upto) {
        lemma_last_upto(s, pat, upto - 1);
    }
}

/// The characters of `s`.
pub fn chars_of(s: &str) -> (v: Vec<char>)
    ensures
        v@ == s@,
{
    broadcast use vstd::string::group_string_axioms;

    let mut v: Vec<char> = Vec::new();
    let mut it = s.chars();
    loop
        invariant
            it.obeys_prophetic_iter_laws(),
            it.decrease() is Some,
            v@ + it.remaining() == s@,
        decreases it.decrease()->0,
    {
        let ghost before = it;
        match it.next() {
            Some(c) => {
                v.push(c);
                proof {
                    assert(v@ + it.remaining() =~= (v@.drop_last() + before.remaining()));
                }
            },
            None => {
                proof {
                    assert(v@ + it.remaining() =~= v@);
                }
                return v;
            },
        }
    }
}

/// Decides whether `pat` lies in `s` at `at`.
pub fn lies_at(s: &Vec<char>, pat: &Vec<char>, at: usize) -> (r: bool)
    requires
        at + pat@.len() <= s@.len(),
    ensures
        r == occurs_at(s@, pat@, at as int),
{
    let n = s.len();
    let mut k: usize = 0;
    while k < pat.len()
        invariant
            k <= pat@.len(),
            at + pat@.len() <= s@.len() == n,
            forall|j: int| 0 <= j < k ==> s@[at + j] == pat@[j],
        decreases pat@.len() - k,
    {
        if s[at + k] != pat[k] {
            proof {
                assert(s@.subrange(at as int, at + pat@.len())[k as int] == s@[at + k]);
            }
            return false;
        }
        k = k + 1;
    }
    proof {
        assert(s@.subrange(at as int, at + pat@.len()) =~= pat@);
    }
    true
}

/// Finds the first position at or after `from` at which `pat` lies in `s`.
pub fn find_first(s: &Vec<char>, pat: &Vec<char>, from: usize) -> (r: Option<usize>)
    ensures
        match first_from(s@, pat@, from as int) {
            Some(p) => r == Some(p as usize) && from <= p && p + pat@.len() <= s@.len(),
            None => r is None,
        },
{
    if pat.len() > s.len() || from > s.len() - pat.len() {
        return None;
    }
    let last: usize = s.len() - pat.len();
    let mut i: usize = from;
    loop
        invariant
            from <= i <= last,
            last == s@.len() - pat@.len(),
            first_from(s@, pat@, from as int) == first_from(s@, pat@, i as int),
        decreases last - i,
    {
        if lies_at(s, pat, i) {
            return Some(i);
        }
        if i == last {
            assert(first_from(s@, pat@, i + 1) is None);
            return None;
        }
        i = i + 1;
    }
}

/// Finds the last position at which `pat` lies in `s`.
pub fn find_last(s: &Vec<char>, pat: &Vec<char>) -> (r: Option<usize>)
    ensures
        match last_occurrence(s@, pat@) {
            Some(p) => r == Some(p as usize) && 0 <= p && p + pat@.len() <= s@.len(),
            None => r is None,
        },
{
    if pat.len() > s.len() {
        return None;
    }
    let mut i: usize = s.len() - pat.len();
    loop
        invariant
            i + pat@.len() <= s@.len(),
            last_occurrence(s@, pat@) == last_upto(s@, pat@, i as int),
        decreases i,
    {
        if lies_at(s, pat, i) {
            return Some(i);
        }
        if i == 0 {
            assert(last_upto(s@, pat@, -1) is None);
            return None;
        }
        i = i - 1;
    }
}

/// The character of the decimal digit `d`.
pub open spec fn digit(d: nat) -> char {
    (48 + d) as char
}

/// The decimal digits of `n`, without leading zeros.
pub open spec fn decimal(n: nat) -> Seq<char>
    decreases n,
{
    if n < 10 {
        seq![digit(n)]
    } else {
        decimal(n / 10).push(digit(n % 10))
    }
}

/// The decimal digit `d` as text.
pub fn digit_str(d: u8) -> (s: &'static str)
    requires
        d < 10,
    ensures
        s@ == seq![digit(d as nat)],
{
    proof {
        reveal_strlit("0");
        reveal_strlit("1");
        reveal_strlit("2");
        reveal_strlit("3");
        reveal_strlit("4");
        reveal_strlit("5");
        reveal_strlit("6");
        reveal_strlit("7");
        reveal_strlit("8");
        reveal_strlit("9");
    }
    let s = match d {
        0 => "0",
        1 => "1",
        2 => "2",
        3 => "3",
        4 => "4",
        5 => "5",
        6 => "6",
        7 => "7",
        8 => "8",
        _ => "9",
    };
    proof {
        assert(s@ =~= seq![digit(d as nat)]);
    }
    s
}

/// Appends the decimal digits of `n` to `s`.
pub fn push_decimal(s: &mut String, n: u64)
    ensures
        final(s)@ == old(s)@ + decimal(n as nat),
    decreases n,
{
    if n >= 10 {
        push_decimal(s, n / 10);
    }
    s.append(digit_str((n % 10) as u8));
    proof {
        if n >= 10 {
            assert(s@ =~= old(s)@ + decimal((n / 10) as nat).push(digit((n % 10) as nat)));
        } else {
            assert(s@ =~= old(s)@ + seq![digit(n as nat)]);
        }
    }
}

} // verus!
