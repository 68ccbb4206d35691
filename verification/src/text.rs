//! Character-level helpers on location strings: searching, slicing, comparing.

use vstd::prelude::*;
use vstd::std_specs::iter::IteratorSpec;
use vstd::utf8::decode_utf8;
use vstd::utf8::valid_utf8;

verus! {

/// `pat` stands in `s` at index `i`.
pub open spec fn occurs_at(s: Seq<char>, pat: Seq<char>, i: int) -> bool {
    &&& 0 <= i
    &&& i + pat.len() <= s.len()
    &&& s.subrange(i, i + pat.len()) == pat
}

/// `i` is the least index at which `pat` stands in `s`.
pub open spec fn is_first_occurrence(s: Seq<char>, pat: Seq<char>, i: int) -> bool {
    &&& occurs_at(s, pat, i)
    &&& forall|j: int| 0 <= j < i ==> !occurs_at(s, pat, j)
}

/// `i` is the greatest index at which `pat` stands in `s`.
pub open spec fn is_last_occurrence(s: Seq<char>, pat: Seq<char>, i: int) -> bool {
    &&& occurs_at(s, pat, i)
    &&& forall|j: int| i < j ==> !occurs_at(s, pat, j)
}

/// The least index at which `pat` stands in `s`, if it stands anywhere.
pub open spec fn first_occurrence(s: Seq<char>, pat: Seq<char>) -> Option<int> {
    if exists|i: int| is_first_occurrence(s, pat, i) {
        Some(choose|i: int| is_first_occurrence(s, pat, i))
    } else {
        None
    }
}

/// The greatest index at which `pat` stands in `s`, if it stands anywhere.
pub open spec fn last_occurrence(s: Seq<char>, pat: Seq<char>) -> Option<int> {
    if exists|i: int| is_last_occurrence(s, pat, i) {
        Some(choose|i: int| is_last_occurrence(s, pat, i))
    } else {
        None
    }
}

/// The part of `s` before the first `pat`; all of `s` where `pat` does not occur.
pub open spec fn before_first(s: Seq<char>, pat: Seq<char>) -> Seq<char> {
    match first_occurrence(s, pat) {
        Some(i) => s.take(i),
        None => s,
    }
}

/// The part of `s` after the first `pat`; empty where `pat` does not occur.
pub open spec fn after_first(s: Seq<char>, pat: Seq<char>) -> Seq<char> {
    match first_occurrence(s, pat) {
        Some(i) => s.skip(i + pat.len()),
        None => Seq::empty(),
    }
}

/// The part of `s` after the last `pat`; all of `s` where `pat` does not occur.
pub open spec fn after_last(s: Seq<char>, pat: Seq<char>) -> Seq<char> {
    match last_occurrence(s, pat) {
        Some(i) => s.skip(i + pat.len()),
        None => s,
    }
}

/// The characters of an optional string.
pub open spec fn option_text(text: Option<String>) -> Option<Seq<char>> {
    match text {
        Some(s) => Some(s@),
        None => None,
    }
}

/// A least occurrence is the first occurrence.
pub proof fn lemma_first_occurrence(s: Seq<char>, pat: Seq<char>, i: int)
    requires
        is_first_occurrence(s, pat, i),
    ensures
        first_occurrence(s, pat) == Some(i),
{
}

/// A greatest occurrence is the last occurrence.
pub proof fn lemma_last_occurrence(s: Seq<char>, pat: Seq<char>, i: int)
    requires
        is_last_occurrence(s, pat, i),
    ensures
        last_occurrence(s, pat) == Some(i),
{
}

/// The first occurrence is an occurrence, and the least one.
pub proof fn lemma_first_occurrence_is_least(s: Seq<char>, pat: Seq<char>)
    ensures
        first_occurrence(s, pat) matches Some(i) ==> is_first_occurrence(s, pat, i),
{
}

/// Where `pat` stands in `s` at all, it has a first occurrence, which is no later than any
/// other.
pub proof fn lemma_occurrence_has_first(s: Seq<char>, pat: Seq<char>, i: int)
    requires
        occurs_at(s, pat, i),
    ensures
        first_occurrence(s, pat) matches Some(first) && first <= i && is_first_occurrence(
            s,
            pat,
            first,
        ),
    decreases i,
{
    if exists|j: int| 0 <= j < i && occurs_at(s, pat, j) {
        let j = choose|j: int| 0 <= j < i && occurs_at(s, pat, j);
        lemma_occurrence_has_first(s, pat, j);
    } else {
        lemma_first_occurrence(s, pat, i);
    }
}

/// Where `pat` stands nowhere in `s`, there is no first and no last occurrence.
pub proof fn lemma_no_occurrence(s: Seq<char>, pat: Seq<char>)
    requires
        forall|i: int| !occurs_at(s, pat, i),
    ensures
        first_occurrence(s, pat) is None,
        last_occurrence(s, pat) is None,
{
}

/// The characters of `s`, in order.
pub fn to_chars(s: &str) -> (v: Vec<char>)
    ensures
        v@ == s@,
{
    let mut v: Vec<char> = Vec::new();
    for c in it: s.chars()
        invariant
            v@ == it.seq().take(it.index() as int),
            it.seq() == s@,
    {
        v.push(c);
    }
    v
}

/// Tells whether `pat` stands in `s` at index `i`.
pub fn matches_at(s: &Vec<char>, pat: &Vec<char>, i: usize) -> (r: bool)
    ensures
        r == occurs_at(s@, pat@, i as int),
{
    if i > s.len() || pat.len() > s.len() - i {
        return false;
    }
    let mut k: usize = 0;
    while k < pat.len()
        invariant
            k <= pat.len(),
            i + pat.len() <= s.len(),
            forall|j: int| 0 <= j < k ==> s@[i + j] == pat@[j],
        decreases pat.len() - k,
    {
        if s[i + k] != pat[k] {
            return false;
        }
        k += 1;
    }
    assert(s@.subrange(i as int, i + pat.len()) =~= pat@);
    true
}

/// The least index at which `pat` stands in `s`.
pub fn find_first(s: &Vec<char>, pat: &Vec<char>) -> (r: Option<usize>)
    ensures
        match r {
            Some(i) => first_occurrence(s@, pat@) == Some(i as int) && is_first_occurrence(
                s@,
                pat@,
                i as int,
            ),
            None => first_occurrence(s@, pat@) is None,
        },
{
    if pat.len() > s.len() {
        proof {
            lemma_no_occurrence(s@, pat@);
        }
        return None;
    }
    let last: usize = s.len() - pat.len();
    let mut i: usize = 0;
    while i < last
        invariant
            last == s.len() - pat.len(),
            i <= last,
            forall|j: int| 0 <= j < i ==> !occurs_at(s@, pat@, j),
        decreases last - i,
    {
        if matches_at(s, pat, i) {
            proof {
                lemma_first_occurrence(s@, pat@, i as int);
            }
            return Some(i);
        }
        i += 1;
    }
    if matches_at(s, pat, last) {
        proof {
            lemma_first_occurrence(s@, pat@, last as int);
        }
        return Some(last);
    }
    proof {
        lemma_no_occurrence(s@, pat@);
    }
    None
}

/// The greatest index at which `pat` stands in `s`.
pub fn find_last(s: &Vec<char>, pat: &Vec<char>) -> (r: Option<usize>)
    ensures
        match r {
            Some(i) => last_occurrence(s@, pat@) == Some(i as int) && is_last_occurrence(
                s@,
                pat@,
                i as int,
            ),
            None => last_occurrence(s@, pat@) is None,
        },
{
    if pat.len() > s.len() {
        proof {
            lemma_no_occurrence(s@, pat@);
        }
        return None;
    }
    let last: usize = s.len() - pat.len();
    let mut i: usize = last;
    while i > 0
        invariant
            last == s.len() - pat.len(),
            i <= last,
            forall|j: int| i < j ==> !occurs_at(s@, pat@, j),
        decreases i,
    {
        if matches_at(s, pat, i) {
            proof {
                lemma_last_occurrence(s@, pat@, i as int);
            }
            return Some(i);
        }
        i -= 1;
    }
    if matches_at(s, pat, 0) {
        proof {
            lemma_last_occurrence(s@, pat@, 0);
        }
        return Some(0);
    }
    proof {
        lemma_no_occurrence(s@, pat@);
    }
    None
}

/// An occurrence in what follows the first `from` characters is an occurrence `from`
/// places further in the whole.
pub proof fn lemma_occurs_at_skip(s: Seq<char>, pat: Seq<char>, from: int, i: int)
    requires
        0 <= from <= s.len(),
        0 <= i,
    ensures
        occurs_at(s.skip(from), pat, i) == occurs_at(s, pat, from + i),
{
    if i + pat.len() <= s.len() - from {
        assert(s.skip(from).subrange(i, i + pat.len()) =~= s.subrange(from + i, from + i + pat.len()));
    }
}

/// The least index from `from` on at which `pat` stands in `s`.
pub(crate) fn find_first_from(s: &Vec<char>, pat: &Vec<char>, from: usize) -> (r: Option<usize>)
    requires
        from <= s.len(),
    ensures
        match r {
            Some(i) => from <= i && i + pat.len() <= s.len() && first_occurrence(
                s@.skip(from as int),
                pat@,
            ) == Some(i - from),
            None => first_occurrence(s@.skip(from as int), pat@) is None,
        },
{
    let ghost rest = s@.skip(from as int);
    if pat.len() > s.len() - from {
        proof {
            lemma_no_occurrence(rest, pat@);
        }
        return None;
    }
    let last: usize = s.len() - pat.len();
    let mut i: usize = from;
    while i < last
        invariant
            last == s.len() - pat.len(),
            from <= i <= last,
            rest == s@.skip(from as int),
            forall|j: int| 0 <= j < i - from ==> !occurs_at(rest, pat@, j),
        decreases last - i,
    {
        proof {
            lemma_occurs_at_skip(s@, pat@, from as int, i - from);
        }
        if matches_at(s, pat, i) {
            proof {
                lemma_first_occurrence(rest, pat@, i - from);
            }
            return Some(i);
        }
        i += 1;
    }
    proof {
        lemma_occurs_at_skip(s@, pat@, from as int, last - from);
    }
    if matches_at(s, pat, last) {
        proof {
            lemma_first_occurrence(rest, pat@, last - from);
        }
        return Some(last);
    }
    proof {
        lemma_no_occurrence(rest, pat@);
    }
    None
}

/// Converts bytes to text with `String::from_utf8`.
///
/// Trusted: the result is `Some` exactly for bytes that are valid UTF-8, and then holds
/// the characters that the bytes encode.
#[verifier::external_body]
pub(crate) fn string_from_utf8(bytes: Vec<u8>) -> (r: Option<String>)
    ensures
        match r {
            Some(text) => valid_utf8(bytes@) && text@ == decode_utf8(bytes@),
            None => !valid_utf8(bytes@),
        },
{
    String::from_utf8(bytes).ok()
}

/// Tells whether two strings hold the same characters.
pub fn str_eq(a: &str, b: &str) -> (r: bool)
    ensures
        r == (a@ == b@),
{
    let x = to_chars(a);
    let y = to_chars(b);
    if x.len() != y.len() {
        return false;
    }
    let r = matches_at(&x, &y, 0);
    assert(x@.subrange(0, x@.len() as int) =~= x@);
    r
}

/// The characters of `s` from index `from` up to, not including, index `to`.
pub(crate) fn substring(s: &str, from: usize, to: usize) -> (r: String)
    requires
        from <= to <= s@.len(),
    ensures
        r@ == s@.subrange(from as int, to as int),
{
    s.substring_char(from, to).to_owned()
}

/// `a` followed by `b`.
pub fn concat(a: &str, b: &str) -> (r: String)
    ensures
        r@ == a@ + b@,
{
    a.to_owned().concat(b)
}

} // verus!
