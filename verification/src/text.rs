//! Text as sequences of characters: where one text occurs in another.

use vstd::prelude::*;

verus! {

/// `needle` stands in `hay` from position `k` on.
pub open spec fn occurs_at(needle: Seq<char>, hay: Seq<char>, k: int) -> bool {
    0 <= k && k + needle.len() <= hay.len() && hay.subrange(k, k + needle.len()) == needle
}

/// `needle` stands somewhere in `hay`. The empty text stands in every text.
pub open spec fn occurs_in(needle: Seq<char>, hay: Seq<char>) -> bool {
    exists|k: int| occurs_at(needle, hay, k)
}

/// The position of the first occurrence of `needle` in `hay`.
pub open spec fn first_occurrence(needle: Seq<char>, hay: Seq<char>, k: int) -> bool {
    occurs_at(needle, hay, k) && forall|j: int| 0 <= j < k ==> !occurs_at(needle, hay, j)
}

/// The name of a table as statements spell it: between double quotes.
pub open spec fn quoted(name: Seq<char>) -> Seq<char> {
    seq!['"'] + name + seq!['"']
}

/// The characters of `name` between double quotes.
pub fn quoted_chars(name: &str) -> (v: Vec<char>)
    ensures
        v@ == quoted(name@),
{
    let mut v: Vec<char> = Vec::new();
    v.push('"');
    for c in it: name.chars()
        invariant
            v@ == seq!['"'] + it.seq().take(it.index() as int),
            it.seq() == name@,
    {
        v.push(c);
        assert(v@ =~= seq!['"'] + it.seq().take(it.index() + 1));
    }
    v.push('"');
    assert(name@.take(name@.len() as int) =~= name@);
    assert(v@ =~= quoted(name@));
    v
}

/// The characters of `s`, one by one.
pub fn chars_of(s: &str) -> (v: Vec<char>)
    ensures
        v@ == s@,
{
    let mut v: Vec<char> = Vec::new();
    for c in it: s.chars()
        invariant
            v@ == it.seq().take(it.index() as int),
            it.seq() == s@,
    {
        v.push(c);
    }
    v
}

/// Whether `needle` stands in `hay` from position `k` on.
pub fn matches_at(hay: &Vec<char>, needle: &Vec<char>, k: usize) -> (b: bool)
    ensures
        b == occurs_at(needle@, hay@, k as int),
{
    if k > hay.len() || needle.len() > hay.len() - k {
        return false;
    }
    let mut i: usize = 0;
    while i < needle.len()
        invariant
            i <= needle.len(),
            k + needle.len() <= hay.len(),
            forall|j: int| 0 <= j < i ==> hay@[k + j] == needle@[j],
        decreases needle@.len() - i,
    {
        if hay[k + i] != needle[i] {
            assert(hay@.subrange(k as int, k + needle@.len())[i as int] == hay@[k + i]);
            return false;
        }
        i += 1;
    }
    assert(hay@.subrange(k as int, k + needle@.len()) =~= needle@);
    true
}

/// The position of the first occurrence of `needle` in `hay`, if there is
/// one.
pub fn find_text(hay: &Vec<char>, needle: &Vec<char>) -> (found: Option<usize>)
    ensures
        found is Some <==> occurs_in(needle@, hay@),
        found matches Some(k) ==> first_occurrence(needle@, hay@, k as int),
{
    if needle.len() > hay.len() {
        return None;
    }
    let last: usize = hay.len() - needle.len();
    let mut k: usize = 0;
    while k < last
        invariant
            k <= last,
            last + needle@.len() == hay@.len(),
            forall|j: int| 0 <= j < k ==> !occurs_at(needle@, hay@, j),
        decreases last - k,
    {
        if matches_at(hay, needle, k) {
            return Some(k);
        }
        k += 1;
    }
    if matches_at(hay, needle, last) {
        Some(last)
    } else {
        None
    }
}

} // verus!
