//! Character-level helpers shared by the parsers of the crate.

use vstd::prelude::*;

verus! {

/// `k` is the index of the first occurrence of `c` in `s`.
pub open spec fn is_first_index(s: Seq<char>, c: char, k: int) -> bool {
    &&& 0 <= k < s.len()
    &&& s[k] == c
    &&& forall|j: int| 0 <= j < k ==> s[j] != c
}

/// The index of the first occurrence of `c` in `s`, if `c` occurs in `s`.
pub open spec fn spec_first_index_of(s: Seq<char>, c: char) -> Option<int> {
    if exists|k: int| is_first_index(s, c, k) {
        Some(choose|k: int| is_first_index(s, c, k))
    } else {
        None
    }
}

/// `str::split_once`: the parts before and after the first occurrence of `c`, if `c` occurs.
pub open spec fn spec_split_once(s: Seq<char>, c: char) -> Option<(Seq<char>, Seq<char>)> {
    match spec_first_index_of(s, c) {
        Some(k) => Some((s.take(k), s.skip(k + 1))),
        None => None,
    }
}

/// `splitn(2, c)`: the part before the first occurrence of `c` (the whole string if there is none) and the part
/// after it, if `c` occurs.
pub open spec fn spec_maybe_split_once(s: Seq<char>, c: char) -> (Seq<char>, Option<Seq<char>>) {
    match spec_split_once(s, c) {
        Some((left, right)) => (left, Some(right)),
        None => (s, None),
    }
}

/// `p` is a prefix of `s`.
pub open spec fn has_prefix(s: Seq<char>, p: Seq<char>) -> bool {
    p.len() <= s.len() && s.take(p.len() as int) == p
}

/// The strings of `list` joined, with `sep` between each two of them.
pub open spec fn spec_join(list: Seq<Seq<char>>, sep: char) -> Seq<char>
    decreases list.len(),
{
    if list.len() == 0 {
        seq![]
    } else if list.len() == 1 {
        list[0]
    } else {
        spec_join(list.drop_last(), sep) + seq![sep] + list.last()
    }
}

/// The first index of a character is unique.
pub proof fn lemma_first_index_unique(s: Seq<char>, c: char, a: int, b: int)
    requires
        is_first_index(s, c, a),
        is_first_index(s, c, b),
    ensures
        a == b,
{
    if a < b {
        assert(s[a] != c);
    } else if b < a {
        assert(s[b] != c);
    }
}

/// A first index found by a scan is the one `spec_first_index_of` names.
pub proof fn lemma_first_index_of_is(s: Seq<char>, c: char, k: int)
    requires
        is_first_index(s, c, k),
    ensures
        spec_first_index_of(s, c) == Some(k),
{
    let w = choose|j: int| is_first_index(s, c, j);
    lemma_first_index_unique(s, c, w, k);
}

/// A string in which `c` does not occur has no first index of `c`.
pub proof fn lemma_first_index_of_none(s: Seq<char>, c: char)
    requires
        forall|j: int| 0 <= j < s.len() ==> s[j] != c,
    ensures
        spec_first_index_of(s, c) is None,
{
}

/// `String::push` appends the character to the end of the string.
pub assume_specification[ String::push ](s: &mut String, ch: char)
    ensures
        final(s)@ == old(s)@.push(ch),
;

/// Collects the characters of a string.
pub fn chars_of(s: &str) -> (r: Vec<char>)
    ensures
        r@ == s@,
{
    let n = s.unicode_len();
    let mut r: Vec<char> = Vec::new();
    let mut i: usize = 0;
    while i < n
        invariant
            n == s@.len(),
            i <= n,
            r@ == s@.take(i as int),
        decreases n - i,
    {
        let c = s.get_char(i);
        r.push(c);
        i = i + 1;
        assert(r@ =~= s@.take(i as int));
    }
    assert(r@ =~= s@);
    r
}

/// Scans `v` from index `from` for the first occurrence of `c`; the index returned is relative to the whole of `v`.
pub fn find_char(v: &Vec<char>, from: usize, c: char) -> (r: Option<usize>)
    requires
        from <= v@.len(),
    ensures
        match r {
            Some(k) => from <= k < v.len() && v@[k as int] == c && spec_first_index_of(v@.skip(from as int), c) == Some(k - from),
            None => spec_first_index_of(v@.skip(from as int), c) is None,
        },
{
    let ghost tail = v@.skip(from as int);
    let mut i = from;
    while i < v.len()
        invariant
            from <= i <= v@.len(),
            tail == v@.skip(from as int),
            forall|j: int| 0 <= j < i - from ==> tail[j] != c,
        decreases v@.len() - i,
    {
        if v[i] == c {
            proof {
                assert(is_first_index(tail, c, i - from));
                lemma_first_index_of_is(tail, c, i - from);
            }
            return Some(i);
        }
        i = i + 1;
    }
    proof {
        lemma_first_index_of_none(tail, c);
    }
    None
}

/// Whether the characters of `v` starting at `start` are those of `lit`.
pub fn matches_at(v: &Vec<char>, start: usize, lit: &str) -> (r: bool)
    requires
        start <= v@.len(),
    ensures
        r == (start + lit@.len() <= v@.len() && v@.subrange(start as int, start + lit@.len()) == lit@),
{
    let n = lit.unicode_len();
    if n > v.len() - start {
        return false;
    }
    let mut i: usize = 0;
    while i < n
        invariant
            n == lit@.len(),
            start + n <= v.len(),
            i <= n,
            forall|j: int| 0 <= j < i ==> v@[start + j] == lit@[j],
        decreases n - i,
    {
        if v[start + i] != lit.get_char(i) {
            assert(v@.subrange(start as int, start + n)[i as int] != lit@[i as int]);
            return false;
        }
        i = i + 1;
    }
    assert(v@.subrange(start as int, start + n) =~= lit@);
    true
}

/// Splitting of string-like values on the first occurrence of a character.
pub trait MaybeSplitOnce {
    /// Splits on the first occurrence of `split`: the part before it (the whole value if `split` does not occur) and
    /// the part after it, if `split` occurs.
    fn maybe_split_once(&self, split: char) -> (&str, Option<&str>);
}

impl MaybeSplitOnce for str {
    fn maybe_split_once(&self, split: char) -> (r: (&str, Option<&str>))
        ensures
            r.0@ == spec_maybe_split_once(self@, split).0,
            match r.1 {
                Some(right) => spec_maybe_split_once(self@, split).1 == Some(right@),
                None => spec_maybe_split_once(self@, split).1 is None,
            },
    {
        let v = chars_of(self);
        assert(v@.skip(0) =~= v@);
        match find_char(&v, 0, split) {
            Some(k) => {
                let left = self.substring_char(0, k);
                let right = self.substring_char(k + 1, v.len());
                assert(left@ =~= self@.take(k as int));
                assert(right@ =~= self@.skip(k + 1));
                (left, Some(right))
            },
            None => (self, None),
        }
    }
}

} // verus!
