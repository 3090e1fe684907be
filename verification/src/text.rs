//! Character-level string operations with their specifications.
use vstd::prelude::*;

verus! {

/// `s` holds the character `c` somewhere.
pub open spec fn has_char(s: Seq<char>, c: char) -> bool {
    exists|i: int| 0 <= i < s.len() && s[i] == c
}

/// `s` holds two consecutive dots somewhere.
pub open spec fn has_double_dot(s: Seq<char>) -> bool {
    exists|i: int| 0 <= i && i + 1 < s.len() && #[trigger] s[i] == '.' && s[i + 1] == '.'
}

/// `p` is a prefix of `s`.
pub open spec fn is_prefix(p: Seq<char>, s: Seq<char>) -> bool {
    p.len() <= s.len() && s.subrange(0, p.len() as int) == p
}

/// `p` is a suffix of `s`.
pub open spec fn is_suffix(p: Seq<char>, s: Seq<char>) -> bool {
    p.len() <= s.len() && s.subrange(s.len() - p.len(), s.len() as int) == p
}

/// The characters of `s` as a vector.
pub fn chars_of(s: &str) -> (v: Vec<char>)
    ensures
        v@ == s@,
{
    let n = s.unicode_len();
    let mut v: Vec<char> = Vec::new();
    let mut i: usize = 0;
    while i < n
        invariant
            n == s@.len(),
            i <= n,
            v@ == s@.subrange(0, i as int),
        decreases n - i,
    {
        v.push(s.get_char(i));
        i = i + 1;
    }
    v
}

/// Whether `s` holds `c`.
pub fn contains_char(s: &Vec<char>, c: char) -> (b: bool)
    ensures
        b == has_char(s@, c),
{
    let mut i: usize = 0;
    while i < s.len()
        invariant
            i <= s@.len(),
            forall|j: int| 0 <= j < i ==> s@[j] != c,
        decreases s.len() - i,
    {
        if s[i] == c {
            return true;
        }
        i = i + 1;
    }
    false
}

/// Whether `s` holds two consecutive dots.
pub fn contains_double_dot(s: &Vec<char>) -> (b: bool)
    ensures
        b == has_double_dot(s@),
{
    let mut i: usize = 0;
    while i < s.len()
        invariant
            i <= s@.len(),
            forall|j: int| 0 <= j < i && j + 1 < s@.len() ==> !(#[trigger] s@[j] == '.' && s@[j + 1] == '.'),
        decreases s.len() - i,
    {
        if i + 1 < s.len() && s[i] == '.' && s[i + 1] == '.' {
            return true;
        }
        i = i + 1;
    }
    false
}

/// Whether `p` is a prefix of `s`.
pub fn starts_with(s: &Vec<char>, p: &Vec<char>) -> (b: bool)
    ensures
        b == is_prefix(p@, s@),
{
    if p.len() > s.len() {
        return false;
    }
    let mut i: usize = 0;
    while i < p.len()
        invariant
            p@.len() <= s@.len(),
            i <= p@.len(),
            forall|j: int| 0 <= j < i ==> s@[j] == p@[j],
        decreases p.len() - i,
    {
        if s[i] != p[i] {
            assert(s@.subrange(0, p@.len() as int)[i as int] != p@[i as int]);
            return false;
        }
        i = i + 1;
    }
    assert(s@.subrange(0, p@.len() as int) =~= p@);
    true
}

/// Whether `p` is a suffix of `s`.
pub fn ends_with(s: &Vec<char>, p: &Vec<char>) -> (b: bool)
    ensures
        b == is_suffix(p@, s@),
{
    if p.len() > s.len() {
        return false;
    }
    let slen = s.len();
    let off = slen - p.len();
    let mut i: usize = 0;
    while i < p.len()
        invariant
            slen == s@.len(),
            p@.len() <= s@.len(),
            off + p@.len() == s@.len(),
            i <= p@.len(),
            forall|j: int| 0 <= j < i ==> s@[off + j] == p@[j],
        decreases p.len() - i,
    {
        assert(off + i < s@.len());
        if s[off + i] != p[i] {
            assert(s@.subrange(off as int, s@.len() as int)[i as int] != p@[i as int]);
            return false;
        }
        i = i + 1;
    }
    assert(s@.subrange(off as int, s@.len() as int) =~= p@);
    true
}

/// A `String` holding exactly the characters of `v`.
pub fn string_of(v: &Vec<char>) -> (s: String)
    ensures
        s@ == v@,
{
    let mut s = String::new();
    let mut i: usize = 0;
    while i < v.len()
        invariant
            i <= v@.len(),
            s@ == v@.subrange(0, i as int),
        decreases v.len() - i,
    {
        push_char(&mut s, v[i]);
        i = i + 1;
    }
    assert(v@.subrange(0, v@.len() as int) =~= v@);
    s
}

/// The index of the last `c` in `s`, or -1 when `s` holds none.
pub open spec fn last_index(s: Seq<char>, c: char) -> int
    decreases s.len(),
{
    if s.len() == 0 {
        -1
    } else if s.last() == c {
        s.len() - 1
    } else {
        last_index(s.drop_last(), c)
    }
}

/// `last_index` lies in `-1..s.len()`, and marks a `c` when not -1.
pub proof fn lemma_last_index(s: Seq<char>, c: char)
    ensures
        -1 <= last_index(s, c) < s.len(),
        last_index(s, c) >= 0 ==> s[last_index(s, c)] == c,
        forall|k: int| last_index(s, c) < k < s.len() ==> s[k] != c,
    decreases s.len(),
{
    if s.len() > 0 && s.last() != c {
        lemma_last_index(s.drop_last(), c);
        assert forall|k: int| last_index(s, c) < k < s.len() implies s[k] != c by {
            if k < s.len() - 1 {
                assert(s[k] == s.drop_last()[k]);
            }
        }
    }
}

/// The index of the last `c` in `v`, if any.
pub fn find_last(v: &Vec<char>, c: char) -> (r: Option<usize>)
    ensures
        match r {
            Some(i) => i == last_index(v@, c),
            None => last_index(v@, c) == -1,
        },
{
    let mut i: usize = v.len();
    assert(v@.subrange(0, i as int) =~= v@);
    while i > 0
        invariant
            i <= v@.len(),
            last_index(v@, c) == last_index(v@.subrange(0, i as int), c),
        decreases i,
    {
        assert(v@.subrange(0, i as int).drop_last() =~= v@.subrange(0, i - 1));
        if v[i - 1] == c {
            return Some(i - 1);
        }
        i = i - 1;
    }
    None
}

/// Whether two character vectors hold the same characters.
pub fn same_chars(a: &Vec<char>, b: &Vec<char>) -> (r: bool)
    ensures
        r == (a@ == b@),
{
    if a.len() != b.len() {
        return false;
    }
    let mut i: usize = 0;
    while i < a.len()
        invariant
            a@.len() == b@.len(),
            i <= a@.len(),
            forall|j: int| 0 <= j < i ==> a@[j] == b@[j],
        decreases a.len() - i,
    {
        if a[i] != b[i] {
            return false;
        }
        i = i + 1;
    }
    assert(a@ =~= b@);
    true
}

/// Whether the characters of `v` spell the literal `lit`.
pub fn spells(v: &Vec<char>, lit: &str) -> (r: bool)
    ensures
        r == (v@ == lit@),
{
    let l = chars_of(lit);
    same_chars(v, &l)
}

/// The characters `v[i..j]`.
pub fn slice_chars(v: &Vec<char>, i: usize, j: usize) -> (w: Vec<char>)
    requires
        i <= j <= v@.len(),
    ensures
        w@ == v@.subrange(i as int, j as int),
{
    let mut w: Vec<char> = Vec::new();
    let mut k: usize = i;
    while k < j
        invariant
            i <= k <= j,
            j <= v@.len(),
            w@ == v@.subrange(i as int, k as int),
        decreases j - k,
    {
        w.push(v[k]);
        k = k + 1;
        assert(w@ =~= v@.subrange(i as int, k as int));
    }
    w
}

/// The index of the first `c` in `s`, or -1 when `s` holds none.
pub open spec fn first_index(s: Seq<char>, c: char) -> int
    decreases s.len(),
{
    if s.len() == 0 {
        -1
    } else if s[0] == c {
        0
    } else {
        let r = first_index(s.drop_first(), c);
        if r < 0 { -1 } else { r + 1 }
    }
}

/// `first_index` lies in `-1..s.len()`, marks a `c` when not -1, and no `c`
/// comes before it.
pub proof fn lemma_first_index(s: Seq<char>, c: char)
    ensures
        -1 <= first_index(s, c) < s.len(),
        first_index(s, c) >= 0 ==> s[first_index(s, c)] == c,
        forall|k: int| 0 <= k < s.len() && (first_index(s, c) < 0 || k < first_index(s, c)) ==> s[k] != c,
    decreases s.len(),
{
    if s.len() > 0 && s[0] != c {
        lemma_first_index(s.drop_first(), c);
        assert forall|k: int| 0 <= k < s.len() && (first_index(s, c) < 0 || k < first_index(s, c)) implies s[k] != c by {
            if k > 0 {
                assert(s[k] == s.drop_first()[k - 1]);
            }
        }
    }
}

/// The index of the first `c` in `v`, if any.
pub fn find_first(v: &Vec<char>, c: char) -> (r: Option<usize>)
    ensures
        match r {
            Some(i) => i == first_index(v@, c),
            None => first_index(v@, c) == -1,
        },
{
    proof {
        lemma_first_index(v@, c);
    }
    let mut i: usize = 0;
    while i < v.len()
        invariant
            i <= v@.len(),
            forall|k: int| 0 <= k < i ==> v@[k] != c,
            -1 <= first_index(v@, c) < v@.len(),
            first_index(v@, c) >= 0 ==> v@[first_index(v@, c)] == c,
            forall|k: int| 0 <= k < v@.len() && (first_index(v@, c) < 0 || k < first_index(v@, c)) ==> v@[k] != c,
        decreases v.len() - i,
    {
        if v[i] == c {
            return Some(i);
        }
        i = i + 1;
    }
    None
}

/// What `str::to_lowercase` makes of `s` (full Unicode lower-casing).
pub uninterp spec fn lowercased(s: Seq<char>) -> Seq<char>;

/// `str::to_lowercase`: the Unicode lower-case form of `s`, named
/// `lowercased`; nothing more is claimed of it.
#[verifier::external_body]
pub(crate) fn to_lowercase(s: &str) -> (r: String)
    ensures
        r@ == lowercased(s@),
{
    s.to_lowercase()
}

/// The non-empty `/`-separated segments of a path, in order.
pub open spec fn segments(p: Seq<char>) -> Seq<Seq<char>>
    decreases p.len(),
{
    if p.len() == 0 {
        Seq::empty()
    } else {
        let i = last_index(p, '/');
        let seg = p.subrange(i + 1, p.len() as int);
        let rest = if i < 0 {
            Seq::empty()
        } else {
            proof {
                lemma_last_index(p, '/');
            }
            segments(p.subrange(0, i))
        };
        if seg.len() == 0 {
            rest
        } else {
            rest.push(seg)
        }
    }
}

/// The non-empty `/`-separated segments of a path, as vectors.
pub fn split_segments(p: Vec<char>) -> (r: Vec<Vec<char>>)
    ensures
        r@.len() == segments(p@).len(),
        forall|k: int| 0 <= k < r@.len() ==> #[trigger] r@[k]@ == segments(p@)[k],
    decreases p@.len(),
{
    if p.len() == 0 {
        return Vec::new();
    }
    proof {
        lemma_last_index(p@, '/');
    }
    let n = p.len();
    let found = find_last(&p, '/');
    let start: usize = match found {
        Some(i) => i + 1,
        None => 0,
    };
    let seg = slice_chars(&p, start, n);
    let mut rest = match found {
        None => Vec::new(),
        Some(i) => split_segments(slice_chars(&p, 0, i)),
    };
    if seg.len() > 0 {
        let ghost before = rest@;
        rest.push(seg);
        assert forall|k: int| 0 <= k < rest@.len() implies #[trigger] rest@[k]@ == segments(p@)[k] by {
            if k < before.len() {
                assert(rest@[k] == before[k]);
            }
        }
    }
    rest
}

/// Appends one character.
#[verifier::external_body]
pub(crate) fn push_char(s: &mut String, c: char)
    ensures
        final(s)@ == old(s)@.push(c),
{
    s.push(c);
}

/// `a` followed by `b`.
pub fn concat(a: &str, b: &str) -> (s: String)
    ensures
        s@ == a@ + b@,
{
    let mut s = String::from_str(a);
    s.append(b);
    s
}

} // verus!
