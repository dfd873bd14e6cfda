//! Character-level operations on strings, each proved against a statement over `Seq<char>`.

use vstd::prelude::*;
use vstd::string::*;

verus! {

/// `p` is a prefix of `s`.
pub open spec fn is_prefix(p: Seq<char>, s: Seq<char>) -> bool {
    p.len() <= s.len() && s.subrange(0, p.len() as int) == p
}

/// `x` is a suffix of `s`.
pub open spec fn is_suffix(x: Seq<char>, s: Seq<char>) -> bool {
    x.len() <= s.len() && s.subrange(s.len() - x.len(), s.len() as int) == x
}

/// `n` occurs in `s` starting at index `i`.
pub open spec fn occurs_at(s: Seq<char>, n: Seq<char>, i: int) -> bool {
    0 <= i && i + n.len() <= s.len() && s.subrange(i, i + n.len()) == n
}

/// `n` occurs somewhere in `s`.
pub open spec fn contains_seq(s: Seq<char>, n: Seq<char>) -> bool {
    exists|i: int| occurs_at(s, n, i)
}

/// Whether two strings hold the same characters.
pub fn str_eq(a: &str, b: &str) -> (r: bool)
    ensures
        r == (a@ == b@),
{
    let n = a.unicode_len();
    let m = b.unicode_len();
    if n != m {
        return false;
    }
    let mut i: usize = 0;
    while i < n
        invariant
            n == a@.len(),
            m == b@.len(),
            n == m,
            i <= n,
            forall|j: int| 0 <= j < i ==> a@[j] == b@[j],
        decreases n - i,
    {
        if a.get_char(i) != b.get_char(i) {
            return false;
        }
        i = i + 1;
    }
    assert(a@ =~= b@);
    true
}

/// Whether `n` occurs in `s` at character index `start`.
pub fn occurs_at_index(s: &str, n: &str, start: usize) -> (r: bool)
    ensures
        r == occurs_at(s@, n@, start as int),
{
    let sl = s.unicode_len();
    let nl = n.unicode_len();
    if start > sl || nl > sl - start {
        return false;
    }
    let mut i: usize = 0;
    while i < nl
        invariant
            sl == s@.len(),
            nl == n@.len(),
            start + nl <= sl,
            i <= nl,
            forall|j: int| 0 <= j < i ==> s@[start + j] == n@[j],
        decreases nl - i,
    {
        if s.get_char(start + i) != n.get_char(i) {
            assert(s@.subrange(start as int, start + nl)[i as int] != n@[i as int]);
            return false;
        }
        i = i + 1;
    }
    assert(s@.subrange(start as int, start + nl) =~= n@);
    true
}

/// Whether `p` is a prefix of `s`.
pub fn starts_with(s: &str, p: &str) -> (r: bool)
    ensures
        r == is_prefix(p@, s@),
{
    occurs_at_index(s, p, 0)
}

/// Whether `x` is a suffix of `s`.
pub fn ends_with(s: &str, x: &str) -> (r: bool)
    ensures
        r == is_suffix(x@, s@),
{
    let sl = s.unicode_len();
    let xl = x.unicode_len();
    if xl > sl {
        return false;
    }
    occurs_at_index(s, x, sl - xl)
}

/// Whether `n` occurs anywhere in `s`.
pub fn contains(s: &str, n: &str) -> (r: bool)
    ensures
        r == contains_seq(s@, n@),
{
    let sl = s.unicode_len();
    let nl = n.unicode_len();
    if nl > sl {
        assert forall|i: int| !occurs_at(s@, n@, i) by {}
        return false;
    }
    let last = sl - nl;
    let mut i: usize = 0;
    loop
        invariant
            sl == s@.len(),
            nl == n@.len(),
            last == sl - nl,
            i <= last,
            forall|j: int| 0 <= j < i ==> !occurs_at(s@, n@, j),
        ensures
            forall|j: int| 0 <= j <= last ==> !occurs_at(s@, n@, j),
        decreases last - i,
    {
        if occurs_at_index(s, n, i) {
            return true;
        }
        if i == last {
            break;
        }
        i = i + 1;
    }
    assert forall|j: int| !occurs_at(s@, n@, j) by {
        if 0 <= j && j <= last {
        }
    }
    false
}

/// The index of the first occurrence of `c` in `s`, if any.
pub fn find_char(s: &str, c: char) -> (r: Option<usize>)
    ensures
        match r {
            Some(i) => i < s@.len() && s@[i as int] == c && forall|j: int| 0 <= j < i ==> s@[j] != c,
            None => forall|j: int| 0 <= j < s@.len() ==> s@[j] != c,
        },
{
    let n = s.unicode_len();
    let mut i: usize = 0;
    while i < n
        invariant
            n == s@.len(),
            i <= n,
            forall|j: int| 0 <= j < i ==> s@[j] != c,
        decreases n - i,
    {
        if s.get_char(i) == c {
            return Some(i);
        }
        i = i + 1;
    }
    None
}

/// The concatenation of all the character sequences, in order.
pub open spec fn concat_all(parts: Seq<Seq<char>>) -> Seq<char>
    decreases parts.len(),
{
    if parts.len() == 0 {
        Seq::empty()
    } else {
        concat_all(parts.drop_last()) + parts.last()
    }
}

/// The characters of each string slice in a sequence.
pub open spec fn strs_view(parts: Seq<&str>) -> Seq<Seq<char>> {
    parts.map_values(|s: &str| s@)
}

/// Builds a string from pieces, in order.
pub fn concat(parts: &[&str]) -> (r: String)
    ensures
        r@ == concat_all(strs_view(parts@)),
{
    let mut out = String::new();
    let mut i: usize = 0;
    while i < parts.len()
        invariant
            i <= parts@.len(),
            out@ == concat_all(strs_view(parts@.take(i as int))),
        decreases parts@.len() - i,
    {
        out.append(parts[i]);
        assert(strs_view(parts@.take(i + 1)).drop_last() =~= strs_view(parts@.take(i as int)));
        i = i + 1;
    }
    assert(parts@.take(parts@.len() as int) =~= parts@);
    out
}

/// `s` without the prefix `p`, if `s` starts with `p`.
pub fn strip_prefix<'a>(s: &'a str, p: &str) -> (r: Option<&'a str>)
    ensures
        match r {
            Some(t) => is_prefix(p@, s@) && t@ == s@.subrange(p@.len() as int, s@.len() as int),
            None => !is_prefix(p@, s@),
        },
{
    if starts_with(s, p) {
        let sl = s.unicode_len();
        let pl = p.unicode_len();
        Some(s.substring_char(pl, sl))
    } else {
        None
    }
}

/// `s` without the suffix `x`, if `s` ends with `x`.
pub fn strip_suffix<'a>(s: &'a str, x: &str) -> (r: Option<&'a str>)
    ensures
        match r {
            Some(t) => is_suffix(x@, s@) && t@ == s@.subrange(0, s@.len() - x@.len()),
            None => !is_suffix(x@, s@),
        },
{
    if ends_with(s, x) {
        let sl = s.unicode_len();
        let xl = x.unicode_len();
        Some(s.substring_char(0, sl - xl))
    } else {
        None
    }
}

/// Lexicographic comparison of `a` and `b` from index `i` on, by character code: `a` comes first
/// when it differs first by a smaller character, or when it ends first.
pub open spec fn lt_from(a: Seq<char>, b: Seq<char>, i: nat) -> bool
    decreases a.len() - i,
{
    if i >= a.len() {
        i < b.len()
    } else if i >= b.len() {
        false
    } else if a[i as int] != b[i as int] {
        (a[i as int] as int) < (b[i as int] as int)
    } else {
        lt_from(a, b, i + 1)
    }
}

/// `a` comes strictly before `b` in the order of `str`'s `Ord`: lexicographic by character code,
/// a proper prefix coming first.
pub open spec fn seq_lt(a: Seq<char>, b: Seq<char>) -> bool {
    lt_from(a, b, 0)
}

/// No sequence comes before itself.
pub proof fn lemma_lt_from_irreflexive(a: Seq<char>, i: nat)
    ensures
        !lt_from(a, a, i),
    decreases a.len() - i,
{
    if i < a.len() {
        lemma_lt_from_irreflexive(a, i + 1);
    }
}

/// The order is transitive.
pub proof fn lemma_lt_from_transitive(a: Seq<char>, b: Seq<char>, c: Seq<char>, i: nat)
    requires
        lt_from(a, b, i),
        lt_from(b, c, i),
    ensures
        lt_from(a, c, i),
    decreases a.len() - i,
{
    if i < a.len() && i < b.len() && i < c.len() && a[i as int] == b[i as int] && b[i as int]
        == c[i as int] {
        lemma_lt_from_transitive(a, b, c, i + 1);
    }
}

/// Of two sequences that agree on their first `i` characters, either they are equal or one
/// comes before the other, and never both ways.
pub proof fn lemma_lt_from_total(a: Seq<char>, b: Seq<char>, i: nat)
    requires
        i <= a.len(),
        i <= b.len(),
        a.take(i as int) == b.take(i as int),
    ensures
        a == b || lt_from(a, b, i) || lt_from(b, a, i),
        !(lt_from(a, b, i) && lt_from(b, a, i)),
    decreases a.len() - i,
{
    if i < a.len() && i < b.len() && a[i as int] == b[i as int] {
        assert(a.take(i + 1 as int) =~= a.take(i as int).push(a[i as int]));
        assert(b.take(i + 1 as int) =~= b.take(i as int).push(b[i as int]));
        lemma_lt_from_total(a, b, i + 1);
    } else if i == a.len() && i == b.len() {
        assert(a =~= a.take(i as int));
        assert(b =~= b.take(i as int));
    } else if i < a.len() && i < b.len() {
        let x = a[i as int];
        let y = b[i as int];
        assert(x != y);
        assert((x as int) != (y as int));
    }
}

/// `seq_lt` is a strict total order.
pub proof fn lemma_seq_lt_strict_total_order(a: Seq<char>, b: Seq<char>, c: Seq<char>)
    ensures
        !seq_lt(a, a),
        seq_lt(a, b) && seq_lt(b, c) ==> seq_lt(a, c),
        a == b || seq_lt(a, b) || seq_lt(b, a),
        !(seq_lt(a, b) && seq_lt(b, a)),
{
    lemma_lt_from_irreflexive(a, 0);
    if seq_lt(a, b) && seq_lt(b, c) {
        lemma_lt_from_transitive(a, b, c, 0);
    }
    assert(a.take(0) =~= b.take(0));
    lemma_lt_from_total(a, b, 0);
}

/// Whether `a` comes strictly before `b`, comparing by character code.
pub fn str_lt(a: &str, b: &str) -> (r: bool)
    ensures
        r == seq_lt(a@, b@),
{
    let n = a.unicode_len();
    let m = b.unicode_len();
    let mut i: usize = 0;
    while i < n && i < m
        invariant
            n == a@.len(),
            m == b@.len(),
            i <= n,
            i <= m,
            lt_from(a@, b@, 0) == lt_from(a@, b@, i as nat),
        decreases n - i,
    {
        let x = a.get_char(i);
        let y = b.get_char(i);
        if x != y {
            return (x as u32) < (y as u32);
        }
        i = i + 1;
    }
    i < m
}

/// The index of the first `c` in `s` at or after `i`.
pub open spec fn index_from(s: Seq<char>, c: char, i: nat) -> Option<int>
    decreases s.len() - i,
{
    if i >= s.len() {
        None
    } else if s[i as int] == c {
        Some(i as int)
    } else {
        index_from(s, c, i + 1)
    }
}

/// A found index lies within the sequence, at or after `i`, and holds `c`.
pub proof fn lemma_index_from_bounds(s: Seq<char>, c: char, i: nat)
    ensures
        index_from(s, c, i) matches Some(k) ==> i <= k < s.len() && s[k] == c,
    decreases s.len() - i,
{
    if i < s.len() && s[i as int] != c {
        lemma_index_from_bounds(s, c, i + 1);
    }
}

/// The index of the first `c` in `s`.
pub open spec fn first_index(s: Seq<char>, c: char) -> Option<int> {
    index_from(s, c, 0)
}

/// `s` split around its first `c`, as `str::split_once` does.
pub open spec fn spec_split_once(s: Seq<char>, c: char) -> Option<(Seq<char>, Seq<char>)> {
    match first_index(s, c) {
        Some(i) => Some((s.take(i), s.skip(i + 1))),
        None => None,
    }
}

/// The second piece of `s` split at every `c`, as `str::split(c).nth(1)` gives it: the text
/// between the first and the second `c`, or after the first `c` when there is no second.
pub open spec fn spec_second_piece(s: Seq<char>, c: char) -> Option<Seq<char>> {
    match first_index(s, c) {
        Some(i) => {
            let rest = s.skip(i + 1);
            match first_index(rest, c) {
                Some(j) => Some(rest.take(j)),
                None => Some(rest),
            }
        },
        None => None,
    }
}

/// The index of the first `c` in `s`.
pub fn index_of_char(s: &str, c: char) -> (r: Option<usize>)
    ensures
        match r {
            Some(i) => first_index(s@, c) == Some(i as int) && i < s@.len(),
            None => first_index(s@, c) is None,
        },
{
    proof {
        lemma_index_from_bounds(s@, c, 0);
    }
    let n = s.unicode_len();
    let mut i: usize = 0;
    while i < n
        invariant
            n == s@.len(),
            i <= n,
            index_from(s@, c, 0) == index_from(s@, c, i as nat),
        decreases n - i,
    {
        if s.get_char(i) == c {
            return Some(i);
        }
        i = i + 1;
    }
    None
}

/// `s` split around its first `c`.
pub fn split_once_char(s: &str, c: char) -> (r: Option<(&str, &str)>)
    ensures
        match r {
            Some((a, b)) => spec_split_once(s@, c) == Some((a@, b@)),
            None => spec_split_once(s@, c) is None,
        },
{
    match index_of_char(s, c) {
        Some(i) => {
            let n = s.unicode_len();
            let a = s.substring_char(0, i);
            let b = s.substring_char(i + 1, n);
            assert(a@ =~= s@.take(i as int));
            assert(b@ =~= s@.skip(i + 1));
            Some((a, b))
        },
        None => None,
    }
}

/// The second piece of `s` split at every `c`, if there is one.
pub fn second_piece(s: &str, c: char) -> (r: Option<&str>)
    ensures
        match r {
            Some(p) => spec_second_piece(s@, c) == Some(p@),
            None => spec_second_piece(s@, c) is None,
        },
{
    match split_once_char(s, c) {
        Some((_, rest)) => match index_of_char(rest, c) {
            Some(j) => {
                let p = rest.substring_char(0, j);
                assert(p@ =~= rest@.take(j as int));
                Some(p)
            },
            None => Some(rest),
        },
        None => None,
    }
}

/// The index of the last `c` among the first `n` characters of `s`.
pub open spec fn last_index_before(s: Seq<char>, c: char, n: int) -> Option<int>
    decreases n,
{
    if n <= 0 {
        None
    } else if s[n - 1] == c {
        Some(n - 1)
    } else {
        last_index_before(s, c, n - 1)
    }
}

/// A found index lies before `n` and holds `c`.
pub proof fn lemma_last_index_bounds(s: Seq<char>, c: char, n: int)
    ensures
        last_index_before(s, c, n) matches Some(k) ==> 0 <= k < n && s[k] == c,
    decreases n,
{
    if n > 0 && s[n - 1] != c {
        lemma_last_index_bounds(s, c, n - 1);
    }
}

/// The text after the last `c` in `s`, or all of `s` when it holds no `c`, as
/// `str::rsplit(c).next()` gives it.
pub open spec fn spec_after_last(s: Seq<char>, c: char) -> Seq<char> {
    match last_index_before(s, c, s.len() as int) {
        Some(i) => s.skip(i + 1),
        None => s,
    }
}

/// The text after the last `c` in `s`, or all of `s` when it holds no `c`.
pub fn after_last_char(s: &str, c: char) -> (r: &str)
    ensures
        r@ == spec_after_last(s@, c),
{
    let n = s.unicode_len();
    proof {
        lemma_last_index_bounds(s@, c, n as int);
    }
    let mut i: usize = n;
    while i > 0
        invariant
            n == s@.len(),
            i <= n,
            last_index_before(s@, c, n as int) == last_index_before(s@, c, i as int),
        decreases i,
    {
        if s.get_char(i - 1) == c {
            let r = s.substring_char(i, n);
            assert(r@ =~= s@.skip(i as int));
            return r;
        }
        i = i - 1;
    }
    s
}

/// A sequence always ends with what was appended to it.
pub proof fn lemma_suffix_of_concat(a: Seq<char>, b: Seq<char>)
    ensures
        is_suffix(b, a + b),
{
    assert((a + b).subrange((a + b).len() - b.len(), (a + b).len() as int) =~= b);
}

/// The two strings one after the other.
pub fn concat2(a: &str, b: &str) -> (r: String)
    ensures
        r@ == a@ + b@,
{
    let r = concat(&[a, b]);
    proof {
        reveal_with_fuel(concat_all, 3);
        assert(strs_view(seq![a, b]) =~= seq![a@, b@]);
    }
    r
}

/// The three strings one after the other.
pub fn concat3(a: &str, b: &str, c: &str) -> (r: String)
    ensures
        r@ == a@ + b@ + c@,
{
    let r = concat(&[a, b, c]);
    proof {
        reveal_with_fuel(concat_all, 4);
        assert(strs_view(seq![a, b, c]) =~= seq![a@, b@, c@]);
    }
    r
}

/// The string's own characters, in a new string.
pub fn to_owned(a: &str) -> (r: String)
    ensures
        r@ == a@,
{
    let r = concat(&[a]);
    proof {
        reveal_with_fuel(concat_all, 2);
        assert(strs_view(seq![a]) =~= seq![a@]);
    }
    r
}

} // verus!
