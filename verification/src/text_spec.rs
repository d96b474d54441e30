//! Specifications of `str::split`, `str::trim` and `str::find` on character sequences,
//! with the executable scans that meet them.
use vstd::prelude::*;

use crate::text::{char_is_white_space, is_white_space};

verus! {

/// The pieces of `s` between occurrences of `sep` (what `str::split(sep)` yields):
/// always at least one piece, empty pieces included.
pub open spec fn split_on(s: Seq<char>, sep: char) -> Seq<Seq<char>>
    decreases s.len(),
{
    if s.len() == 0 {
        seq![Seq::<char>::empty()]
    } else {
        let prev = split_on(s.drop_last(), sep);
        if s.last() == sep {
            prev.push(Seq::<char>::empty())
        } else {
            prev.update(prev.len() - 1, prev.last().push(s.last()))
        }
    }
}

pub proof fn lemma_split_on_nonempty(s: Seq<char>, sep: char)
    ensures
        split_on(s, sep).len() >= 1,
    decreases s.len(),
{
    if s.len() > 0 {
        lemma_split_on_nonempty(s.drop_last(), sep);
    }
}

/// `s` without its leading white space.
pub open spec fn trim_start(s: Seq<char>) -> Seq<char>
    decreases s.len(),
{
    if s.len() > 0 && is_white_space(s[0]) {
        trim_start(s.drop_first())
    } else {
        s
    }
}

/// `s` without its trailing white space.
pub open spec fn trim_end(s: Seq<char>) -> Seq<char>
    decreases s.len(),
{
    if s.len() > 0 && is_white_space(s.last()) {
        trim_end(s.drop_last())
    } else {
        s
    }
}

/// `s` without leading and trailing white space (what `str::trim` gives).
pub open spec fn trim(s: Seq<char>) -> Seq<char> {
    trim_end(trim_start(s))
}

/// Index of the first `c` in `s` (what `str::find(c)` gives, counted in characters).
pub open spec fn find_char(s: Seq<char>, c: char) -> Option<nat>
    decreases s.len(),
{
    if s.len() == 0 {
        None
    } else if s[0] == c {
        Some(0)
    } else {
        match find_char(s.drop_first(), c) {
            Some(i) => Some(i + 1),
            None => None,
        }
    }
}

pub proof fn lemma_trim_start_skip(s: Seq<char>, k: int)
    requires
        0 <= k <= s.len(),
        forall|j: int| 0 <= j < k ==> is_white_space(#[trigger] s[j]),
    ensures
        trim_start(s) == trim_start(s.skip(k)),
    decreases k,
{
    if k == 0 {
        assert(s.skip(0) =~= s);
    } else {
        assert(is_white_space(s[0]));
        let t = s.drop_first();
        assert forall|j: int| 0 <= j < k - 1 implies is_white_space(#[trigger] t[j]) by {
            assert(t[j] == s[j + 1]);
        }
        lemma_trim_start_skip(t, k - 1);
        assert(t.skip(k - 1) =~= s.skip(k));
    }
}

pub proof fn lemma_trim_end_take(s: Seq<char>, k: int)
    requires
        0 <= k <= s.len(),
        forall|j: int| k <= j < s.len() ==> is_white_space(#[trigger] s[j]),
    ensures
        trim_end(s) == trim_end(s.take(k)),
    decreases s.len() - k,
{
    if k == s.len() {
        assert(s.take(k) =~= s);
    } else {
        assert(is_white_space(s.last()));
        let t = s.drop_last();
        assert forall|j: int| k <= j < t.len() implies is_white_space(#[trigger] t[j]) by {
            assert(t[j] == s[j]);
        }
        lemma_trim_end_take(t, k);
        assert(t.take(k) =~= s.take(k));
    }
}

/// Bounds of `trim(v[lo..hi])` inside `v`.
pub fn trim_bounds(v: &Vec<char>, lo: usize, hi: usize) -> (r: (usize, usize))
    requires
        lo <= hi <= v@.len(),
    ensures
        lo <= r.0 <= r.1 <= hi,
        v@.subrange(r.0 as int, r.1 as int) == trim(v@.subrange(lo as int, hi as int)),
{
    let ghost s = v@.subrange(lo as int, hi as int);
    let mut a = lo;
    while a < hi && char_is_white_space(v[a])
        invariant
            lo <= a <= hi <= v@.len(),
            s == v@.subrange(lo as int, hi as int),
            forall|j: int| lo <= j < a ==> is_white_space(#[trigger] v@[j]),
        decreases hi - a,
    {
        a = a + 1;
    }
    proof {
        assert forall|j: int| 0 <= j < a - lo implies is_white_space(#[trigger] s[j]) by {
            assert(s[j] == v@[lo + j]);
        }
        lemma_trim_start_skip(s, a - lo);
        assert(s.skip(a - lo) =~= v@.subrange(a as int, hi as int));
        let t = v@.subrange(a as int, hi as int);
        if t.len() > 0 {
            assert(t[0] == v@[a as int]);
        }
        assert(trim_start(t) == t);
    }
    let mut b = hi;
    while b > a && char_is_white_space(v[b - 1])
        invariant
            lo <= a <= b <= hi <= v@.len(),
            forall|j: int| b <= j < hi ==> is_white_space(#[trigger] v@[j]),
        decreases b - a,
    {
        b = b - 1;
    }
    proof {
        let t = v@.subrange(a as int, hi as int);
        assert forall|j: int| b - a <= j < t.len() implies is_white_space(#[trigger] t[j]) by {
            assert(t[j] == v@[a + j]);
        }
        lemma_trim_end_take(t, b - a);
        let u = t.take(b - a);
        assert(u =~= v@.subrange(a as int, b as int));
        if u.len() > 0 {
            assert(u.last() == v@[b - 1]);
        }
        assert(trim_end(u) == u);
    }
    (a, b)
}

pub proof fn lemma_find_char_skip(s: Seq<char>, c: char, k: int)
    requires
        0 <= k <= s.len(),
        forall|j: int| 0 <= j < k ==> #[trigger] s[j] != c,
    ensures
        find_char(s, c) == (match find_char(s.skip(k), c) {
            Some(i) => Some((i + k) as nat),
            None => None,
        }),
    decreases k,
{
    if k == 0 {
        assert(s.skip(0) =~= s);
        match find_char(s, c) {
            Some(i) => {},
            None => {},
        }
    } else {
        let t = s.drop_first();
        assert(s[0] != c);
        assert forall|j: int| 0 <= j < k - 1 implies #[trigger] t[j] != c by {
            assert(t[j] == s[j + 1]);
        }
        lemma_find_char_skip(t, c, k - 1);
        assert(t.skip(k - 1) =~= s.skip(k));
    }
}

/// Position of the first `c` in `v[lo..hi]`, counted from `lo`.
pub fn find_char_in(v: &Vec<char>, lo: usize, hi: usize, c: char) -> (r: Option<usize>)
    requires
        lo <= hi <= v@.len(),
    ensures
        match r {
            Some(i) => find_char(v@.subrange(lo as int, hi as int), c) == Some(i as nat) && i < hi
                - lo,
            None => find_char(v@.subrange(lo as int, hi as int), c) is None,
        },
{
    let ghost s = v@.subrange(lo as int, hi as int);
    let mut i = lo;
    while i < hi
        invariant
            lo <= i <= hi <= v@.len(),
            s == v@.subrange(lo as int, hi as int),
            forall|j: int| lo <= j < i ==> #[trigger] v@[j] != c,
        decreases hi - i,
    {
        if v[i] == c {
            proof {
                assert forall|j: int| 0 <= j < i - lo implies #[trigger] s[j] != c by {
                    assert(s[j] == v@[lo + j]);
                }
                lemma_find_char_skip(s, c, i - lo);
                let t = s.skip(i - lo);
                assert(t[0] == v@[i as int]);
            }
            return Some(i - lo);
        }
        i = i + 1;
    }
    proof {
        assert forall|j: int| 0 <= j < hi - lo implies #[trigger] s[j] != c by {
            assert(s[j] == v@[lo + j]);
        }
        lemma_find_char_skip(s, c, hi - lo);
        assert(s.skip(hi - lo).len() == 0);
    }
    None
}

/// The bounds, inside `v`, of the pieces of `split_on(v, sep)`.
pub fn split_ranges(v: &Vec<char>, sep: char) -> (r: Vec<(usize, usize)>)
    ensures
        r@.len() == split_on(v@, sep).len(),
        forall|k: int|
            0 <= k < r@.len() ==> #[trigger] r@[k].0 <= r@[k].1 <= v@.len() && v@.subrange(
                r@[k].0 as int,
                r@[k].1 as int,
            ) == split_on(v@, sep)[k],
{
    let mut out: Vec<(usize, usize)> = Vec::new();
    let mut start: usize = 0;
    let mut i: usize = 0;
    assert(v@.take(0) =~= Seq::<char>::empty());
    while i < v.len()
        invariant
            start <= i <= v@.len(),
            split_on(v@.take(i as int), sep).len() == out@.len() + 1,
            split_on(v@.take(i as int), sep).last() == v@.subrange(start as int, i as int),
            forall|k: int|
                0 <= k < out@.len() ==> #[trigger] out@[k].0 <= out@[k].1 <= i && v@.subrange(
                    out@[k].0 as int,
                    out@[k].1 as int,
                ) == split_on(v@.take(i as int), sep)[k],
        decreases v@.len() - i,
    {
        let c = v[i];
        proof {
            let t = v@.take(i + 1);
            assert(t.drop_last() =~= v@.take(i as int));
            assert(t.last() == c);
            lemma_split_on_nonempty(v@.take(i as int), sep);
        }
        if c == sep {
            out.push((start, i));
            start = i + 1;
            assert(v@.subrange(i + 1, i + 1) =~= Seq::<char>::empty());
        } else {
            assert(v@.subrange(start as int, i + 1) =~= v@.subrange(start as int, i as int).push(c));
        }
        i = i + 1;
    }
    assert(v@.take(v@.len() as int) =~= v@);
    out.push((start, v.len()));
    out
}


/// `s` holds no `c`.
pub open spec fn lacks(s: Seq<char>, c: char) -> bool {
    forall|i: int| 0 <= i < s.len() ==> #[trigger] s[i] != c
}

/// A text without the separator splits into itself alone.
pub proof fn lemma_split_without_sep(s: Seq<char>, sep: char)
    requires
        lacks(s, sep),
    ensures
        split_on(s, sep) == seq![s],
    decreases s.len(),
{
    if s.len() == 0 {
        assert(s =~= Seq::<char>::empty());
    } else {
        let t = s.drop_last();
        assert(lacks(t, sep)) by {
            assert forall|i: int| 0 <= i < t.len() implies #[trigger] t[i] != sep by {
                assert(t[i] == s[i]);
            }
        }
        lemma_split_without_sep(t, sep);
        assert(s.last() == s[s.len() - 1]);
        assert(t.push(s.last()) =~= s);
        assert(seq![t].update(0, t.push(s.last())) =~= seq![s]);
    }
}

/// Splitting at a separator placed between two texts splits each of them.
pub proof fn lemma_split_concat(x: Seq<char>, y: Seq<char>, sep: char)
    ensures
        split_on(x + seq![sep] + y, sep) == split_on(x, sep) + split_on(y, sep),
    decreases y.len(),
{
    let z = x + seq![sep] + y;
    if y.len() == 0 {
        assert(z =~= x.push(sep));
        assert(z.drop_last() =~= x);
        assert(split_on(x, sep) + seq![Seq::<char>::empty()] =~= split_on(x, sep).push(Seq::<char>::empty()));
    } else {
        let y0 = y.drop_last();
        let c = y.last();
        lemma_split_concat(x, y0, sep);
        assert(z.drop_last() =~= x + seq![sep] + y0);
        assert(z.last() == c);
        let a = split_on(x, sep);
        let b = split_on(y0, sep);
        lemma_split_on_nonempty(y0, sep);
        if c == sep {
            assert(a + b.push(Seq::<char>::empty()) =~= (a + b).push(Seq::<char>::empty()));
        } else {
            assert((a + b).last() == b.last());
            assert(a + b.update(b.len() - 1, b.last().push(c)) =~= (a + b).update(
                (a + b).len() - 1,
                (a + b).last().push(c),
            ));
        }
    }
}

/// Every piece of a split lacks the separator.
pub proof fn lemma_split_pieces_lack_sep(s: Seq<char>, sep: char)
    ensures
        forall|k: int| 0 <= k < split_on(s, sep).len() ==> lacks(#[trigger] split_on(s, sep)[k], sep),
    decreases s.len(),
{
    if s.len() > 0 {
        let t = s.drop_last();
        lemma_split_pieces_lack_sep(t, sep);
        lemma_split_on_nonempty(t, sep);
        let prev = split_on(t, sep);
        if s.last() != sep {
            let last = prev.last().push(s.last());
            assert(lacks(last, sep)) by {
                assert(lacks(prev[prev.len() - 1], sep));
                assert forall|i: int| 0 <= i < last.len() implies #[trigger] last[i] != sep by {
                    if i < last.len() - 1 {
                        assert(last[i] == prev.last()[i]);
                    }
                }
            }
        }
        assert forall|k: int| 0 <= k < split_on(s, sep).len() implies lacks(#[trigger] split_on(s, sep)[k], sep) by {
            if k < prev.len() - 1 || (s.last() == sep && k < prev.len()) {
                assert(split_on(s, sep)[k] == prev[k]);
            }
        }
    }
}

/// Taking a front part, a back part or trimming keeps a character out.
pub proof fn lemma_lacks_take_skip(s: Seq<char>, c: char, k: int)
    requires
        lacks(s, c),
        0 <= k <= s.len(),
    ensures
        lacks(s.take(k), c),
        lacks(s.skip(k), c),
{
    assert forall|i: int| 0 <= i < s.take(k).len() implies #[trigger] s.take(k)[i] != c by {
        assert(s.take(k)[i] == s[i]);
    }
    assert forall|i: int| 0 <= i < s.skip(k).len() implies #[trigger] s.skip(k)[i] != c by {
        assert(s.skip(k)[i] == s[i + k]);
    }
}

/// What trimming the start leaves: a back part of `s`, starting with no white space.
pub proof fn lemma_trim_start_shape(s: Seq<char>)
    ensures
        exists|k: int| 0 <= k <= s.len() && trim_start(s) == s.skip(k),
        trim_start(s).len() > 0 ==> !is_white_space(trim_start(s)[0]),
        trim_start(s).len() > 0 ==> trim_start(s).last() == s.last(),
    decreases s.len(),
{
    if s.len() > 0 && is_white_space(s[0]) {
        let t = s.drop_first();
        lemma_trim_start_shape(t);
        let k = choose|k: int| 0 <= k <= t.len() && trim_start(t) == t.skip(k);
        assert(t.skip(k) =~= s.skip(k + 1));
        if trim_start(t).len() > 0 {
            assert(t.last() == s.last());
        }
    } else {
        assert(s.skip(0) =~= s);
    }
}

/// What trimming the end leaves: a front part of `s`, ending with no white space.
pub proof fn lemma_trim_end_shape(s: Seq<char>)
    ensures
        exists|k: int| 0 <= k <= s.len() && trim_end(s) == s.take(k),
        trim_end(s).len() > 0 ==> !is_white_space(trim_end(s).last()),
        trim_end(s).len() > 0 ==> trim_end(s)[0] == s[0],
    decreases s.len(),
{
    if s.len() > 0 && is_white_space(s.last()) {
        let t = s.drop_last();
        lemma_trim_end_shape(t);
        let k = choose|k: int| 0 <= k <= t.len() && trim_end(t) == t.take(k);
        assert(t.take(k) =~= s.take(k));
        if trim_end(t).len() > 0 {
            assert(t[0] == s[0]);
        }
    } else {
        assert(s.take(s.len() as int) =~= s);
    }
}

/// A trimmed text lacks what the text lacks, and, when not empty, starts and ends with
/// no white space.
pub proof fn lemma_trim_shape(s: Seq<char>, c: char)
    ensures
        lacks(s, c) ==> lacks(trim(s), c),
        trim(s).len() > 0 ==> !is_white_space(trim(s)[0]) && !is_white_space(trim(s).last()),
{
    let a = trim_start(s);
    lemma_trim_start_shape(s);
    lemma_trim_end_shape(a);
    let k1 = choose|k: int| 0 <= k <= s.len() && trim_start(s) == s.skip(k);
    let k2 = choose|k: int| 0 <= k <= a.len() && trim_end(a) == a.take(k);
    if lacks(s, c) {
        lemma_lacks_take_skip(s, c, k1);
        lemma_lacks_take_skip(a, c, k2);
    }
}

/// Trimming leaves a text alone when it does not start or end with white space.
pub proof fn lemma_trim_fixed(s: Seq<char>)
    requires
        s.len() > 0,
        !is_white_space(s[0]),
        !is_white_space(s.last()),
    ensures
        trim(s) == s,
{
}


/// The positions among the first `n` elements of `s` whose element satisfies `p`, in order.
pub open spec fn positions_where<A>(s: Seq<A>, p: spec_fn(A) -> bool, n: int) -> Seq<usize>
    decreases n,
{
    if n <= 0 {
        seq![]
    } else {
        let prev = positions_where(s, p, n - 1);
        if p(s[n - 1]) {
            prev.push((n - 1) as usize)
        } else {
            prev
        }
    }
}

/// A position is listed exactly when its element satisfies `p`; the positions are those
/// of the first `n` elements, in increasing order.
pub proof fn lemma_positions_where<A>(s: Seq<A>, p: spec_fn(A) -> bool, n: int)
    requires
        0 <= n <= s.len(),
        n <= usize::MAX,
    ensures
        forall|j: int| 0 <= j < n ==> (positions_where(s, p, n).contains(j as usize) <==> p(#[trigger] s[j])),
        forall|k: int| 0 <= k < positions_where(s, p, n).len() ==> (#[trigger] positions_where(s, p, n)[k]) < n,
        forall|k: int, l: int|
            0 <= k < l < positions_where(s, p, n).len() ==> #[trigger] positions_where(s, p, n)[k]
                < #[trigger] positions_where(s, p, n)[l],
    decreases n,
{
    if n > 0 {
        lemma_positions_where(s, p, n - 1);
        let prev = positions_where(s, p, n - 1);
        let r = positions_where(s, p, n);
        assert forall|j: int| 0 <= j < n implies (r.contains(j as usize) <==> p(#[trigger] s[j])) by {
            if p(s[n - 1]) {
                assert(r == prev.push((n - 1) as usize));
                if j < n - 1 {
                    if r.contains(j as usize) {
                        let k = choose|k: int| 0 <= k < r.len() && r[k] == j as usize;
                        if k < prev.len() {
                            assert(prev[k] == r[k]);
                        }
                    }
                    if prev.contains(j as usize) {
                        let k = choose|k: int| 0 <= k < prev.len() && prev[k] == j as usize;
                        assert(r[k] == prev[k]);
                    }
                } else {
                    assert(r[prev.len() as int] == (n - 1) as usize);
                }
            } else {
                if j == n - 1 {
                    if r.contains(j as usize) {
                        let k = choose|k: int| 0 <= k < r.len() && r[k] == j as usize;
                        assert(prev[k] < n - 1);
                    }
                }
            }
        }
    }
}

} // verus!
