//! The shape of a configuration file: the dotted paths of its leaves, and what a sync adds
//! and removes.
use vstd::prelude::*;

use crate::text::{decimal, from_char_range, owned, push_decimal, push_str, str_eq, string_push, to_chars, views};
use crate::text_spec::{split_on, split_ranges};

verus! {

/// A JSON value that is no object, as far as a sync report describes it.
pub enum JsonLeaf {
    Null,
    Bool(bool),
    /// A number, written as JSON writes it.
    Number(String),
    Str(String),
    /// An array, by its length.
    Array(usize),
}

/// A JSON value reduced to what a configuration sync compares and reports: objects by
/// their keys (in order), and leaves.
pub enum JsonShape {
    Leaf(JsonLeaf),
    Object(Vec<(String, JsonShape)>),
}

/// The path of the key `k` under `prefix`: `k` at the top, `prefix.k` below.
pub open spec fn child_path(prefix: Seq<char>, k: Seq<char>) -> Seq<char> {
    if prefix.len() == 0 {
        k
    } else {
        prefix + seq!['.'] + k
    }
}

/// The paths of the leaves of `s` under `prefix`, in order; a leaf (or the whole value when
/// it is no object) has the prefix itself as its path.
pub open spec fn shape_leaves(s: JsonShape, prefix: Seq<char>) -> Seq<Seq<char>>
    decreases s, 0int,
{
    match s {
        JsonShape::Leaf(_) => seq![prefix],
        JsonShape::Object(v) => entries_leaves(v, prefix, v@.len() as int),
    }
}

/// The leaf paths of the first `n` entries of an object.
pub open spec fn entries_leaves(v: Vec<(String, JsonShape)>, prefix: Seq<char>, n: int) -> Seq<Seq<char>>
    decreases v, n,
{
    if n <= 0 || n > v@.len() {
        seq![]
    } else {
        proof {
            assert(decreases_to!(v => v@));
            assert(decreases_to!(v@ => v@[n - 1]));
            assert(decreases_to!(v@[n - 1] => v@[n - 1].1));
        }
        entries_leaves(v, prefix, n - 1) + shape_leaves(v@[n - 1].1, child_path(prefix, v@[n - 1].0@))
    }
}

fn child(prefix: &str, k: &str) -> (r: String)
    ensures
        r@ == child_path(prefix@, k@),
{
    if prefix.is_empty() {
        owned(k)
    } else {
        let mut s = owned(prefix);
        string_push(&mut s, '.');
        push_str(&mut s, k);
        s
    }
}

fn append_all(out: &mut Vec<String>, more: Vec<String>)
    ensures
        views(final(out)@) == views(old(out)@) + views(more@),
{
    let ghost start = views(out@);
    let mut i: usize = 0;
    while i < more.len()
        invariant
            i <= more@.len(),
            views(out@) == start + views(more@.subrange(0, i as int)),
        decreases more@.len() - i,
    {
        let ghost before = out@;
        let item = owned(more[i].as_str());
        out.push(item);
        assert(views(out@) =~= views(before).push(more@[i as int]@));
        assert(views(more@.subrange(0, i + 1)) =~= views(more@.subrange(0, i as int)).push(more@[i as int]@));
        i = i + 1;
    }
    assert(more@.subrange(0, more@.len() as int) =~= more@);
}

/// The dotted paths of the leaves of `s` under `prefix`, in order (see `shape_leaves`).
pub fn leaf_paths(s: &JsonShape, prefix: &str) -> (r: Vec<String>)
    ensures
        views(r@) == shape_leaves(*s, prefix@),
    decreases s,
{
    match s {
        JsonShape::Leaf(_) => {
            let mut v: Vec<String> = Vec::new();
            v.push(owned(prefix));
            assert(views(v@) =~= seq![prefix@]);
            v
        },
        JsonShape::Object(entries) => {
            let mut out: Vec<String> = Vec::new();
            assert(views(out@) =~= Seq::<Seq<char>>::empty());
            let mut i: usize = 0;
            while i < entries.len()
                invariant
                    i <= entries@.len(),
                    *s == JsonShape::Object(*entries),
                    views(out@) == entries_leaves(*entries, prefix@, i as int),
                decreases entries@.len() - i,
            {
                let entry = &entries[i];
                let p = child(prefix, entry.0.as_str());
                proof {
                    assert(decreases_to!(*s => (*s)->Object_0));
                    assert((*s)->Object_0 == *entries);
                    assert(decreases_to!(*entries => entries@));
                    assert(decreases_to!(entries@ => entries@[i as int]));
                    assert(decreases_to!(entries@[i as int] => entries@[i as int].1));
                    assert(decreases_to!(*s => entries@[i as int].1));
                }
                let sub = leaf_paths(&entry.1, p.as_str());
                append_all(&mut out, sub);
                i = i + 1;
            }
            out
        },
    }
}

/// Lexicographic order of character sequences by code point; for strings it is the order
/// of `String`'s `Ord`, as UTF-8 keeps code point order.
pub open spec fn lex_lt(a: Seq<char>, b: Seq<char>) -> bool
    decreases a.len(),
{
    if a.len() == 0 {
        b.len() > 0
    } else if b.len() == 0 {
        false
    } else if a[0] != b[0] {
        (a[0] as int) < (b[0] as int)
    } else {
        lex_lt(a.drop_first(), b.drop_first())
    }
}

pub proof fn lemma_lex_irreflexive(a: Seq<char>)
    ensures
        !lex_lt(a, a),
    decreases a.len(),
{
    if a.len() > 0 {
        lemma_lex_irreflexive(a.drop_first());
    }
}

pub proof fn lemma_lex_total(a: Seq<char>, b: Seq<char>)
    requires
        a != b,
    ensures
        lex_lt(a, b) || lex_lt(b, a),
    decreases a.len(),
{
    if a.len() > 0 && b.len() > 0 && a[0] == b[0] {
        if a.drop_first() == b.drop_first() {
            assert(a =~= seq![a[0]] + a.drop_first());
            assert(b =~= seq![b[0]] + b.drop_first());
        }
        lemma_lex_total(a.drop_first(), b.drop_first());
    } else if a.len() == 0 && b.len() == 0 {
        assert(a =~= b);
    }
}

pub proof fn lemma_lex_transitive(a: Seq<char>, b: Seq<char>, c: Seq<char>)
    requires
        lex_lt(a, b),
        lex_lt(b, c),
    ensures
        lex_lt(a, c),
    decreases a.len(),
{
    if a.len() > 0 && b.len() > 0 && c.len() > 0 && a[0] == b[0] && b[0] == c[0] {
        lemma_lex_transitive(a.drop_first(), b.drop_first(), c.drop_first());
    }
}

/// Whether `a` comes before `b` in the order of `lex_lt`.
pub fn str_lt(a: &str, b: &str) -> (r: bool)
    ensures
        r == lex_lt(a@, b@),
{
    let va = to_chars(a);
    let vb = to_chars(b);
    let mut i: usize = 0;
    assert(a@.skip(0) =~= a@);
    assert(b@.skip(0) =~= b@);
    while i < va.len() && i < vb.len() && va[i] == vb[i]
        invariant
            va@ == a@,
            vb@ == b@,
            i <= va@.len(),
            i <= vb@.len(),
            lex_lt(a@, b@) == lex_lt(a@.skip(i as int), b@.skip(i as int)),
        decreases va@.len() - i,
    {
        assert(a@.skip(i as int).drop_first() =~= a@.skip(i + 1));
        assert(b@.skip(i as int).drop_first() =~= b@.skip(i + 1));
        i = i + 1;
    }
    if i == va.len() {
        return i < vb.len();
    }
    if i == vb.len() {
        return false;
    }
    va[i] < vb[i]
}

/// Strictly ascending in the order of `lex_lt`: sorted, nothing twice.
pub open spec fn strictly_sorted(s: Seq<Seq<char>>) -> bool {
    forall|i: int, j: int| 0 <= i < j < s.len() ==> lex_lt(#[trigger] s[i], #[trigger] s[j])
}

fn contains_str(v: &Vec<String>, x: &str) -> (r: bool)
    ensures
        r == views(v@).contains(x@),
{
    let mut i: usize = 0;
    while i < v.len()
        invariant
            i <= v@.len(),
            forall|j: int| 0 <= j < i ==> v@[j]@ != x@,
        decreases v@.len() - i,
    {
        if str_eq(v[i].as_str(), x) {
            assert(views(v@)[i as int] == x@);
            return true;
        }
        i = i + 1;
    }
    assert forall|j: int| 0 <= j < views(v@).len() implies views(v@)[j] != x@ by {
        assert(views(v@)[j] == v@[j]@);
    }
    false
}

fn insert_sorted(out: &mut Vec<String>, x: &str)
    requires
        strictly_sorted(views(old(out)@)),
        !views(old(out)@).contains(x@),
    ensures
        strictly_sorted(views(final(out)@)),
        forall|y: Seq<char>| views(final(out)@).contains(y) <==> (views(old(out)@).contains(y) || y == x@),
{
    let ghost o = views(out@);
    let mut k: usize = 0;
    while k < out.len() && !str_lt(x, out[k].as_str())
        invariant
            k <= out@.len(),
            o == views(out@),
            strictly_sorted(o),
            !o.contains(x@),
            forall|j: int| 0 <= j < k ==> lex_lt(#[trigger] o[j], x@),
        decreases out@.len() - k,
    {
        proof {
            assert(o[k as int] == out@[k as int]@);
            assert(o[k as int] != x@);
            lemma_lex_total(o[k as int], x@);
        }
        k = k + 1;
    }
    let ghost before = out@;
    out.insert(k, owned(x));
    proof {
        let n = views(out@);
        assert(n =~= o.insert(k as int, x@)) by {
            assert forall|j: int| 0 <= j < n.len() implies n[j] == o.insert(k as int, x@)[j] by {
                if j < k {
                    assert(out@[j] == before[j]);
                } else if j > k {
                    assert(out@[j] == before[j - 1]);
                }
            }
        }
        assert forall|i: int, j: int| 0 <= i < j < n.len() implies lex_lt(#[trigger] n[i], #[trigger] n[j]) by {
            if k < o.len() {
                assert(lex_lt(x@, o[k as int]));
            }
            if i < k && j == k {
            } else if i < k && j > k {
                if j - 1 > k {
                    lemma_lex_transitive(x@, o[k as int], o[j - 1]);
                }
                lemma_lex_transitive(o[i], x@, o[j - 1]);
            } else if i == k {
                if j - 1 > k {
                    lemma_lex_transitive(x@, o[k as int], o[j - 1]);
                }
            } else if i > k {
                assert(lex_lt(o[i - 1], o[j - 1]));
            } else {
                assert(lex_lt(o[i], o[j]));
            }
        }
        assert forall|y: Seq<char>| n.contains(y) <==> (o.contains(y) || y == x@) by {
            if n.contains(y) {
                let j = choose|j: int| 0 <= j < n.len() && n[j] == y;
                if j < k {
                    assert(o[j] == y);
                } else if j > k {
                    assert(o[j - 1] == y);
                }
            }
            if o.contains(y) {
                let j = choose|j: int| 0 <= j < o.len() && o[j] == y;
                if j < k {
                    assert(n[j] == y);
                } else {
                    assert(n[j + 1] == y);
                }
            }
            if y == x@ {
                assert(n[k as int] == y);
            }
        }
    }
}

/// The paths of `a` that are not in `b`, each once, in ascending order.
pub fn sorted_difference(a: &Vec<String>, b: &Vec<String>) -> (r: Vec<String>)
    ensures
        strictly_sorted(views(r@)),
        forall|y: Seq<char>| views(r@).contains(y) <==> (views(a@).contains(y) && !views(b@).contains(y)),
{
    let mut out: Vec<String> = Vec::new();
    assert(views(out@) =~= Seq::<Seq<char>>::empty());
    let mut i: usize = 0;
    while i < a.len()
        invariant
            i <= a@.len(),
            strictly_sorted(views(out@)),
            forall|y: Seq<char>| views(out@).contains(y) <==> (views(a@.subrange(0, i as int)).contains(y) && !views(b@).contains(y)),
        decreases a@.len() - i,
    {
        let x = a[i].as_str();
        let ghost prev = views(out@);
        let ghost pa = views(a@.subrange(0, i as int));
        proof {
            assert(views(a@.subrange(0, i + 1)) =~= pa.push(x@));
        }
        if !contains_str(b, x) && !contains_str(&out, x) {
            insert_sorted(&mut out, x);
        }
        proof {
            assert forall|y: Seq<char>| views(out@).contains(y) <==> (pa.push(x@).contains(y) && !views(b@).contains(y)) by {
                if pa.push(x@).contains(y) {
                    let j = choose|j: int| 0 <= j < pa.push(x@).len() && pa.push(x@)[j] == y;
                    if j < pa.len() {
                        assert(pa[j] == y);
                        assert(pa.contains(y));
                    }
                }
                if pa.contains(y) {
                    let j = choose|j: int| 0 <= j < pa.len() && pa[j] == y;
                    assert(pa.push(x@)[j] == y);
                }
                if y == x@ {
                    assert(pa.push(x@)[pa.len() as int] == y);
                }
            }
        }
        i = i + 1;
    }
    assert(a@.subrange(0, a@.len() as int) =~= a@);
    out
}

/// What a sync of a configuration file changes.
pub struct Diff {
    /// The leaf paths of the defaults that the file lacks, ascending.
    pub added: Vec<String>,
    /// The leaf paths of the file that the defaults lack, ascending.
    pub removed: Vec<String>,
}

/// The leaf paths a sync adds to a file shaped `old` and removes from it, against the
/// defaults shaped `default`.
pub fn diff_fields(old: &JsonShape, default: &JsonShape) -> (r: Diff)
    ensures
        strictly_sorted(views(r.added@)),
        strictly_sorted(views(r.removed@)),
        forall|y: Seq<char>| views(r.added@).contains(y) <==> (shape_leaves(*default, seq![]).contains(y)
            && !shape_leaves(*old, seq![]).contains(y)),
        forall|y: Seq<char>| views(r.removed@).contains(y) <==> (shape_leaves(*old, seq![]).contains(y)
            && !shape_leaves(*default, seq![]).contains(y)),
{
    proof {
        reveal_strlit("");
        assert(""@ =~= Seq::<char>::empty());
    }
    let old_paths = leaf_paths(old, "");
    let default_paths = leaf_paths(default, "");
    assert(views(old_paths@) == shape_leaves(*old, seq![]));
    assert(views(default_paths@) == shape_leaves(*default, seq![]));
    let added = sorted_difference(&default_paths, &old_paths);
    let removed = sorted_difference(&old_paths, &default_paths);
    Diff { added, removed }
}

/// Two strictly sorted lists with the same elements are the same list: what a sync reports
/// is fixed by the two shapes, whatever order their keys come in.
pub proof fn law_sorted_is_unique(s: Seq<Seq<char>>, t: Seq<Seq<char>>)
    requires
        strictly_sorted(s),
        strictly_sorted(t),
        forall|y: Seq<char>| s.contains(y) <==> t.contains(y),
    ensures
        s == t,
    decreases s.len() + t.len(),
{
    if s.len() == 0 {
        if t.len() > 0 {
            assert(t.contains(t[0]));
        }
        assert(t =~= s);
    } else if t.len() == 0 {
        assert(s.contains(s[0]));
    } else {
        // the first elements are both the least element
        assert(s.contains(s[0]));
        assert(t.contains(t[0]));
        let js = choose|j: int| 0 <= j < s.len() && s[j] == t[0];
        let jt = choose|j: int| 0 <= j < t.len() && t[j] == s[0];
        if js > 0 {
            assert(lex_lt(s[0], s[js]));
            if jt > 0 {
                assert(lex_lt(t[0], t[jt]));
                lemma_lex_transitive(s[0], t[0], s[0]);
                lemma_lex_irreflexive(s[0]);
            } else {
                lemma_lex_irreflexive(s[0]);
            }
        }
        assert(s[0] == t[0]);
        let s1 = s.drop_first();
        let t1 = t.drop_first();
        assert forall|i: int, j: int| 0 <= i < j < s1.len() implies lex_lt(#[trigger] s1[i], #[trigger] s1[j]) by {
            assert(s1[i] == s[i + 1] && s1[j] == s[j + 1]);
        }
        assert forall|i: int, j: int| 0 <= i < j < t1.len() implies lex_lt(#[trigger] t1[i], #[trigger] t1[j]) by {
            assert(t1[i] == t[i + 1] && t1[j] == t[j + 1]);
        }
        assert forall|y: Seq<char>| s1.contains(y) <==> t1.contains(y) by {
            if s1.contains(y) {
                let j = choose|j: int| 0 <= j < s1.len() && s1[j] == y;
                assert(s[j + 1] == y);
                assert(lex_lt(s[0], y));
                lemma_lex_irreflexive(y);
                assert(t.contains(y));
                let k = choose|k: int| 0 <= k < t.len() && t[k] == y;
                assert(k != 0);
                assert(t1[k - 1] == y);
            }
            if t1.contains(y) {
                let j = choose|j: int| 0 <= j < t1.len() && t1[j] == y;
                assert(t[j + 1] == y);
                assert(lex_lt(t[0], y));
                lemma_lex_irreflexive(y);
                assert(s.contains(y));
                let k = choose|k: int| 0 <= k < s.len() && s[k] == y;
                assert(k != 0);
                assert(s1[k - 1] == y);
            }
        }
        law_sorted_is_unique(s1, t1);
        assert(s =~= seq![s[0]] + s1);
        assert(t =~= seq![t[0]] + t1);
    }
}


// ───────── describing a default in the sync report ─────────

/// The name of a value's kind in the sync report.
pub open spec fn spec_value_kind(s: JsonShape) -> Seq<char> {
    match s {
        JsonShape::Object(_) => "object"@,
        JsonShape::Leaf(l) => match l {
            JsonLeaf::Null => "null"@,
            JsonLeaf::Bool(_) => "bool"@,
            JsonLeaf::Number(_) => "number"@,
            JsonLeaf::Str(_) => "string"@,
            JsonLeaf::Array(_) => "array"@,
        },
    }
}

/// The name of a value's kind in the sync report.
pub fn value_kind(s: &JsonShape) -> (r: &'static str)
    ensures
        r@ == spec_value_kind(*s),
{
    match s {
        JsonShape::Object(_) => "object",
        JsonShape::Leaf(l) => match l {
            JsonLeaf::Null => "null",
            JsonLeaf::Bool(_) => "bool",
            JsonLeaf::Number(_) => "number",
            JsonLeaf::Str(_) => "string",
            JsonLeaf::Array(_) => "array",
        },
    }
}

/// How the sync report shows a default value: strings quoted, arrays by their length,
/// objects as `{}`.
pub open spec fn spec_format_default(s: JsonShape) -> Seq<char> {
    match s {
        JsonShape::Object(_) => "{}"@,
        JsonShape::Leaf(l) => match l {
            JsonLeaf::Null => "null"@,
            JsonLeaf::Bool(b) => if b {
                "true"@
            } else {
                "false"@
            },
            JsonLeaf::Number(n) => n@,
            JsonLeaf::Str(t) => "\""@ + t@ + "\""@,
            JsonLeaf::Array(k) => if k == 0 {
                "[]"@
            } else {
                "["@ + decimal(k as nat) + " 个元素]"@
            },
        },
    }
}

/// The sync report names objects `object`, null `null`, booleans `bool`, numbers `number`,
/// strings `string` and arrays `array`; it shows an object as `{}`, null as `null`, a
/// boolean as `true` or `false`, a number as written, a string in double quotes, an empty
/// array as `[]` and any other array as `[n 个元素]` with its length `n`.
pub proof fn law_report_kinds_and_defaults(s: JsonShape)
    ensures
        s is Object ==> spec_value_kind(s) == "object"@ && spec_format_default(s) == "{}"@,
        s matches JsonShape::Leaf(l) ==> (l is Null ==> spec_value_kind(s) == "null"@ && spec_format_default(s)
            == "null"@),
        s matches JsonShape::Leaf(l) ==> (l matches JsonLeaf::Bool(b) ==> spec_value_kind(s) == "bool"@
            && spec_format_default(s) == (if b { "true"@ } else { "false"@ })),
        s matches JsonShape::Leaf(l) ==> (l matches JsonLeaf::Number(n) ==> spec_value_kind(s) == "number"@
            && spec_format_default(s) == n@),
        s matches JsonShape::Leaf(l) ==> (l matches JsonLeaf::Str(t) ==> spec_value_kind(s) == "string"@
            && spec_format_default(s) == "\""@ + t@ + "\""@),
        s matches JsonShape::Leaf(l) ==> (l matches JsonLeaf::Array(k) ==> spec_value_kind(s) == "array"@
            && spec_format_default(s) == (if k == 0 { "[]"@ } else { "["@ + decimal(k as nat) + " 个元素]"@ })),
{
}

/// How the sync report shows a default value (see `spec_format_default`).
pub fn format_default(s: &JsonShape) -> (r: String)
    ensures
        r@ == spec_format_default(*s),
{
    let mut out = String::new();
    match s {
        JsonShape::Object(_) => push_str(&mut out, "{}"),
        JsonShape::Leaf(l) => match l {
            JsonLeaf::Null => push_str(&mut out, "null"),
            JsonLeaf::Bool(b) => if *b {
                push_str(&mut out, "true")
            } else {
                push_str(&mut out, "false")
            },
            JsonLeaf::Number(n) => push_str(&mut out, n.as_str()),
            JsonLeaf::Str(t) => {
                push_str(&mut out, "\"");
                push_str(&mut out, t.as_str());
                push_str(&mut out, "\"");
            },
            JsonLeaf::Array(k) => if *k == 0 {
                push_str(&mut out, "[]")
            } else {
                push_str(&mut out, "[");
                push_decimal(&mut out, *k as u64);
                push_str(&mut out, " 个元素]");
            },
        },
    }
    out
}

/// The first entry from position `i` on whose key is `k`.
pub open spec fn first_key(v: Seq<(String, JsonShape)>, k: Seq<char>, i: int) -> Option<int>
    decreases v.len() - i,
{
    if i < 0 || i >= v.len() {
        None
    } else if v[i].0@ == k {
        Some(i)
    } else {
        first_key(v, k, i + 1)
    }
}

/// The value reached from `s` by following the keys `keys` in turn; `None` when a key is
/// missing or a value on the way is no object.
pub open spec fn value_at(s: JsonShape, keys: Seq<Seq<char>>) -> Option<JsonShape>
    decreases keys.len(),
{
    if keys.len() == 0 {
        Some(s)
    } else {
        match s {
            JsonShape::Leaf(_) => None,
            JsonShape::Object(v) => match first_key(v@, keys[0], 0) {
                None => None,
                Some(i) => value_at(v@[i].1, keys.drop_first()),
            },
        }
    }
}

fn find_key(v: &Vec<(String, JsonShape)>, k: &str) -> (r: Option<usize>)
    ensures
        match r {
            Some(i) => first_key(v@, k@, 0) == Some(i as int) && i < v@.len(),
            None => first_key(v@, k@, 0) is None,
        },
{
    let mut i: usize = 0;
    while i < v.len()
        invariant
            i <= v@.len(),
            first_key(v@, k@, 0) == first_key(v@, k@, i as int),
        decreases v@.len() - i,
    {
        if str_eq(v[i].0.as_str(), k) {
            return Some(i);
        }
        i = i + 1;
    }
    None
}

/// The value at a dotted path (the path split at `.`, see `value_at`), as the sync report
/// looks up the default of a new field.
pub fn value_at_path<'a>(s: &'a JsonShape, path: &str) -> (r: Option<&'a JsonShape>)
    ensures
        match r {
            Some(x) => value_at(*s, split_on(path@, '.')) == Some(*x),
            None => value_at(*s, split_on(path@, '.')) is None,
        },
{
    let chars = to_chars(path);
    let ranges = split_ranges(&chars, '.');
    let ghost keys = split_on(path@, '.');
    let mut cur: &JsonShape = s;
    let mut i: usize = 0;
    assert(keys.skip(0) =~= keys);
    while i < ranges.len()
        invariant
            i <= ranges@.len(),
            chars@ == path@,
            keys == split_on(path@, '.'),
            ranges@.len() == keys.len(),
            forall|k: int|
                0 <= k < ranges@.len() ==> #[trigger] ranges@[k].0 <= ranges@[k].1 <= chars@.len()
                    && chars@.subrange(ranges@[k].0 as int, ranges@[k].1 as int) == keys[k],
            value_at(*s, keys) == value_at(*cur, keys.skip(i as int)),
        decreases ranges@.len() - i,
    {
        let (lo, hi) = ranges[i];
        let key = from_char_range(&chars, lo, hi);
        let ghost rest = keys.skip(i as int);
        assert(rest[0] == keys[i as int]);
        assert(rest.drop_first() =~= keys.skip(i + 1));
        match cur {
            JsonShape::Leaf(_) => {
                return None;
            },
            JsonShape::Object(v) => {
                match find_key(v, key.as_str()) {
                    None => {
                        return None;
                    },
                    Some(j) => {
                        cur = &v[j].1;
                    },
                }
            },
        }
        i = i + 1;
    }
    assert(keys.skip(ranges@.len() as int).len() == 0);
    Some(cur)
}

} // verus!
