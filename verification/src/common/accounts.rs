//! Account records: cookie parsing and the store of registered accounts.
//!
//! A cookie has the shape `openId=xxx; accessToken=yyy; newuin=<QQ>`.
//! The store keeps one cookie per QQ number; reading and writing the
//! file that backs it is left to the caller.
use vstd::prelude::*;

use crate::text::{
    all_ascii_digits, from_char_range, is_white_space, owned, push_str, str_all_ascii_digits, str_eq, to_chars,
};
use crate::text_spec::{
    find_char, find_char_in, lacks, lemma_find_char_skip, lemma_lacks_take_skip, lemma_split_concat,
    lemma_split_on_nonempty, lemma_split_pieces_lack_sep, lemma_split_without_sep, lemma_trim_fixed, lemma_trim_shape,
    lemma_trim_start_skip, split_on, trim, trim_bounds,
};

verus! {

/// One entry of the cookie file.
#[derive(Debug, Clone, Default)]
pub struct AccountRecord {
    pub cookie: String,
}

/// A registered account: its QQ number and its record.
#[derive(Debug, Clone)]
pub struct Account {
    pub qq: String,
    pub record: AccountRecord,
}

/// Why an account operation was refused.
#[derive(Debug)]
pub enum AccountError {
    /// The cookie lacks one of `openId`, `accessToken`, `newuin` (or its value is empty).
    MissingFields,
    /// The cookie has no `newuin` field.
    NoQqField,
    /// The `newuin` value is not made of ASCII digits only; holds the value.
    NonNumericQq(String),
    /// The store holds no account.
    NoAccounts,
    /// No account has this QQ number.
    NotFound(String),
}

impl AccountError {
    /// The message the user reads for this error.
    pub open spec fn spec_message(&self) -> Seq<char> {
        match *self {
            AccountError::MissingFields => "Cookie 必须包含 openId、accessToken、newuin 三个字段"@,
            AccountError::NoQqField => "未找到 newuin 字段"@,
            AccountError::NonNumericQq(v) => "newuin 必须为纯数字，当前值: "@ + v@,
            AccountError::NoAccounts => "没有已登记的账号，请先使用「登记」命令添加 Cookie"@,
            AccountError::NotFound(qq) => "未找到 QQ 号为 "@ + qq@ + " 的账号"@,
        }
    }

    /// The message the user reads for this error.
    pub fn message(&self) -> (r: String)
        ensures
            r@ == self.spec_message(),
    {
        let mut s = String::new();
        match self {
            AccountError::MissingFields => push_str(&mut s, "Cookie 必须包含 openId、accessToken、newuin 三个字段"),
            AccountError::NoQqField => push_str(&mut s, "未找到 newuin 字段"),
            AccountError::NonNumericQq(v) => {
                push_str(&mut s, "newuin 必须为纯数字，当前值: ");
                push_str(&mut s, v.as_str());
            },
            AccountError::NoAccounts => push_str(&mut s, "没有已登记的账号，请先使用「登记」命令添加 Cookie"),
            AccountError::NotFound(qq) => {
                push_str(&mut s, "未找到 QQ 号为 ");
                push_str(&mut s, qq.as_str());
                push_str(&mut s, " 的账号");
            },
        }
        s
    }
}

/// The key and value of one `;`-separated piece of a cookie, if it has a `=` and a
/// non-empty value; both trimmed.
pub open spec fn cookie_kv(part: Seq<char>) -> Option<(Seq<char>, Seq<char>)> {
    let p = trim(part);
    match find_char(p, '=') {
        None => None,
        Some(i) => {
            let k = trim(p.take(i as int));
            let v = trim(p.skip(i as int + 1));
            if v.len() == 0 {
                None
            } else {
                Some((k, v))
            }
        },
    }
}

/// `cookie_kv` of each piece, pieces without one dropped, in order.
pub open spec fn kv_pairs(parts: Seq<Seq<char>>) -> Seq<(Seq<char>, Seq<char>)>
    decreases parts.len(),
{
    if parts.len() == 0 {
        Seq::empty()
    } else {
        let prev = kv_pairs(parts.drop_last());
        match cookie_kv(parts.last()) {
            Some(kv) => prev.push(kv),
            None => prev,
        }
    }
}

/// The key/value pairs of a cookie string, in order.
pub open spec fn cookie_pairs(cookie: Seq<char>) -> Seq<(Seq<char>, Seq<char>)> {
    kv_pairs(split_on(cookie, ';'))
}

/// The value of the last pair with this key.
pub open spec fn last_value(pairs: Seq<(Seq<char>, Seq<char>)>, key: Seq<char>) -> Option<Seq<char>>
    decreases pairs.len(),
{
    if pairs.len() == 0 {
        None
    } else if pairs.last().0 == key {
        Some(pairs.last().1)
    } else {
        last_value(pairs.drop_last(), key)
    }
}

/// The value of the first pair with this key.
pub open spec fn first_value(pairs: Seq<(Seq<char>, Seq<char>)>, key: Seq<char>) -> Option<Seq<char>>
    decreases pairs.len(),
{
    if pairs.len() == 0 {
        None
    } else if pairs[0].0 == key {
        Some(pairs[0].1)
    } else {
        first_value(pairs.drop_first(), key)
    }
}

/// The last value of a key is the value of the last pair with that key, and there is none
/// exactly when no pair has the key; the first value likewise comes from the first pair
/// with the key.
pub proof fn law_first_and_last_values(ps: Seq<(Seq<char>, Seq<char>)>, key: Seq<char>)
    ensures
        last_value(ps, key) is None <==> forall|i: int| 0 <= i < ps.len() ==> (#[trigger] ps[i]).0 != key,
        last_value(ps, key) is Some ==> exists|i: int|
            0 <= i < ps.len() && (#[trigger] ps[i]).0 == key && last_value(ps, key) == Some(ps[i].1) && forall|j: int|
                i < j < ps.len() ==> (#[trigger] ps[j]).0 != key,
        first_value(ps, key) is None <==> forall|i: int| 0 <= i < ps.len() ==> (#[trigger] ps[i]).0 != key,
        first_value(ps, key) is Some ==> exists|i: int|
            0 <= i < ps.len() && (#[trigger] ps[i]).0 == key && first_value(ps, key) == Some(ps[i].1) && forall|j: int|
                0 <= j < i ==> (#[trigger] ps[j]).0 != key,
    decreases ps.len(),
{
    if ps.len() > 0 {
        let l = ps.drop_last();
        let f = ps.drop_first();
        law_first_and_last_values(l, key);
        law_first_and_last_values(f, key);
        assert forall|i: int| 0 <= i < l.len() implies #[trigger] l[i] == ps[i] by {}
        assert forall|i: int| 0 <= i < f.len() implies #[trigger] f[i] == ps[i + 1] by {}
        if ps.last().0 != key {
            if last_value(l, key) is Some {
                let i = choose|i: int|
                    0 <= i < l.len() && (#[trigger] l[i]).0 == key && last_value(l, key) == Some(l[i].1) && forall|j: int|
                        i < j < l.len() ==> (#[trigger] l[j]).0 != key;
                assert(ps[i] == l[i]);
                assert forall|j: int| i < j < ps.len() implies (#[trigger] ps[j]).0 != key by {
                    if j < l.len() {
                        assert(l[j] == ps[j]);
                    }
                }
            } else {
                assert forall|i: int| 0 <= i < ps.len() implies (#[trigger] ps[i]).0 != key by {
                    if i < l.len() {
                        assert(l[i] == ps[i]);
                    }
                }
            }
        } else {
            assert(ps[ps.len() - 1].0 == key);
        }
        if ps[0].0 != key {
            if first_value(f, key) is Some {
                let i = choose|i: int|
                    0 <= i < f.len() && (#[trigger] f[i]).0 == key && first_value(f, key) == Some(f[i].1) && forall|j: int|
                        0 <= j < i ==> (#[trigger] f[j]).0 != key;
                assert(ps[i + 1] == f[i]);
                assert forall|j: int| 0 <= j < i + 1 implies (#[trigger] ps[j]).0 != key by {
                    if j > 0 {
                        assert(f[j - 1] == ps[j]);
                    }
                }
            } else {
                assert forall|i: int| 0 <= i < ps.len() implies (#[trigger] ps[i]).0 != key by {
                    if i > 0 {
                        assert(f[i - 1] == ps[i]);
                    }
                }
            }
        } else {
            assert(ps[0].0 == key);
        }
    }
}

/// The standard form `openId=o; accessToken=a; newuin=n` of a cookie, taking for each
/// field its last value; `None` when a field is missing.
pub open spec fn spec_format_cookie(cookie: Seq<char>) -> Option<Seq<char>> {
    let ps = cookie_pairs(cookie);
    match (last_value(ps, "openId"@), last_value(ps, "accessToken"@), last_value(ps, "newuin"@)) {
        (Some(o), Some(a), Some(n)) => Some(
            "openId="@ + o + "; accessToken="@ + a + "; newuin="@ + n,
        ),
        _ => None,
    }
}

/// The views of a vector of string pairs.
pub open spec fn pairs_view(v: Seq<(String, String)>) -> Seq<(Seq<char>, Seq<char>)> {
    v.map_values(|p: (String, String)| (p.0@, p.1@))
}

impl Account {
    /// The (QQ, cookie) pair this account stands for.
    pub open spec fn entry(&self) -> (Seq<char>, Seq<char>) {
        (self.qq@, self.record.cookie@)
    }

    /// Builds an account from a raw cookie: the cookie is put in standard form, and the
    /// QQ number is the `newuin` value of that form.
    pub fn from_cookie(raw: &str) -> (r: Result<Account, AccountError>)
        ensures
            match spec_format_cookie(raw@) {
                None => r matches Err(AccountError::MissingFields),
                Some(c) => match first_value(cookie_pairs(c), "newuin"@) {
                    None => r matches Err(AccountError::NoQqField),
                    Some(q) => if all_ascii_digits(q) {
                        r matches Ok(a) && a.record.cookie@ == c && a.qq@ == q
                    } else {
                        r matches Err(AccountError::NonNumericQq(v)) && v@ == q
                    },
                },
            },
    {
        let cookie = match Self::format_cookie(raw) {
            Ok(c) => c,
            Err(e) => return Err(e),
        };
        let qq = match Self::extract_qq(cookie.as_str()) {
            Ok(q) => q,
            Err(e) => return Err(e),
        };
        Ok(Account { qq, record: AccountRecord { cookie } })
    }

    /// Puts a cookie in standard form `openId=...; accessToken=...; newuin=...`; other
    /// fields are dropped, and a field given twice keeps its last value.
    pub fn format_cookie(cookie: &str) -> (r: Result<String, AccountError>)
        ensures
            match spec_format_cookie(cookie@) {
                Some(c) => r matches Ok(s) && s@ == c,
                None => r matches Err(AccountError::MissingFields),
            },
    {
        let parts = Self::parse_cookie_parts(cookie);
        let ghost ps = pairs_view(parts@);
        let mut open_id: Option<usize> = None;
        let mut access_token: Option<usize> = None;
        let mut new_uin: Option<usize> = None;
        let mut i: usize = 0;
        while i < parts.len()
            invariant
                i <= parts@.len(),
                ps == pairs_view(parts@),
                match open_id {
                    Some(j) => j < i && last_value(ps.take(i as int), "openId"@) == Some(ps[j as int].1),
                    None => last_value(ps.take(i as int), "openId"@) is None,
                },
                match access_token {
                    Some(j) => j < i && last_value(ps.take(i as int), "accessToken"@) == Some(ps[j as int].1),
                    None => last_value(ps.take(i as int), "accessToken"@) is None,
                },
                match new_uin {
                    Some(j) => j < i && last_value(ps.take(i as int), "newuin"@) == Some(ps[j as int].1),
                    None => last_value(ps.take(i as int), "newuin"@) is None,
                },
            decreases parts@.len() - i,
        {
            let key = parts[i].0.as_str();
            assert(ps.take(i + 1).drop_last() =~= ps.take(i as int));
            assert(ps.take(i + 1).last() == ps[i as int]);
            assert(ps[i as int].0 == key@);
            if str_eq(key, "openId") {
                open_id = Some(i);
            }
            if str_eq(key, "accessToken") {
                access_token = Some(i);
            }
            if str_eq(key, "newuin") {
                new_uin = Some(i);
            }
            i = i + 1;
        }
        assert(ps.take(parts@.len() as int) =~= ps);
        match (open_id, access_token, new_uin) {
            (Some(o), Some(a), Some(n)) => {
                let mut s = String::new();
                push_str(&mut s, "openId=");
                push_str(&mut s, parts[o].1.as_str());
                push_str(&mut s, "; accessToken=");
                push_str(&mut s, parts[a].1.as_str());
                push_str(&mut s, "; newuin=");
                push_str(&mut s, parts[n].1.as_str());
                Ok(s)
            },
            _ => Err(AccountError::MissingFields),
        }
    }

    /// The QQ number of a cookie: the value of its first `newuin` field, which must be
    /// made of ASCII digits.
    pub fn extract_qq(cookie: &str) -> (r: Result<String, AccountError>)
        ensures
            match first_value(cookie_pairs(cookie@), "newuin"@) {
                None => r matches Err(AccountError::NoQqField),
                Some(q) => if all_ascii_digits(q) {
                    r matches Ok(s) && s@ == q
                } else {
                    r matches Err(AccountError::NonNumericQq(v)) && v@ == q
                },
            },
    {
        let parts = Self::parse_cookie_parts(cookie);
        let ghost ps = pairs_view(parts@);
        assert(ps.skip(0) =~= ps);
        let mut i: usize = 0;
        while i < parts.len()
            invariant
                i <= parts@.len(),
                ps == pairs_view(parts@),
                ps == cookie_pairs(cookie@),
                first_value(ps, "newuin"@) == first_value(ps.skip(i as int), "newuin"@),
            decreases parts@.len() - i,
        {
            let key = parts[i].0.as_str();
            let value = parts[i].1.as_str();
            let ghost rest = ps.skip(i as int);
            assert(rest.len() > 0);
            assert(rest[0] == ps[i as int]);
            assert(rest[0].0 == key@ && rest[0].1 == value@);
            assert(rest.drop_first() =~= ps.skip(i + 1));
            if str_eq(key, "newuin") {
                assert(first_value(ps, "newuin"@) == Some(value@));
                if !str_all_ascii_digits(value) {
                    return Err(AccountError::NonNumericQq(owned(value)));
                }
                return Ok(owned(value));
            }
            i = i + 1;
        }
        assert(ps.skip(parts@.len() as int).len() == 0);
        Err(AccountError::NoQqField)
    }

    /// The key/value pairs of a cookie in order: the string is split at `;`, each piece is
    /// trimmed and split at its first `=`, key and value are trimmed, and pieces without
    /// `=` or with an empty value are skipped.
    pub fn parse_cookie_parts(cookie: &str) -> (r: Vec<(String, String)>)
        ensures
            pairs_view(r@) == cookie_pairs(cookie@),
    {
        let v = to_chars(cookie);
        let mut out: Vec<(String, String)> = Vec::new();
        let ghost mut parts: Seq<Seq<char>> = Seq::empty();
        let mut start: usize = 0;
        let mut i: usize = 0;
        assert(v@.take(0) =~= Seq::<char>::empty());
        while i < v.len()
            invariant
                v@ == cookie@,
                start <= i <= v@.len(),
                split_on(v@.take(i as int), ';') == parts.push(v@.subrange(start as int, i as int)),
                pairs_view(out@) == kv_pairs(parts),
            decreases v@.len() - i,
        {
            let c = v[i];
            proof {
                let t = v@.take(i + 1);
                assert(t.drop_last() =~= v@.take(i as int));
                assert(t.last() == c);
                lemma_split_on_nonempty(v@.take(i as int), ';');
            }
            if c == ';' {
                let seg = Self::piece_kv(&v, start, i);
                proof {
                    assert(kv_pairs(parts.push(v@.subrange(start as int, i as int))).drop_last() == kv_pairs(parts)
                        || true);
                    let np = parts.push(v@.subrange(start as int, i as int));
                    assert(np.drop_last() =~= parts);
                }
                match seg {
                    Some(kv) => {
                        out.push(kv);
                    },
                    None => {},
                }
                proof {
                    let np = parts.push(v@.subrange(start as int, i as int));
                    assert(pairs_view(out@) =~= kv_pairs(np));
                    parts = np;
                    assert(v@.subrange(i + 1, i + 1) =~= Seq::<char>::empty());
                }
                start = i + 1;
            } else {
                proof {
                    assert(v@.subrange(start as int, i + 1) =~= v@.subrange(start as int, i as int).push(c));
                }
            }
            i = i + 1;
        }
        proof {
            assert(v@.take(v@.len() as int) =~= v@);
        }
        let seg = Self::piece_kv(&v, start, v.len());
        let ghost np = parts.push(v@.subrange(start as int, v@.len() as int));
        assert(np.drop_last() =~= parts);
        match seg {
            Some(kv) => {
                out.push(kv);
            },
            None => {},
        }
        assert(pairs_view(out@) =~= kv_pairs(np));
        out
    }

    /// `cookie_kv` of the piece `v[lo..hi]`.
    fn piece_kv(v: &Vec<char>, lo: usize, hi: usize) -> (r: Option<(String, String)>)
        requires
            lo <= hi <= v@.len(),
        ensures
            match cookie_kv(v@.subrange(lo as int, hi as int)) {
                Some(kv) => r matches Some(p) && p.0@ == kv.0 && p.1@ == kv.1,
                None => r is None,
            },
    {
        let (a, b) = trim_bounds(v, lo, hi);
        let ghost p = v@.subrange(a as int, b as int);
        match find_char_in(v, a, b, '=') {
            None => None,
            Some(e) => {
                let eq = a + e;
                let (ka, kb) = trim_bounds(v, a, eq);
                let (va, vb) = trim_bounds(v, eq + 1, b);
                proof {
                    assert(p.take(e as int) =~= v@.subrange(a as int, eq as int));
                    assert(p.skip(e + 1) =~= v@.subrange(eq + 1, b as int));
                }
                if va == vb {
                    None
                } else {
                    Some((from_char_range(v, ka, kb), from_char_range(v, va, vb)))
                }
            },
        }
    }
}

// ───────── the standard form is stable ─────────

/// A value as a cookie's pairs hold it: not empty, without `;`, and with no white space
/// at either end.
pub open spec fn settled_value(v: Seq<char>) -> bool {
    &&& v.len() > 0
    &&& lacks(v, ';')
    &&& !is_white_space(v[0])
    &&& !is_white_space(v.last())
}

proof fn lemma_find_char_found(s: Seq<char>, c: char)
    ensures
        find_char(s, c) matches Some(i) ==> i < s.len() && s[i as int] == c,
    decreases s.len(),
{
    if s.len() > 0 && s[0] != c {
        lemma_find_char_found(s.drop_first(), c);
    }
}

/// The values of the pairs read from pieces without `;` are settled.
proof fn lemma_pairs_settled(parts: Seq<Seq<char>>)
    requires
        forall|k: int| 0 <= k < parts.len() ==> lacks(#[trigger] parts[k], ';'),
    ensures
        forall|j: int| 0 <= j < kv_pairs(parts).len() ==> settled_value(#[trigger] kv_pairs(parts)[j].1),
    decreases parts.len(),
{
    if parts.len() > 0 {
        let init = parts.drop_last();
        assert forall|k: int| 0 <= k < init.len() implies lacks(#[trigger] init[k], ';') by {
            assert(init[k] == parts[k]);
        }
        lemma_pairs_settled(init);
        let part = parts.last();
        assert(lacks(part, ';')) by {
            assert(part == parts[parts.len() - 1]);
        }
        let prev = kv_pairs(init);
        let p = trim(part);
        lemma_trim_shape(part, ';');
        lemma_find_char_found(p, '=');
        if let Some(i) = find_char(p, '=') {
            lemma_lacks_take_skip(p, ';', i as int + 1);
            lemma_trim_shape(p.skip(i as int + 1), ';');
        }
        match cookie_kv(part) {
            Some(kv) => {
                assert(settled_value(kv.1));
                assert forall|j: int| 0 <= j < kv_pairs(parts).len() implies settled_value(
                    #[trigger] kv_pairs(parts)[j].1,
                ) by {
                    if j < prev.len() {
                        assert(kv_pairs(parts)[j] == prev[j]);
                    }
                }
            },
            None => {},
        }
    }
}

/// The last value of a key among settled pairs is settled.
proof fn lemma_last_value_settled(ps: Seq<(Seq<char>, Seq<char>)>, key: Seq<char>)
    requires
        forall|j: int| 0 <= j < ps.len() ==> settled_value(#[trigger] ps[j].1),
    ensures
        last_value(ps, key) matches Some(v) ==> settled_value(v),
    decreases ps.len(),
{
    if ps.len() > 0 && ps.last().0 != key {
        let init = ps.drop_last();
        assert forall|j: int| 0 <= j < init.len() implies settled_value(#[trigger] init[j].1) by {
            assert(init[j] == ps[j]);
        }
        lemma_last_value_settled(init, key);
    } else if ps.len() > 0 {
        assert(ps.last() == ps[ps.len() - 1]);
    }
}

/// A piece `key=value`, after nothing or one space, reads back as that pair.
proof fn lemma_field_reads_back(pre: Seq<char>, key: Seq<char>, v: Seq<char>)
    requires
        pre == Seq::<char>::empty() || pre == seq![' '],
        key.len() > 0,
        !is_white_space(key[0]),
        !is_white_space(key.last()),
        lacks(key, '='),
        settled_value(v),
    ensures
        cookie_kv(pre + key + seq!['='] + v) == Some((key, v)),
{
    let piece = pre + key + seq!['='] + v;
    let q = key + seq!['='] + v;
    assert(q[0] == key[0]);
    assert(q.last() == v.last());
    lemma_trim_fixed(q);
    if pre.len() == 1 {
        assert(is_white_space(piece[0]));
        lemma_trim_start_skip(piece, 1);
        assert(piece.skip(1) =~= q);
    } else {
        assert(piece =~= q);
    }
    assert(trim(piece) == q);
    let n = key.len() as int;
    assert forall|j: int| 0 <= j < n implies #[trigger] q[j] != '=' by {
        assert(q[j] == key[j]);
    }
    lemma_find_char_skip(q, '=', n);
    assert(q.skip(n)[0] == '=');
    assert(find_char(q, '=') == Some(n as nat));
    assert(q.take(n) =~= key);
    assert(q.skip(n + 1) =~= v);
    lemma_trim_fixed(key);
    lemma_trim_fixed(v);
}

/// A piece built from literal characters and a settled value holds no `;`.
proof fn lemma_field_lacks_semicolon(head: Seq<char>, v: Seq<char>)
    requires
        lacks(head, ';'),
        settled_value(v),
    ensures
        lacks(head + v, ';'),
{
    assert forall|i: int| 0 <= i < (head + v).len() implies #[trigger] (head + v)[i] != ';' by {
        if i < head.len() {
            assert((head + v)[i] == head[i]);
        } else {
            assert((head + v)[i] == v[i - head.len()]);
        }
    }
}

/// The standard form of a cookie is its own standard form, and its QQ number is the last
/// `newuin` value of the cookie it came from: registering a cookie that was already put in
/// standard form changes nothing.
pub proof fn law_standard_form_is_stable(raw: Seq<char>)
    requires
        spec_format_cookie(raw) is Some,
    ensures
        spec_format_cookie(raw) matches Some(c) && spec_format_cookie(c) == Some(c) && first_value(
            cookie_pairs(c),
            "newuin"@,
        ) == last_value(cookie_pairs(raw), "newuin"@),
{
    let ps = cookie_pairs(raw);
    lemma_split_pieces_lack_sep(raw, ';');
    lemma_pairs_settled(split_on(raw, ';'));
    lemma_last_value_settled(ps, "openId"@);
    lemma_last_value_settled(ps, "accessToken"@);
    lemma_last_value_settled(ps, "newuin"@);
    let o = last_value(ps, "openId"@)->0;
    let a = last_value(ps, "accessToken"@)->0;
    let n = last_value(ps, "newuin"@)->0;
    let c = spec_format_cookie(raw)->0;
    reveal_strlit("openId=");
    reveal_strlit("; accessToken=");
    reveal_strlit("; newuin=");
    reveal_strlit("openId");
    reveal_strlit("accessToken");
    reveal_strlit("newuin");
    let k1 = "openId"@;
    let k2 = "accessToken"@;
    let k3 = "newuin"@;
    let e = Seq::<char>::empty();
    let sp = seq![' '];
    let p1 = e + k1 + seq!['='] + o;
    let p2 = sp + k2 + seq!['='] + a;
    let p3 = sp + k3 + seq!['='] + n;
    assert(c =~= p1 + seq![';'] + (p2 + seq![';'] + p3));
    // the three pieces
    lemma_field_lacks_semicolon(e + k1 + seq!['='], o);
    lemma_field_lacks_semicolon(sp + k2 + seq!['='], a);
    lemma_field_lacks_semicolon(sp + k3 + seq!['='], n);
    lemma_split_without_sep(p1, ';');
    lemma_split_without_sep(p2, ';');
    lemma_split_without_sep(p3, ';');
    lemma_split_concat(p2, p3, ';');
    lemma_split_concat(p1, p2 + seq![';'] + p3, ';');
    let parts = seq![p1, p2, p3];
    assert(split_on(c, ';') =~= parts);
    // each piece reads back as its pair
    lemma_field_reads_back(e, k1, o);
    lemma_field_reads_back(sp, k2, a);
    lemma_field_reads_back(sp, k3, n);
    assert(parts.drop_last() =~= seq![p1, p2]);
    assert(parts.drop_last().drop_last() =~= seq![p1]);
    assert(seq![p1].drop_last() =~= Seq::<Seq<char>>::empty());
    let pairs = seq![(k1, o), (k2, a), (k3, n)];
    assert(seq![p1].last() == p1);
    assert(parts.drop_last().last() == p2);
    assert(parts.last() == p3);
    assert(kv_pairs(Seq::<Seq<char>>::empty()) == Seq::<(Seq<char>, Seq<char>)>::empty());
    assert(kv_pairs(seq![p1]) =~= seq![(k1, o)]);
    assert(kv_pairs(seq![p1, p2]) =~= seq![(k1, o), (k2, a)]);
    assert(cookie_pairs(c) =~= pairs);
    // looking the keys up
    assert(k3[0] != k1[0] && k2.len() != k1.len() && k2.len() != k3.len());
    assert(pairs.drop_last() =~= seq![(k1, o), (k2, a)]);
    assert(seq![(k1, o), (k2, a)].drop_last() =~= seq![(k1, o)]);
    assert(seq![(k1, o)].last() == (k1, o));
    assert(last_value(seq![(k1, o)], k1) == Some(o));
    assert(seq![(k1, o), (k2, a)].last() == (k2, a));
    assert(last_value(seq![(k1, o), (k2, a)], k1) == Some(o));
    assert(last_value(seq![(k1, o), (k2, a)], k2) == Some(a));
    assert(pairs.last() == (k3, n));
    assert(last_value(pairs, k1) == Some(o));
    assert(last_value(pairs, k2) == Some(a));
    assert(last_value(pairs, k3) == Some(n));
    assert(pairs.drop_first() =~= seq![(k2, a), (k3, n)]);
    assert(seq![(k2, a), (k3, n)].drop_first() =~= seq![(k3, n)]);
    assert(seq![(k3, n)][0] == (k3, n));
    assert(first_value(seq![(k3, n)], k3) == Some(n));
    assert(seq![(k2, a), (k3, n)][0] == (k2, a));
    assert(first_value(seq![(k2, a), (k3, n)], k3) == Some(n));
    assert(pairs[0] == (k1, o));
    assert(first_value(pairs, k3) == Some(n));
}

/// Registering a cookie that `from_cookie` accepts gives a non-empty QQ number made of
/// digits, a cookie `openId=o; accessToken=a; newuin=<QQ>`, and registering that cookie
/// again gives the same QQ number and the same cookie.
pub proof fn law_registration_round_trip(raw: Seq<char>)
    requires
        spec_format_cookie(raw) matches Some(c) && first_value(cookie_pairs(c), "newuin"@) matches Some(q)
            && all_ascii_digits(q),
    ensures
        spec_format_cookie(raw) matches Some(c) && first_value(cookie_pairs(c), "newuin"@) matches Some(q) && {
            &&& q.len() > 0
            &&& all_ascii_digits(q)
            &&& c == "openId="@ + last_value(cookie_pairs(raw), "openId"@)->0 + "; accessToken="@ + last_value(
                cookie_pairs(raw),
                "accessToken"@,
            )->0 + "; newuin="@ + q
            &&& spec_format_cookie(c) == Some(c)
            &&& first_value(cookie_pairs(c), "newuin"@) == Some(q)
        },
{
    law_standard_form_is_stable(raw);
    let ps = cookie_pairs(raw);
    lemma_split_pieces_lack_sep(raw, ';');
    lemma_pairs_settled(split_on(raw, ';'));
    lemma_last_value_settled(ps, "newuin"@);
}

/// The pairs (QQ, cookie) of a list of accounts.
pub open spec fn entries_of(v: Seq<Account>) -> Seq<(Seq<char>, Seq<char>)> {
    v.map_values(|a: Account| a.entry())
}

/// No QQ number occurs twice.
pub open spec fn keys_unique(e: Seq<(Seq<char>, Seq<char>)>) -> bool {
    forall|i: int, j: int| 0 <= i < e.len() && 0 <= j < e.len() && i != j ==> e[i].0 != e[j].0
}

/// The position of the entry with this QQ number.
pub open spec fn key_index(e: Seq<(Seq<char>, Seq<char>)>, k: Seq<char>) -> Option<int> {
    if exists|i: int| 0 <= i < e.len() && e[i].0 == k {
        Some(choose|i: int| 0 <= i < e.len() && e[i].0 == k)
    } else {
        None
    }
}

/// The cookie stored under this QQ number.
pub open spec fn lookup(e: Seq<(Seq<char>, Seq<char>)>, k: Seq<char>) -> Option<Seq<char>> {
    match key_index(e, k) {
        Some(i) => Some(e[i].1),
        None => None,
    }
}

/// `e` with the cookie of `k` set to `v`: replaced in place, or appended.
pub open spec fn upsert(e: Seq<(Seq<char>, Seq<char>)>, k: Seq<char>, v: Seq<char>) -> Seq<(Seq<char>, Seq<char>)> {
    match key_index(e, k) {
        Some(i) => e.update(i, (k, v)),
        None => e.push((k, v)),
    }
}

/// `e` without the entry of `k`.
pub open spec fn without(e: Seq<(Seq<char>, Seq<char>)>, k: Seq<char>) -> Seq<(Seq<char>, Seq<char>)> {
    match key_index(e, k) {
        Some(i) => e.remove(i),
        None => e,
    }
}

/// The registered accounts, one per QQ number, in order of registration.
pub struct AccountStore {
    path: String,
    accounts: Vec<Account>,
}

impl AccountStore {
    #[verifier::type_invariant]
    spec fn inv(self) -> bool {
        keys_unique(entries_of(self.accounts@))
    }

    /// The stored (QQ, cookie) pairs.
    pub closed spec fn entries(self) -> Seq<(Seq<char>, Seq<char>)> {
        entries_of(self.accounts@)
    }

    /// The file that backs the store.
    pub closed spec fn path_view(self) -> Seq<char> {
        self.path@
    }

    /// An empty store backed by the file at `path`.
    pub fn new(path: &str) -> (r: AccountStore)
        ensures
            r.entries() == Seq::<(Seq<char>, Seq<char>)>::empty(),
            r.path_view() == path@,
            keys_unique(r.entries()),
    {
        let r = AccountStore { path: owned(path), accounts: Vec::new() };
        assert(entries_of(r.accounts@) =~= Seq::<(Seq<char>, Seq<char>)>::empty());
        r
    }

    /// The file that backs the store.
    pub fn path(&self) -> (r: &str)
        ensures
            r@ == self.path_view(),
            keys_unique(self.entries()),
    {
        proof {
            use_type_invariant(self);
        }
        self.path.as_str()
    }

    fn index_of(&self, qq: &str) -> (r: Option<usize>)
        ensures
            match r {
                Some(i) => key_index(self.entries(), qq@) == Some(i as int) && i < self.entries().len(),
                None => key_index(self.entries(), qq@) is None,
            },
    {
        proof {
            use_type_invariant(self);
        }
        let ghost e = self.entries();
        let mut i: usize = 0;
        while i < self.accounts.len()
            invariant
                i <= self.accounts@.len(),
                e == entries_of(self.accounts@),
                keys_unique(e),
                forall|j: int| 0 <= j < i ==> e[j].0 != qq@,
            decreases self.accounts@.len() - i,
        {
            if str_eq(self.accounts[i].qq.as_str(), qq) {
                proof {
                    assert(e[i as int].0 == qq@);
                    let c = choose|j: int| 0 <= j < e.len() && e[j].0 == qq@;
                    assert(c == i);
                }
                return Some(i);
            }
            i = i + 1;
        }
        None
    }

    /// Stores the account's cookie under its QQ number, replacing an earlier one.
    pub fn save(&mut self, account: &Account)
        ensures
            final(self).entries() == upsert(old(self).entries(), account.qq@, account.record.cookie@),
            keys_unique(final(self).entries()),
            final(self).path_view() == old(self).path_view(),
    {
        proof {
            use_type_invariant(&*self);
        }
        let ghost e = self.entries();
        let copy = Account {
            qq: account.qq.clone(),
            record: AccountRecord { cookie: account.record.cookie.clone() },
        };
        match self.index_of(account.qq.as_str()) {
            Some(i) => {
                let mut accounts = Vec::new();
                std::mem::swap(&mut accounts, &mut self.accounts);
                accounts.set(i, copy);
                proof {
                    assert(entries_of(accounts@) =~= e.update(i as int, (account.qq@, account.record.cookie@)));
                    lemma_upsert_unique(e, account.qq@, account.record.cookie@);
                }
                self.accounts = accounts;
            },
            None => {
                let mut accounts = Vec::new();
                std::mem::swap(&mut accounts, &mut self.accounts);
                accounts.push(copy);
                proof {
                    assert(entries_of(accounts@) =~= e.push((account.qq@, account.record.cookie@)));
                    lemma_upsert_unique(e, account.qq@, account.record.cookie@);
                }
                self.accounts = accounts;
            },
        }
    }

    /// Removes the account of `qq`; tells whether there was one.
    pub fn remove(&mut self, qq: &str) -> (r: bool)
        ensures
            r == (key_index(old(self).entries(), qq@) is Some),
            final(self).entries() == without(old(self).entries(), qq@),
            keys_unique(final(self).entries()),
            final(self).path_view() == old(self).path_view(),
    {
        proof {
            use_type_invariant(&*self);
        }
        let ghost e = self.entries();
        match self.index_of(qq) {
            Some(i) => {
                let mut accounts = Vec::new();
                std::mem::swap(&mut accounts, &mut self.accounts);
                accounts.remove(i);
                proof {
                    assert(entries_of(accounts@) =~= e.remove(i as int));
                    lemma_without_unique(e, qq@);
                }
                self.accounts = accounts;
                true
            },
            None => false,
        }
    }

    /// All accounts, in order of registration; refused when there is none.
    pub fn load_all(&self) -> (r: Result<Vec<Account>, AccountError>)
        ensures
            self.entries().len() == 0 ==> r matches Err(AccountError::NoAccounts),
            self.entries().len() > 0 ==> (r matches Ok(v) && entries_of(v@) == self.entries()),
            keys_unique(self.entries()),
    {
        proof {
            use_type_invariant(self);
        }
        if self.accounts.len() == 0 {
            return Err(AccountError::NoAccounts);
        }
        let mut out: Vec<Account> = Vec::new();
        let mut i: usize = 0;
        while i < self.accounts.len()
            invariant
                i <= self.accounts@.len(),
                entries_of(out@) == entries_of(self.accounts@).take(i as int),
            decreases self.accounts@.len() - i,
        {
            let a = &self.accounts[i];
            let copy = Account { qq: a.qq.clone(), record: AccountRecord { cookie: a.record.cookie.clone() } };
            assert(copy.entry() == self.accounts@[i as int].entry());
            let ghost before = out@;
            out.push(copy);
            assert(out@ == before.push(copy));
            assert(entries_of(out@) =~= entries_of(before).push(copy.entry()));
            assert(entries_of(self.accounts@).take(i + 1) =~= entries_of(self.accounts@).take(i as int).push(self.accounts@[i as int].entry()));
            i = i + 1;
        }
        assert(entries_of(self.accounts@).take(self.accounts@.len() as int) =~= entries_of(self.accounts@));
        Ok(out)
    }

    /// The QQ numbers of all accounts, in order of registration.
    pub fn list_qqs(&self) -> (r: Vec<String>)
        ensures
            r@.len() == self.entries().len(),
            forall|i: int| 0 <= i < r@.len() ==> #[trigger] r@[i]@ == self.entries()[i].0,
            keys_unique(self.entries()),
    {
        proof {
            use_type_invariant(self);
        }
        let mut out: Vec<String> = Vec::new();
        let mut i: usize = 0;
        while i < self.accounts.len()
            invariant
                i <= self.accounts@.len(),
                out@.len() == i,
                forall|j: int| 0 <= j < i ==> #[trigger] out@[j]@ == entries_of(self.accounts@)[j].0,
            decreases self.accounts@.len() - i,
        {
            out.push(self.accounts[i].qq.clone());
            i = i + 1;
        }
        out
    }

    /// The account of `qq`.
    pub fn find(&self, qq: &str) -> (r: Result<Account, AccountError>)
        ensures
            match lookup(self.entries(), qq@) {
                Some(c) => r matches Ok(a) && a.qq@ == qq@ && a.record.cookie@ == c,
                None => r matches Err(AccountError::NotFound(q)) && q@ == qq@,
            },
            keys_unique(self.entries()),
    {
        proof {
            use_type_invariant(self);
        }
        match self.index_of(qq) {
            Some(i) => Ok(Account {
                qq: owned(qq),
                record: AccountRecord { cookie: self.accounts[i].record.cookie.clone() },
            }),
            None => Err(AccountError::NotFound(owned(qq))),
        }
    }
}

pub proof fn lemma_key_index_unique(e: Seq<(Seq<char>, Seq<char>)>, k: Seq<char>, i: int)
    requires
        keys_unique(e),
        0 <= i < e.len(),
        e[i].0 == k,
    ensures
        key_index(e, k) == Some(i),
{
    let c = choose|j: int| 0 <= j < e.len() && e[j].0 == k;
    assert(c == i);
}

proof fn lemma_upsert_unique(e: Seq<(Seq<char>, Seq<char>)>, k: Seq<char>, v: Seq<char>)
    requires
        keys_unique(e),
    ensures
        keys_unique(upsert(e, k, v)),
{
    let u = upsert(e, k, v);
    match key_index(e, k) {
        Some(i) => {
            assert forall|a: int, b: int| 0 <= a < u.len() && 0 <= b < u.len() && a != b implies u[a].0 != u[b].0 by {
                if a == i {
                } else if b == i {
                } else {
                }
            }
        },
        None => {
            assert forall|a: int, b: int| 0 <= a < u.len() && 0 <= b < u.len() && a != b implies u[a].0 != u[b].0 by {
                if a == e.len() {
                    if u[b].0 == k {
                        assert(e[b].0 == k);
                    }
                } else if b == e.len() {
                    if u[a].0 == k {
                        assert(e[a].0 == k);
                    }
                }
            }
        },
    }
}

proof fn lemma_without_unique(e: Seq<(Seq<char>, Seq<char>)>, k: Seq<char>)
    requires
        keys_unique(e),
    ensures
        keys_unique(without(e, k)),
{
    let w = without(e, k);
    match key_index(e, k) {
        Some(i) => {
            assert forall|a: int, b: int| 0 <= a < w.len() && 0 <= b < w.len() && a != b implies w[a].0 != w[b].0 by {
                let a2 = if a < i { a } else { a + 1 };
                let b2 = if b < i { b } else { b + 1 };
                assert(w[a] == e[a2]);
                assert(w[b] == e[b2]);
            }
        },
        None => {},
    }
}

/// Saving an account and then looking its QQ number up gives the saved cookie, and
/// leaves every other QQ number's cookie as it was; QQ numbers stay unique.
pub proof fn law_lookup_after_save(e: Seq<(Seq<char>, Seq<char>)>, k: Seq<char>, v: Seq<char>, other: Seq<char>)
    requires
        keys_unique(e),
    ensures
        keys_unique(upsert(e, k, v)),
        lookup(upsert(e, k, v), k) == Some(v),
        other != k ==> lookup(upsert(e, k, v), other) == lookup(e, other),
{
    lemma_upsert_unique(e, k, v);
    let u = upsert(e, k, v);
    match key_index(e, k) {
        Some(i) => {
            lemma_key_index_unique(u, k, i);
        },
        None => {
            lemma_key_index_unique(u, k, e.len() as int);
        },
    }
    if other != k {
        match key_index(e, other) {
            Some(j) => {
                assert(u[j].0 == other);
                lemma_key_index_unique(u, other, j);
            },
            None => {
                if exists|j: int| 0 <= j < u.len() && u[j].0 == other {
                    let j = choose|j: int| 0 <= j < u.len() && u[j].0 == other;
                    assert(e[j].0 == other);
                }
            },
        }
    }
}

/// Saving twice under one QQ number is the same as saving the second cookie once: the
/// store keeps a single entry for it.
pub proof fn law_save_overwrites(e: Seq<(Seq<char>, Seq<char>)>, k: Seq<char>, v1: Seq<char>, v2: Seq<char>)
    requires
        keys_unique(e),
    ensures
        upsert(upsert(e, k, v1), k, v2) == upsert(e, k, v2),
        key_index(e, k) is Some ==> upsert(e, k, v1).len() == e.len(),
{
    lemma_upsert_unique(e, k, v1);
    let u = upsert(e, k, v1);
    match key_index(e, k) {
        Some(i) => {
            lemma_key_index_unique(u, k, i);
            assert(u.update(i, (k, v2)) =~= e.update(i, (k, v2)));
        },
        None => {
            lemma_key_index_unique(u, k, e.len() as int);
            assert(u.update(e.len() as int, (k, v2)) =~= e.push((k, v2)));
        },
    }
}

/// After removing a QQ number it is no longer found; removing one that is absent
/// changes nothing.
pub proof fn law_lookup_after_remove(e: Seq<(Seq<char>, Seq<char>)>, k: Seq<char>)
    requires
        keys_unique(e),
    ensures
        lookup(without(e, k), k) is None,
        key_index(e, k) is None ==> without(e, k) == e,
{
    let w = without(e, k);
    match key_index(e, k) {
        Some(i) => {
            if exists|j: int| 0 <= j < w.len() && w[j].0 == k {
                let j = choose|j: int| 0 <= j < w.len() && w[j].0 == k;
                let j2 = if j < i { j } else { j + 1 };
                assert(w[j] == e[j2]);
            }
        },
        None => {},
    }
}

} // verus!
