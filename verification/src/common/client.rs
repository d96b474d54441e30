//! Handling of the game server's responses.
//!
//! - responses are GBK-encoded JSON, decoded to text and parsed;
//! - dirty JSON (trailing commas, illegal escapes inside strings) is repaired and parsed again;
//! - when even that fails, the error carries the text around the error position;
//! - `result = "-5"` marks the cookie invalid, `result = "-10086"` marks maintenance.
//!
//! The HTTP exchange itself is done by the caller, which hands the bytes and the
//! fields it reads back to the functions here.
use serde::Deserialize;
use vstd::prelude::*;

use crate::text::{
    char_is_white_space, is_white_space, owned, push_str, seq_contains, str_contains, str_eq,
    string_push, to_chars,
};
use crate::text_spec::{lemma_split_on_nonempty, split_on, split_ranges};

verus! {

#[verifier::external_type_specification]
#[verifier::external_body]
pub struct ExJsonValue(serde_json::Value);

// ───────── repairing dirty JSON ─────────

/// Characters that may follow a backslash inside a JSON string.
pub open spec fn is_legal_escape(c: char) -> bool {
    c == '"' || c == '\\' || c == '/' || c == 'b' || c == 'f' || c == 'n' || c == 'r' || c == 't'
        || c == 'u'
}

/// The first character at or after index `j` that is not white space.
pub open spec fn next_non_ws(t: Seq<char>, j: int) -> Option<char>
    decreases t.len() - j,
{
    if j < 0 || j >= t.len() {
        None
    } else if !is_white_space(t[j]) {
        Some(t[j])
    } else {
        next_non_ws(t, j + 1)
    }
}

/// A `,` at index `i`, outside strings, whose next non-blank character closes an object
/// or an array.
pub open spec fn is_trailing_comma(t: Seq<char>, i: int) -> bool {
    0 <= i < t.len() && t[i] == ',' && match next_non_ws(t, i + 1) {
        Some(n) => n == '}' || n == ']',
        None => false,
    }
}

/// The repaired form of `t[i..]`, reading from a state where we are (or not) inside a
/// string and (or not) just after a backslash that starts a legal escape.
pub open spec fn repair_from(t: Seq<char>, i: int, in_string: bool, escaped: bool) -> Seq<char>
    decreases t.len() - i,
{
    if i < 0 || i >= t.len() {
        Seq::empty()
    } else {
        let c = t[i];
        if in_string {
            if escaped {
                seq![c] + repair_from(t, i + 1, true, false)
            } else if c == '\\' {
                if i + 1 < t.len() && is_legal_escape(t[i + 1]) {
                    seq![c] + repair_from(t, i + 1, true, true)
                } else {
                    seq![c, '\\'] + repair_from(t, i + 1, true, false)
                }
            } else if c == '"' {
                seq![c] + repair_from(t, i + 1, false, false)
            } else {
                seq![c] + repair_from(t, i + 1, true, false)
            }
        } else if c == '"' {
            seq![c] + repair_from(t, i + 1, true, false)
        } else if is_trailing_comma(t, i) {
            repair_from(t, i + 1, false, false)
        } else {
            seq![c] + repair_from(t, i + 1, false, false)
        }
    }
}

/// The repaired text: trailing commas outside strings are dropped, and a backslash inside
/// a string that does not start a legal escape is doubled.
pub open spec fn spec_repair(t: Seq<char>) -> Seq<char> {
    repair_from(t, 0, false, false)
}

/// `t[i..]` holds no dirty data: no trailing comma outside strings and no illegal escape
/// inside them.
pub open spec fn clean_from(t: Seq<char>, i: int, in_string: bool, escaped: bool) -> bool
    decreases t.len() - i,
{
    if i < 0 || i >= t.len() {
        true
    } else {
        let c = t[i];
        if in_string {
            if escaped {
                clean_from(t, i + 1, true, false)
            } else if c == '\\' {
                i + 1 < t.len() && is_legal_escape(t[i + 1]) && clean_from(t, i + 1, true, true)
            } else if c == '"' {
                clean_from(t, i + 1, false, false)
            } else {
                clean_from(t, i + 1, true, false)
            }
        } else if c == '"' {
            clean_from(t, i + 1, true, false)
        } else {
            !is_trailing_comma(t, i) && clean_from(t, i + 1, false, false)
        }
    }
}

/// The whole text holds no dirty data.
pub open spec fn is_clean_json(t: Seq<char>) -> bool {
    clean_from(t, 0, false, false)
}

proof fn lemma_clean_unchanged(t: Seq<char>, i: int, in_string: bool, escaped: bool)
    requires
        0 <= i <= t.len(),
        clean_from(t, i, in_string, escaped),
    ensures
        repair_from(t, i, in_string, escaped) == t.skip(i),
    decreases t.len() - i,
{
    if i < t.len() {
        let c = t[i];
        assert(t.skip(i) =~= seq![c] + t.skip(i + 1));
        if in_string {
            if escaped {
                lemma_clean_unchanged(t, i + 1, true, false);
            } else if c == '\\' {
                lemma_clean_unchanged(t, i + 1, true, true);
            } else if c == '"' {
                lemma_clean_unchanged(t, i + 1, false, false);
            } else {
                lemma_clean_unchanged(t, i + 1, true, false);
            }
        } else if c == '"' {
            lemma_clean_unchanged(t, i + 1, true, false);
        } else {
            lemma_clean_unchanged(t, i + 1, false, false);
        }
    } else {
        assert(t.skip(i) =~= Seq::<char>::empty());
    }
}

/// Text without dirty data comes out of the repair unchanged.
pub proof fn law_clean_json_unchanged(t: Seq<char>)
    requires
        is_clean_json(t),
    ensures
        spec_repair(t) == t,
{
    lemma_clean_unchanged(t, 0, false, false);
    assert(t.skip(0) =~= t);
}

fn next_non_ws_exec(v: &Vec<char>, j: usize) -> (r: Option<char>)
    requires
        j <= v@.len(),
    ensures
        r == next_non_ws(v@, j as int),
    decreases v@.len() - j,
{
    if j >= v.len() {
        None
    } else if !char_is_white_space(v[j]) {
        Some(v[j])
    } else {
        next_non_ws_exec(v, j + 1)
    }
}

/// Repairs the dirty JSON the server sometimes sends: trailing commas outside strings
/// (`{"a":1,}`) are dropped, and a backslash inside a string that does not start a legal
/// escape gets a second backslash so that it stands for itself. Text without such dirt
/// comes out unchanged.
pub fn repair_dirty_json(text: &str) -> (r: String)
    ensures
        r@ == spec_repair(text@),
{
    let v = to_chars(text);
    let mut out = String::new();
    let mut in_string = false;
    let mut escaped = false;
    let mut i: usize = 0;
    while i < v.len()
        invariant
            v@ == text@,
            i <= v@.len(),
            out@ + repair_from(v@, i as int, in_string, escaped) == spec_repair(v@),
            !in_string ==> !escaped,
        decreases v@.len() - i,
    {
        let c = v[i];
        let ghost before = out@;
        let ghost st0 = in_string;
        let ghost e0 = escaped;
        if in_string {
            string_push(&mut out, c);
            if escaped {
                escaped = false;
            } else if c == '\\' {
                let legal = i + 1 < v.len() && {
                    let n = v[i + 1];
                    n == '"' || n == '\\' || n == '/' || n == 'b' || n == 'f' || n == 'n' || n
                        == 'r' || n == 't' || n == 'u'
                };
                if legal {
                    escaped = true;
                } else {
                    string_push(&mut out, '\\');
                }
            } else if c == '"' {
                in_string = false;
            }
        } else if c == '"' {
            in_string = true;
            string_push(&mut out, c);
        } else if c == ',' {
            match next_non_ws_exec(&v, i + 1) {
                Some(n) => {
                    if !(n == '}' || n == ']') {
                        string_push(&mut out, c);
                    }
                },
                None => {
                    string_push(&mut out, c);
                },
            }
        } else {
            string_push(&mut out, c);
        }
        proof {
            assert(out@ + repair_from(v@, i + 1, in_string, escaped) =~= before + repair_from(
                v@,
                i as int,
                st0,
                e0,
            ));
        }
        i = i + 1;
    }
    out
}

// ───────── preview of the text around an error ─────────

/// A line without the `\r` of a `\r\n` ending.
pub open spec fn strip_cr(l: Seq<char>) -> Seq<char> {
    if l.len() > 0 && l.last() == '\r' {
        l.drop_last()
    } else {
        l
    }
}

/// The lines of `s` (what `str::lines` yields): split at `\n`, a `\r` before the `\n`
/// dropped, and no empty line after a final `\n`.
pub open spec fn spec_lines(s: Seq<char>) -> Seq<Seq<char>> {
    let p = split_on(s, '\n');
    let body = p.drop_last().map_values(|l: Seq<char>| strip_cr(l));
    if p.last().len() == 0 {
        body
    } else {
        body.push(p.last())
    }
}

/// The characters of the preview: `\n` and `\r` shown as spaces.
pub open spec fn blank_breaks(s: Seq<char>) -> Seq<char> {
    s.map_values(|c: char| if c == '\n' || c == '\r' { ' ' } else { c })
}

/// The line `line` (1-based, 0 read as 1) of `text`, empty when there is no such line.
pub open spec fn target_line(text: Seq<char>, line: nat) -> Seq<char> {
    let ls = spec_lines(text);
    let li = if line == 0 { 0 } else { line - 1 };
    if li < ls.len() {
        ls[li]
    } else {
        Seq::empty()
    }
}

/// Up to 20 characters before and 20 after the (1-based, character-counted) error column
/// of the given line, with `…` marking each side that was cut.
pub open spec fn spec_preview(text: Seq<char>, line: nat, column: nat) -> Seq<char> {
    let l = target_line(text, line);
    let c0: int = if column == 0 { 0 } else { column - 1 };
    let col: int = if c0 <= l.len() { c0 } else { l.len() as int };
    let start: int = if col >= 20 { col - 20 } else { 0 };
    let end: int = if l.len() - col >= 21 { col + 20 } else { l.len() as int };
    (if start > 0 { seq!['\u{2026}'] } else { Seq::empty() }) + blank_breaks(l.subrange(start, end)) + (
    if end < l.len() {
        seq!['\u{2026}']
    } else {
        Seq::empty()
    })
}

/// The characters of `target_line(text, line)`.
fn line_chars(text: &str, line: usize) -> (r: Vec<char>)
    ensures
        r@ == target_line(text@, line as nat),
{
    let v = to_chars(text);
    let pieces = split_ranges(&v, '\n');
    let ghost p = split_on(v@, '\n');
    let ghost ls = spec_lines(v@);
    let li: usize = if line == 0 {
        0
    } else {
        line - 1
    };
    let np = pieces.len();
    proof { lemma_split_on_nonempty(v@, '\n'); }
    assert(np >= 1);
    let mut out: Vec<char> = Vec::new();
    if li + 1 < np {
        let (a, b) = pieces[li];
        let mut e = b;
        if a < b && v[b - 1] == '\r' {
            e = b - 1;
        }
        let mut k = a;
        while k < e
            invariant
                a <= k <= e <= b <= v@.len(),
                out@ == v@.subrange(a as int, k as int),
            decreases e - k,
        {
            out.push(v[k]);
            assert(v@.subrange(a as int, k + 1) =~= v@.subrange(a as int, k as int).push(v@[k as int]));
            k = k + 1;
        }
        proof {
            assert(p[li as int] == v@.subrange(a as int, b as int));
            assert(ls[li as int] == strip_cr(p.drop_last()[li as int]));
            assert(out@ =~= strip_cr(p[li as int]));
        }
    } else if li + 1 == np && pieces[li].0 < pieces[li].1 {
        let (a, b) = pieces[li];
        let mut k = a;
        while k < b
            invariant
                a <= k <= b <= v@.len(),
                out@ == v@.subrange(a as int, k as int),
            decreases b - k,
        {
            out.push(v[k]);
            assert(v@.subrange(a as int, k + 1) =~= v@.subrange(a as int, k as int).push(v@[k as int]));
            k = k + 1;
        }
        proof {
            assert(p[li as int] == v@.subrange(a as int, b as int));
            assert(p.last() == p[li as int]);
        }
    } else {
        proof {
            if li + 1 == np {
                assert(p.last() == p[li as int]);
                assert(p.last().len() == 0);
            }
        }
    }
    out
}

/// The text around an error position (1-based line and character column): up to 20
/// characters on each side, `…` on each side that was cut, line breaks shown as spaces.
pub fn preview_around(text: &str, line: usize, column: usize) -> (r: String)
    ensures
        r@ == spec_preview(text@, line as nat, column as nat),
{
    let l = line_chars(text, line);
    let len = l.len();
    let c0: usize = if column == 0 {
        0
    } else {
        column - 1
    };
    let col: usize = if c0 <= len {
        c0
    } else {
        len
    };
    let start: usize = if col >= 20 {
        col - 20
    } else {
        0
    };
    let end: usize = if len - col >= 21 {
        col + 20
    } else {
        len
    };
    let mut out = String::new();
    if start > 0 {
        string_push(&mut out, '\u{2026}');
    }
    let ghost head = out@;
    let mut k = start;
    while k < end
        invariant
            start <= k <= end <= l@.len(),
            out@ == head + blank_breaks(l@.subrange(start as int, k as int)),
        decreases end - k,
    {
        let c = l[k];
        if c == '\n' || c == '\r' {
            string_push(&mut out, ' ');
        } else {
            string_push(&mut out, c);
        }
        assert(blank_breaks(l@.subrange(start as int, k + 1)) =~= blank_breaks(
            l@.subrange(start as int, k as int),
        ).push(if c == '\n' || c == '\r' { ' ' } else { c }));
        k = k + 1;
    }
    if end < len {
        string_push(&mut out, '\u{2026}');
    }
    proof {
        let pre = if start > 0 { seq!['\u{2026}'] } else { Seq::<char>::empty() };
        let post = if end < len { seq!['\u{2026}'] } else { Seq::<char>::empty() };
        assert(out@ =~= pre + blank_breaks(l@.subrange(start as int, end as int)) + post);
    }
    out
}

// ───────── decoding a response ─────────

/// The text that GBK decoding (with BOM sniffing, malformed sequences replaced) gives
/// for these bytes.
pub uninterp spec fn gbk_decoded(bytes: Seq<u8>) -> Seq<char>;

/// Where parsing the first JSON value of this text fails (1-based line and column), or
/// `None` when it succeeds; text after the first value is ignored.
pub uninterp spec fn first_json_error(text: Seq<char>) -> Option<(nat, nat)>;

/// The first JSON value of this text, when it parses; text after that value is ignored.
pub uninterp spec fn first_json_value(text: Seq<char>) -> serde_json::Value;

/// Decodes GBK bytes to text with `encoding_rs::GBK.decode`; the contract claims that the
/// result is a function of the bytes alone.
#[verifier::external_body]
fn gbk_decode(bytes: &[u8]) -> (r: String)
    ensures
        r@ == gbk_decoded(bytes@),
{
    let (text, _enc, _had_errors) = encoding_rs::GBK.decode(bytes);
    text.into_owned()
}

/// Parses the first JSON value of `text` with `serde_json` (a streaming deserializer, so
/// data after that value is not read). The contract claims that success, the value
/// returned and the error position on failure are functions of the text alone.
#[verifier::external_body]
fn parse_first_json(text: &str) -> (r: Result<serde_json::Value, (usize, usize)>)
    ensures
        match r {
            Ok(v) => first_json_error(text@) is None && v == first_json_value(text@),
            Err(p) => first_json_error(text@) == Some((p.0 as nat, p.1 as nat)),
        },
{
    let mut de = serde_json::Deserializer::from_str(text);
    match serde_json::Value::deserialize(&mut de) {
        Ok(v) => Ok(v),
        Err(e) => Err((e.line(), e.column())),
    }
}

/// Decodes a GBK response into its first JSON value. When the text does not parse, it is
/// repaired (`repair_dirty_json`) and the first value of the repaired text is taken; when
/// that fails too, the error message shows the decoded text around the first error
/// position.
pub fn decode_gbk_to_json(bytes: &[u8]) -> (r: Result<serde_json::Value, String>)
    ensures
        ({
            let text = gbk_decoded(bytes@);
            match first_json_error(text) {
                None => r matches Ok(v) && v == first_json_value(text),
                Some(p) => match first_json_error(spec_repair(text)) {
                    None => r matches Ok(v) && v == first_json_value(spec_repair(text)),
                    Some(_) => r matches Err(m) && m@ == "原始响应片段："@ + spec_preview(
                        text,
                        p.0,
                        p.1,
                    ),
                },
            }
        }),
{
    let text = gbk_decode(bytes);
    match parse_first_json(text.as_str()) {
        Ok(v) => Ok(v),
        Err((line, column)) => {
            let cleaned = repair_dirty_json(text.as_str());
            match parse_first_json(cleaned.as_str()) {
                Ok(v) => Ok(v),
                Err(_) => {
                    let mut m = String::new();
                    push_str(&mut m, "原始响应片段：");
                    let p = preview_around(text.as_str(), line, column);
                    push_str(&mut m, p.as_str());
                    Err(m)
                },
            }
        },
    }
}

// ───────── what a response means ─────────

/// What the client does with a decoded response.
#[derive(Debug, PartialEq, Eq)]
pub enum ResponseVerdict {
    /// Hand the response to the task.
    Accept,
    /// The server is busy: ask again.
    Retry,
    /// The cookie was refused (`result = "-5"`); holds the server's message.
    CookieInvalid(String),
    /// The game is under maintenance (`result = "-10086"`); holds the server's message.
    Maintenance(String),
}

/// The message of a response, or `default` when it has none.
pub open spec fn msg_or(msg: Option<&str>, default: Seq<char>) -> Seq<char> {
    match msg {
        Some(m) => m@,
        None => default,
    }
}

/// Decides what to do with a response from its `result` code and `msg`, at the given
/// attempt (1-based):
/// - `"-2"`: retried when the message says the system is busy and fewer than 3 attempts
///   were made, else accepted;
/// - `"-5"`: the cookie is invalid, except for the message that says the coin bonus was
///   already taken, which is accepted;
/// - `"-10086"`: maintenance;
/// - anything else: accepted.
///
/// A refusal carries the response's message, or a default one when it has none.
pub fn classify_response(result: Option<&str>, msg: Option<&str>, attempt: u8) -> (r: ResponseVerdict)
    ensures
        match result {
            None => r is Accept,
            Some(code) => if code@ == "-2"@ {
                if seq_contains(msg_or(msg, Seq::empty()), "系统繁忙"@) && attempt < 3 {
                    r is Retry
                } else {
                    r is Accept
                }
            } else if code@ == "-5"@ && msg_or(msg, "Cookie 无效！"@) != "你已经领取过本届斗币福利！"@ {
                r matches ResponseVerdict::CookieInvalid(m) && m@ == msg_or(msg, "Cookie 无效！"@)
            } else if code@ == "-10086"@ {
                r matches ResponseVerdict::Maintenance(m) && m@ == msg_or(msg, "大乐斗维护中！"@)
            } else {
                r is Accept
            },
        },
{
    let code = match result {
        Some(c) => c,
        None => return ResponseVerdict::Accept,
    };
    if str_eq(code, "-2") {
        let m = match msg {
            Some(m) => m,
            None => "",
        };
        proof {
            if msg is None {
                assert(m@ == Seq::<char>::empty()) by {
                    reveal_strlit("");
                }
            }
        }
        if str_contains(m, "系统繁忙") && attempt < 3 {
            return ResponseVerdict::Retry;
        }
        return ResponseVerdict::Accept;
    }
    if str_eq(code, "-5") {
        let m = match msg {
            Some(m) => m,
            None => "Cookie 无效！",
        };
        if !str_eq(m, "你已经领取过本届斗币福利！") {
            return ResponseVerdict::CookieInvalid(owned(m));
        }
    }
    if str_eq(code, "-10086") {
        let m = match msg {
            Some(m) => m,
            None => "大乐斗维护中！",
        };
        return ResponseVerdict::Maintenance(owned(m));
    }
    ResponseVerdict::Accept
}

/// Why a request is refused before it is sent.
#[derive(Debug, PartialEq, Eq)]
pub enum ClientError {
    /// An earlier response marked the cookie invalid.
    CookieExpired,
    /// An earlier response announced maintenance.
    UnderMaintenance,
}

/// What earlier responses taught the client about its cookie and the game.
#[derive(Debug, Clone, Copy, PartialEq, Eq)]
pub struct ClientStatus {
    pub invalid: bool,
    pub maintenance: bool,
}

impl ClientStatus {
    /// A client that has seen no refusal yet.
    pub fn new() -> (r: ClientStatus)
        ensures
            !r.invalid,
            !r.maintenance,
    {
        ClientStatus { invalid: false, maintenance: false }
    }

    /// Whether a request may be sent: refused once the cookie is known invalid, then once
    /// maintenance is known.
    pub fn check_ready(&self) -> (r: Result<(), ClientError>)
        ensures
            self.invalid ==> r == Err::<(), ClientError>(ClientError::CookieExpired),
            !self.invalid && self.maintenance ==> r == Err::<(), ClientError>(ClientError::UnderMaintenance),
            !self.invalid && !self.maintenance ==> r is Ok,
    {
        if self.invalid {
            return Err(ClientError::CookieExpired);
        }
        if self.maintenance {
            return Err(ClientError::UnderMaintenance);
        }
        Ok(())
    }

    /// Takes in the verdict on a response: a refused cookie and maintenance are
    /// remembered; nothing is ever forgotten.
    pub fn record(&mut self, verdict: &ResponseVerdict)
        ensures
            *final(self) == recorded(*old(self), *verdict),
    {
        match verdict {
            ResponseVerdict::CookieInvalid(_) => {
                self.invalid = true;
            },
            ResponseVerdict::Maintenance(_) => {
                self.maintenance = true;
            },
            _ => {},
        }
    }
}

/// The status after a response with this verdict.
pub open spec fn recorded(s: ClientStatus, v: ResponseVerdict) -> ClientStatus {
    ClientStatus {
        invalid: s.invalid || v is CookieInvalid,
        maintenance: s.maintenance || v is Maintenance,
    }
}

/// Once the cookie is known invalid (or maintenance is known) it stays known, whatever
/// the next response says, so every later request is refused.
pub proof fn law_refusal_is_remembered(s: ClientStatus, v: ResponseVerdict)
    ensures
        s.invalid ==> recorded(s, v).invalid,
        s.maintenance ==> recorded(s, v).maintenance,
        v is CookieInvalid ==> recorded(s, v).invalid,
        v is Maintenance ==> recorded(s, v).maintenance,
        v is Accept || v is Retry ==> recorded(s, v) == s,
{
}

/// Why a login check fails.
#[derive(Debug, PartialEq, Eq)]
pub enum LoginError {
    /// A non-zero `ret`, with the server's message.
    Unexpected(i64, String),
    /// The anti-addiction limit: seconds left.
    AntiAddiction(u64),
}

/// Judges the answer to a login check: `ret` must be 0 and no anti-addiction time may be
/// left.
pub fn check_login(ret: i64, msg: &str, duration: u64) -> (r: Result<(), LoginError>)
    ensures
        ret != 0 ==> (r matches Err(LoginError::Unexpected(code, m)) && code == ret && m@ == msg@),
        ret == 0 && duration > 0 ==> r == Err::<(), LoginError>(LoginError::AntiAddiction(duration)),
        ret == 0 && duration == 0 ==> r is Ok,
{
    if ret != 0 {
        return Err(LoginError::Unexpected(ret, owned(msg)));
    }
    if duration > 0 {
        return Err(LoginError::AntiAddiction(duration));
    }
    Ok(())
}

} // verus!
