//! Strict parsing of the tagging stage's reply.
//!
//! The backend is instructed to answer with a single-line JSON array of
//! strings. The reply must be parsed strictly: the whole text, surrounding
//! whitespace aside, must be exactly one array whose elements are all JSON
//! strings (escape sequences included). Anything else is a parse failure to
//! be surfaced, never coerced to an empty tag set.
//!
//! The grammar is stated by the `spec` functions below as a deterministic
//! recursive descent over the reply's characters; `parse_tags` is proved to
//! return exactly what the grammar derives.

use vstd::prelude::*;
use vstd::string::StrSliceExecFns;
use vstd::utf8::char_u32_cast;

verus! {

/// JSON insignificant whitespace.
pub open spec fn is_json_ws(c: char) -> bool {
    c == ' ' || c == '\t' || c == '\n' || c == '\r'
}

/// The first index at or after `i` that does not hold whitespace.
pub open spec fn skip_ws(s: Seq<char>, i: int) -> int
    decreases s.len() - i,
{
    if 0 <= i < s.len() && is_json_ws(s[i]) {
        skip_ws(s, i + 1)
    } else {
        i
    }
}

/// The value of one hex digit, `None` for any other character.
pub open spec fn hex_digit_val(c: char) -> Option<u32> {
    let u = c as u32;
    if 48 <= u <= 57 {
        Some((u - 48) as u32)
    } else if 65 <= u <= 70 {
        Some((u - 55) as u32)
    } else if 97 <= u <= 102 {
        Some((u - 87) as u32)
    } else {
        None
    }
}

/// The value of the four hex digits at `i`, `None` if any is missing.
pub open spec fn hex4_val(s: Seq<char>, i: int) -> Option<u32> {
    if 0 <= i && i + 4 <= s.len() {
        match (hex_digit_val(s[i]), hex_digit_val(s[i + 1]), hex_digit_val(s[i + 2]), hex_digit_val(
            s[i + 3],
        )) {
            (Some(a), Some(b), Some(c), Some(d)) => Some(
                (a * 4096 + b * 256 + c * 16 + d) as u32,
            ),
            _ => None,
        }
    } else {
        None
    }
}

/// The escape sequence whose introducing backslash stands just before `i`:
/// the character it denotes and the index past the sequence. A `\u` escape
/// carrying a high surrogate must be chased by a `\u` low surrogate; a lone
/// surrogate of either kind is invalid.
pub open spec fn escape_at(s: Seq<char>, i: int) -> Option<(char, int)> {
    if !(0 <= i < s.len()) {
        None
    } else {
        let c = s[i];
        if c == '"' {
            Some(('"', i + 1))
        } else if c == '\\' {
            Some(('\\', i + 1))
        } else if c == '/' {
            Some(('/', i + 1))
        } else if c == 'b' {
            Some(('\u{0008}', i + 1))
        } else if c == 'f' {
            Some(('\u{000C}', i + 1))
        } else if c == 'n' {
            Some(('\n', i + 1))
        } else if c == 'r' {
            Some(('\r', i + 1))
        } else if c == 't' {
            Some(('\t', i + 1))
        } else if c == 'u' {
            match hex4_val(s, i + 1) {
                None => None,
                Some(u) => if 0xD800 <= u <= 0xDBFF {
                    if i + 6 < s.len() && s[i + 5] == '\\' && s[i + 6] == 'u' {
                        match hex4_val(s, i + 7) {
                            None => None,
                            Some(lo) => if 0xDC00 <= lo <= 0xDFFF {
                                Some(
                                    (
                                        ((0x10000 + (u - 0xD800) * 0x400 + (lo
                                            - 0xDC00)) as u32) as char,
                                        i + 11,
                                    ),
                                )
                            } else {
                                None
                            },
                        }
                    } else {
                        None
                    }
                } else if 0xDC00 <= u <= 0xDFFF {
                    None
                } else {
                    Some((u as char, i + 5))
                },
            }
        } else {
            None
        }
    }
}

/// The body of a JSON string whose opening quote stands just before `i`:
/// the characters it denotes and the index past the closing quote. An
/// unescaped control character or a bad escape makes the string invalid.
pub open spec fn string_body_at(s: Seq<char>, i: int) -> Option<(Seq<char>, int)>
    decreases s.len() - i,
{
    if !(0 <= i < s.len()) {
        None
    } else if s[i] == '"' {
        Some((Seq::<char>::empty(), i + 1))
    } else if s[i] == '\\' {
        match escape_at(s, i + 1) {
            None => None,
            Some((c, j)) => if i + 1 < j <= s.len() {
                match string_body_at(s, j) {
                    None => None,
                    Some((rest, k)) => Some((seq![c] + rest, k)),
                }
            } else {
                None
            },
        }
    } else if (s[i] as u32) < 0x20 {
        None
    } else {
        match string_body_at(s, i + 1) {
            None => None,
            Some((rest, k)) => Some((seq![s[i]] + rest, k)),
        }
    }
}

/// One or more comma-separated strings starting at or after `i`, closed by
/// `]`: the strings they denote and the index past the bracket.
pub open spec fn members_at(s: Seq<char>, i: int) -> Option<(Seq<Seq<char>>, int)>
    decreases s.len() - i,
{
    let j = skip_ws(s, i);
    if !(i <= j < s.len()) {
        None
    } else if s[j] == '"' {
        match string_body_at(s, j + 1) {
            None => None,
            Some((t, k)) => if j < k <= s.len() {
                let m = skip_ws(s, k);
                if !(k <= m <= s.len()) {
                    None
                } else if m < s.len() && s[m] == ']' {
                    Some((seq![t], m + 1))
                } else if m < s.len() && s[m] == ',' {
                    match members_at(s, m + 1) {
                        None => None,
                        Some((rest, e)) => Some((seq![t] + rest, e)),
                    }
                } else {
                    None
                }
            } else {
                None
            },
        }
    } else {
        None
    }
}

/// What the whole reply denotes: the tag list of the single JSON array of
/// strings it spells, or nothing when it spells anything else.
pub open spec fn spec_parse_tags(s: Seq<char>) -> Option<Seq<Seq<char>>> {
    let i = skip_ws(s, 0);
    if !(0 <= i < s.len() && s[i] == '[') {
        None
    } else {
        let j = skip_ws(s, i + 1);
        if i + 1 <= j < s.len() && s[j] == ']' {
            if skip_ws(s, j + 1) == s.len() {
                Some(Seq::<Seq<char>>::empty())
            } else {
                None
            }
        } else {
            match members_at(s, i + 1) {
                None => None,
                Some((tags, e)) => if skip_ws(s, e) == s.len() {
                    Some(tags)
                } else {
                    None
                },
            }
        }
    }
}

/// Relies on String::push: appends exactly one character.
#[verifier::external_body]
pub(crate) fn push_char(s: &mut String, c: char)
    ensures
        final(s)@ == old(s)@.push(c),
{
    s.push(c);
}

/// Relies on char::from_u32: `Some` exactly for Unicode scalar values (not
/// a surrogate, at most 0x10FFFF), and the character casts back to the
/// requested code point.
#[verifier::external_body]
fn char_from_u32(u: u32) -> (r: Option<char>)
    ensures
        r is Some <==> (u < 0xD800 || (0xE000 <= u && u <= 0x10FFFF)),
        r matches Some(c) ==> c as u32 == u,
{
    char::from_u32(u)
}

/// The reply's characters, in order.
fn chars_of(s: &str) -> (v: Vec<char>)
    ensures
        v@ == s@,
{
    let n = s.unicode_len();
    let mut v: Vec<char> = Vec::new();
    let mut idx: usize = 0;
    while idx < n
        invariant
            n == s@.len(),
            idx <= n,
            v@ == s@.take(idx as int),
        decreases n - idx,
    {
        let c = s.get_char(idx);
        v.push(c);
        idx = idx + 1;
        proof {
            assert(v@ =~= s@.take(idx as int));
        }
    }
    proof {
        assert(v@ =~= s@);
    }
    v
}

/// A `String` holding exactly the given characters.
fn string_from_chars(chars: &Vec<char>) -> (s: String)
    ensures
        s@ == chars@,
{
    let mut s = String::new();
    let mut idx: usize = 0;
    while idx < chars.len()
        invariant
            idx <= chars@.len(),
            s@ == chars@.take(idx as int),
        decreases chars@.len() - idx,
    {
        push_char(&mut s, chars[idx]);
        idx = idx + 1;
        proof {
            assert(s@ =~= chars@.take(idx as int));
        }
    }
    proof {
        assert(s@ =~= chars@);
    }
    s
}

/// Whether `c` is JSON whitespace.
fn is_ws_char(c: char) -> (b: bool)
    ensures
        b == is_json_ws(c),
{
    c == ' ' || c == '\t' || c == '\n' || c == '\r'
}

fn skip_ws_exec(v: &Vec<char>, i: usize) -> (j: usize)
    requires
        i <= v@.len(),
    ensures
        j as int == skip_ws(v@, i as int),
        i <= j <= v@.len(),
{
    let mut j = i;
    while j < v.len() && is_ws_char(v[j])
        invariant
            i <= j <= v@.len(),
            skip_ws(v@, i as int) == skip_ws(v@, j as int),
        decreases v@.len() - j,
    {
        j = j + 1;
    }
    j
}

fn hex_digit_exec(c: char) -> (r: Option<u32>)
    ensures
        r == hex_digit_val(c),
{
    let u = c as u32;
    if 48 <= u && u <= 57 {
        Some(u - 48)
    } else if 65 <= u && u <= 70 {
        Some(u - 55)
    } else if 97 <= u && u <= 102 {
        Some(u - 87)
    } else {
        None
    }
}

fn hex4_exec(v: &Vec<char>, i: usize) -> (r: Option<u32>)
    requires
        i <= v@.len(),
    ensures
        r == hex4_val(v@, i as int),
        r matches Some(u) ==> u <= 0xFFFF,
{
    if v.len() - i >= 4 {
        let a = hex_digit_exec(v[i]);
        let b = hex_digit_exec(v[i + 1]);
        let c = hex_digit_exec(v[i + 2]);
        let d = hex_digit_exec(v[i + 3]);
        match (a, b, c, d) {
            (Some(a), Some(b), Some(c), Some(d)) => Some(a * 4096 + b * 256 + c * 16 + d),
            _ => None,
        }
    } else {
        None
    }
}

fn escape_exec(v: &Vec<char>, i: usize) -> (r: Option<(char, usize)>)
    requires
        i <= v@.len(),
    ensures
        escape_at(v@, i as int) is None ==> r is None,
        escape_at(v@, i as int) matches Some((c, j)) ==> (r matches Some(p) && p.0 == c && p.1
            as int == j && i < p.1 <= v@.len()),
{
    if i >= v.len() {
        return None;
    }
    let c = v[i];
    if c == '"' {
        Some(('"', i + 1))
    } else if c == '\\' {
        Some(('\\', i + 1))
    } else if c == '/' {
        Some(('/', i + 1))
    } else if c == 'b' {
        Some(('\u{0008}', i + 1))
    } else if c == 'f' {
        Some(('\u{000C}', i + 1))
    } else if c == 'n' {
        Some(('\n', i + 1))
    } else if c == 'r' {
        Some(('\r', i + 1))
    } else if c == 't' {
        Some(('\t', i + 1))
    } else if c == 'u' {
        match hex4_exec(v, i + 1) {
            None => None,
            Some(u) => {
                if 0xD800 <= u && u <= 0xDBFF {
                    if v.len() - i > 6 && v[i + 5] == '\\' && v[i + 6] == 'u' {
                        match hex4_exec(v, i + 7) {
                            None => None,
                            Some(lo) => {
                                if 0xDC00 <= lo && lo <= 0xDFFF {
                                    let scalar: u32 = 0x10000 + (u - 0xD800) * 0x400 + (lo
                                        - 0xDC00);
                                    let ch = char_from_u32(scalar).unwrap();
                                    proof {
                                        char_u32_cast(ch, scalar);
                                    }
                                    Some((ch, i + 11))
                                } else {
                                    None
                                }
                            },
                        }
                    } else {
                        None
                    }
                } else if 0xDC00 <= u && u <= 0xDFFF {
                    None
                } else {
                    let ch = char_from_u32(u).unwrap();
                    proof {
                        char_u32_cast(ch, u);
                    }
                    Some((ch, i + 5))
                }
            },
        }
    } else {
        None
    }
}

/// `string_body_at` with `acc` prepended to any parsed body: the shape a
/// partially run string parse leaves behind.
spec fn body_with_prefix(s: Seq<char>, i: int, acc: Seq<char>) -> Option<(Seq<char>, int)> {
    match string_body_at(s, i) {
        None => None,
        Some((t, k)) => Some((acc + t, k)),
    }
}

fn string_body_exec(v: &Vec<char>, i: usize) -> (r: Option<(Vec<char>, usize)>)
    requires
        i <= v@.len(),
    ensures
        string_body_at(v@, i as int) is None ==> r is None,
        string_body_at(v@, i as int) matches Some((t, k)) ==> (r matches Some(p) && p.0@ == t
            && p.1 as int == k && i < p.1 <= v@.len()),
{
    let ghost i0 = i as int;
    let mut acc: Vec<char> = Vec::new();
    let mut cur = i;
    proof {
        let r0 = string_body_at(v@, i0);
        if r0 is Some {
            let p = r0->0;
            assert(Seq::<char>::empty() + p.0 =~= p.0);
        }
    }
    loop
        invariant
            i0 <= cur <= v@.len(),
            i0 == i as int,
            body_with_prefix(v@, cur as int, acc@) == string_body_at(v@, i0),
        decreases v@.len() - cur,
    {
        if cur >= v.len() {
            return None;
        }
        let c = v[cur];
        if c == '"' {
            proof {
                assert(acc@ + Seq::<char>::empty() =~= acc@);
            }
            return Some((acc, cur + 1));
        } else if c == '\\' {
            match escape_exec(v, cur + 1) {
                None => {
                    return None;
                },
                Some((ec, j)) => {
                    proof {
                        assert(acc@.push(ec) =~= acc@ + seq![ec]);
                        let inner = string_body_at(v@, j as int);
                        if inner is Some {
                            let p = inner->0;
                            assert((acc@ + seq![ec]) + p.0 =~= acc@ + (seq![ec] + p.0));
                        }
                    }
                    acc.push(ec);
                    cur = j;
                },
            }
        } else if (c as u32) < 0x20 {
            return None;
        } else {
            proof {
                assert(acc@.push(c) =~= acc@ + seq![c]);
                let inner = string_body_at(v@, cur as int + 1);
                if inner is Some {
                    let p = inner->0;
                    assert((acc@ + seq![c]) + p.0 =~= acc@ + (seq![c] + p.0));
                }
            }
            acc.push(c);
            cur = cur + 1;
        }
    }
}

/// Parse the backend's tag reply strictly as a single JSON array of
/// strings. Returns the tags exactly when the grammar derives them, and
/// nothing on any malformed reply.
pub fn parse_tags(s: &str) -> (r: Option<Vec<String>>)
    ensures
        spec_parse_tags(s@) is None ==> r is None,
        spec_parse_tags(s@) matches Some(ts) ==> (r matches Some(tags) && tags.deep_view()
            == ts),
{
    let v = chars_of(s);
    let n = v.len();
    let i = skip_ws_exec(&v, 0);
    if i >= n {
        return None;
    }
    if v[i] != '[' {
        return None;
    }
    let j = skip_ws_exec(&v, i + 1);
    if j < n && v[j] == ']' {
        let e = skip_ws_exec(&v, j + 1);
        if e == n {
            let tags: Vec<String> = Vec::new();
            proof {
                assert(tags.deep_view() =~= Seq::<Seq<char>>::empty());
            }
            return Some(tags);
        } else {
            return None;
        }
    }
    let mut tags: Vec<String> = Vec::new();
    let mut cur: usize = i + 1;
    proof {
        assert(tags.deep_view() =~= Seq::<Seq<char>>::empty());
        let r0 = members_at(v@, cur as int);
        if r0 is Some {
            let p = r0->0;
            assert(tags.deep_view() + p.0 =~= p.0);
        }
    }
    loop
        invariant
            cur <= v@.len(),
            n == v@.len(),
            v@ == s@,
            (spec_parse_tags(s@) == (match members_at(v@, cur as int) {
                None => None::<Seq<Seq<char>>>,
                Some((rest, e)) => if skip_ws(v@, e) == v@.len() {
                    Some(tags.deep_view() + rest)
                } else {
                    None::<Seq<Seq<char>>>
                },
            })),
        decreases v@.len() - cur,
    {
        let m = skip_ws_exec(&v, cur);
        if m >= n {
            return None;
        }
        if v[m] != '"' {
            return None;
        }
        match string_body_exec(&v, m + 1) {
            None => {
                return None;
            },
            Some((body, k)) => {
                let t = string_from_chars(&body);
                let m2 = skip_ws_exec(&v, k);
                if m2 < n && v[m2] == ']' {
                    let f = skip_ws_exec(&v, m2 + 1);
                    proof {
                        assert(members_at(v@, cur as int) == Some(
                            (seq![body@], (m2 + 1) as int),
                        ));
                    }
                    if f == n {
                        let ghost before = tags.deep_view();
                        tags.push(t);
                        proof {
                            assert(tags.deep_view() =~= before + seq![body@]);
                        }
                        return Some(tags);
                    } else {
                        return None;
                    }
                } else if m2 < n && v[m2] == ',' {
                    let ghost before = tags.deep_view();
                    proof {
                        let inner = members_at(v@, (m2 + 1) as int);
                        if inner is Some {
                            let p = inner->0;
                            assert((before + seq![body@]) + p.0 =~= before + (seq![body@]
                                + p.0));
                        }
                    }
                    tags.push(t);
                    proof {
                        assert(tags.deep_view() =~= before + seq![body@]);
                    }
                    cur = m2 + 1;
                } else {
                    return None;
                }
            },
        }
    }
}

} // verus!
