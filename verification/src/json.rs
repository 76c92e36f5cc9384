//! A small JSON reader for the configuration wire format.
//!
//! The grammar is standard JSON with two restrictions: a `\u` escape
//! must not name a surrogate, so astral characters can appear literally
//! in a string but not as an escaped surrogate pair; and containers may
//! nest at most [`MAX_DEPTH`] deep, so a hostile document cannot
//! exhaust the stack. Numbers are kept as their raw text; the
//! configuration never reads one.

use vstd::prelude::*;

verus! {

/// A parsed JSON value.
#[derive(Debug, PartialEq, Eq)]
pub enum JsonValue {
    Null,
    Bool(bool),
    Num(String),
    Str(String),
    Arr(Vec<JsonValue>),
    Obj(Vec<(String, JsonValue)>),
}

/// Spec-level model of [`JsonValue`].
pub enum JsonValueV {
    Null,
    Bool(bool),
    Num(Seq<char>),
    Str(Seq<char>),
    Arr(Seq<JsonValueV>),
    Obj(Seq<(Seq<char>, JsonValueV)>),
}

/// The spec-level value of a parsed JSON value.
pub open spec fn jv_view(v: JsonValue) -> JsonValueV
    decreases v,
{
    match v {
        JsonValue::Null => JsonValueV::Null,
        JsonValue::Bool(b) => JsonValueV::Bool(b),
        JsonValue::Num(s) => JsonValueV::Num(s@),
        JsonValue::Str(s) => JsonValueV::Str(s@),
        JsonValue::Arr(xs) => JsonValueV::Arr(jvs_view(xs@)),
        JsonValue::Obj(ps) => JsonValueV::Obj(jps_view(ps@)),
    }
}

/// The spec-level values of a sequence of parsed array elements.
pub open spec fn jvs_view(xs: Seq<JsonValue>) -> Seq<JsonValueV>
    decreases xs,
{
    if xs.len() == 0 {
        Seq::empty()
    } else {
        seq![jv_view(xs[0])] + jvs_view(xs.subrange(1, xs.len() as int))
    }
}

/// The spec-level values of a sequence of parsed object members.
pub open spec fn jps_view(ps: Seq<(String, JsonValue)>) -> Seq<(Seq<char>, JsonValueV)>
    decreases ps,
{
    if ps.len() == 0 {
        Seq::empty()
    } else {
        seq![(ps[0].0@, jv_view(ps[0].1))] + jps_view(ps.subrange(1, ps.len() as int))
    }
}

/// `jvs_view` maps the sequence element-wise.
pub proof fn lemma_jvs_view_index(xs: Seq<JsonValue>)
    ensures
        jvs_view(xs).len() == xs.len(),
        forall|i: int| 0 <= i < xs.len() ==> jvs_view(xs)[i] == jv_view(xs[i]),
    decreases xs.len(),
{
    if xs.len() > 0 {
        let tail = xs.subrange(1, xs.len() as int);
        lemma_jvs_view_index(tail);
        assert forall|i: int| 0 <= i < xs.len() implies jvs_view(xs)[i] == jv_view(xs[i]) by {
            if i > 0 {
                assert(jvs_view(xs)[i] == jvs_view(tail)[i - 1]);
                assert(tail[i - 1] == xs[i]);
            }
        }
    }
}

/// `jps_view` maps the sequence element-wise.
pub proof fn lemma_jps_view_index(ps: Seq<(String, JsonValue)>)
    ensures
        jps_view(ps).len() == ps.len(),
        forall|i: int| 0 <= i < ps.len() ==> jps_view(ps)[i] == (ps[i].0@, jv_view(ps[i].1)),
    decreases ps.len(),
{
    if ps.len() > 0 {
        let tail = ps.subrange(1, ps.len() as int);
        lemma_jps_view_index(tail);
        assert forall|i: int| 0 <= i < ps.len() implies jps_view(ps)[i] == (
            ps[i].0@,
            jv_view(ps[i].1),
        ) by {
            if i > 0 {
                assert(jps_view(ps)[i] == jps_view(tail)[i - 1]);
                assert(tail[i - 1] == ps[i]);
            }
        }
    }
}

/// JSON insignificant whitespace.
pub open spec fn is_ws(c: char) -> bool {
    c == ' ' || c == '\n' || c == '\r' || c == '\t'
}

pub open spec fn is_digit(c: char) -> bool {
    48 <= c as u32 && c as u32 <= 57
}

pub open spec fn is_hex(c: char) -> bool {
    is_digit(c) || (97 <= c as u32 && c as u32 <= 102) || (65 <= c as u32 && c as u32 <= 70)
}

/// The value of a hexadecimal digit.
pub open spec fn hex_val(c: char) -> int {
    if is_digit(c) {
        c as u32 - 48
    } else if 97 <= c as u32 {
        c as u32 - 87
    } else {
        c as u32 - 55
    }
}

/// The first position at or after `i` that holds no whitespace.
pub open spec fn spec_skip_ws(s: Seq<char>, i: int) -> int
    decreases s.len() - i,
{
    if 0 <= i && i < s.len() && is_ws(s[i]) {
        spec_skip_ws(s, i + 1)
    } else {
        i
    }
}

/// The first position at or after `i` that holds no decimal digit.
pub open spec fn spec_digits_end(s: Seq<char>, i: int) -> int
    decreases s.len() - i,
{
    if 0 <= i && i < s.len() && is_digit(s[i]) {
        spec_digits_end(s, i + 1)
    } else {
        i
    }
}

/// The rest of a string token, from just after the opening quote (or any
/// later position inside the token): the decoded contents and the
/// position after the closing quote. Unescaped control characters, bad
/// escapes and surrogate `\u` escapes are rejected.
pub open spec fn spec_string_body(s: Seq<char>, i: int) -> Option<(Seq<char>, int)>
    decreases s.len() - i,
{
    if i < 0 || i >= s.len() {
        None
    } else if s[i] == '"' {
        Some((Seq::empty(), i + 1))
    } else if s[i] == '\\' {
        if i + 2 > s.len() {
            None
        } else {
            let e = s[i + 1];
            if e == 'u' {
                if i + 6 > s.len() {
                    None
                } else if is_hex(s[i + 2]) && is_hex(s[i + 3]) && is_hex(s[i + 4]) && is_hex(
                    s[i + 5],
                ) {
                    let code = hex_val(s[i + 2]) * 4096 + hex_val(s[i + 3]) * 256 + hex_val(
                        s[i + 4],
                    ) * 16 + hex_val(s[i + 5]);
                    if 0xD800 <= code && code <= 0xDFFF {
                        None
                    } else {
                        match spec_string_body(s, i + 6) {
                            Some((t, j)) => Some((seq![code as char] + t, j)),
                            None => None,
                        }
                    }
                } else {
                    None
                }
            } else {
                let d = if e == '"' {
                    Some('"')
                } else if e == '\\' {
                    Some('\\')
                } else if e == '/' {
                    Some('/')
                } else if e == 'b' {
                    Some(8 as char)
                } else if e == 'f' {
                    Some(12 as char)
                } else if e == 'n' {
                    Some('\n')
                } else if e == 'r' {
                    Some('\r')
                } else if e == 't' {
                    Some('\t')
                } else {
                    None
                };
                match d {
                    Some(c) => match spec_string_body(s, i + 2) {
                        Some((t, j)) => Some((seq![c] + t, j)),
                        None => None,
                    },
                    None => None,
                }
            }
        }
    } else if (s[i] as u32) < 0x20 {
        None
    } else {
        match spec_string_body(s, i + 1) {
            Some((t, j)) => Some((seq![s[i]] + t, j)),
            None => None,
        }
    }
}

/// A number token starting at `i`: its raw text and the position after
/// it. The usual JSON shape: an optional minus, an integer part without
/// leading zeros, an optional fraction and an optional exponent.
pub open spec fn spec_number(s: Seq<char>, i: int) -> Option<(Seq<char>, int)> {
    if i < 0 || i >= s.len() {
        None
    } else {
        let p = if s[i] == '-' {
            i + 1
        } else {
            i
        };
        if p >= s.len() || !is_digit(s[p]) {
            None
        } else {
            let int_end = if s[p] == '0' {
                p + 1
            } else {
                spec_digits_end(s, p)
            };
            let frac_end = if int_end < s.len() && s[int_end] == '.' {
                spec_digits_end(s, int_end + 1)
            } else {
                int_end
            };
            if int_end < s.len() && s[int_end] == '.' && frac_end == int_end + 1 {
                None
            } else {
                let has_exp = frac_end < s.len() && (s[frac_end] == 'e' || s[frac_end] == 'E');
                if has_exp {
                    let exp_sign = frac_end + 1 < s.len() && (s[frac_end + 1] == '+'
                        || s[frac_end + 1] == '-');
                    let exp_digits = if exp_sign {
                        frac_end + 2
                    } else {
                        frac_end + 1
                    };
                    let exp_end = spec_digits_end(s, exp_digits);
                    if exp_end == exp_digits {
                        None
                    } else {
                        Some((s.subrange(i, exp_end), exp_end))
                    }
                } else {
                    Some((s.subrange(i, frac_end), frac_end))
                }
            }
        }
    }
}

/// A JSON value starting exactly at `i` (no leading whitespace): the
/// value and the position after it. A container is rejected once `d`,
/// the remaining nesting allowance, is used up.
pub open spec fn spec_value(s: Seq<char>, i: int, d: int) -> Option<(JsonValueV, int)>
    decreases s.len() - i, 0int,
{
    if i < 0 || i >= s.len() {
        None
    } else if s[i] == '{' {
        if d <= 0 {
            None
        } else {
            let j = spec_skip_ws(s, i + 1);
            if j <= i || j > s.len() {
                None
            } else if j < s.len() && s[j] == '}' {
                Some((JsonValueV::Obj(Seq::empty()), j + 1))
            } else {
                match spec_members(s, j, d - 1) {
                    Some((ps, k)) => Some((JsonValueV::Obj(ps), k)),
                    None => None,
                }
            }
        }
    } else if s[i] == '[' {
        if d <= 0 {
            None
        } else {
            let j = spec_skip_ws(s, i + 1);
            if j <= i || j > s.len() {
                None
            } else if j < s.len() && s[j] == ']' {
                Some((JsonValueV::Arr(Seq::empty()), j + 1))
            } else {
                match spec_elements(s, j, d - 1) {
                    Some((vs, k)) => Some((JsonValueV::Arr(vs), k)),
                    None => None,
                }
            }
        }
    } else if s[i] == '"' {
        match spec_string_body(s, i + 1) {
            Some((t, j)) => Some((JsonValueV::Str(t), j)),
            None => None,
        }
    } else if s[i] == 't' {
        if s.len() - i >= 4 && s[i + 1] == 'r' && s[i + 2] == 'u' && s[i + 3] == 'e' {
            Some((JsonValueV::Bool(true), i + 4))
        } else {
            None
        }
    } else if s[i] == 'f' {
        if s.len() - i >= 5 && s[i + 1] == 'a' && s[i + 2] == 'l' && s[i + 3] == 's' && s[i + 4]
            == 'e' {
            Some((JsonValueV::Bool(false), i + 5))
        } else {
            None
        }
    } else if s[i] == 'n' {
        if s.len() - i >= 4 && s[i + 1] == 'u' && s[i + 2] == 'l' && s[i + 3] == 'l' {
            Some((JsonValueV::Null, i + 4))
        } else {
            None
        }
    } else if s[i] == '-' || is_digit(s[i]) {
        match spec_number(s, i) {
            Some((t, j)) => Some((JsonValueV::Num(t), j)),
            None => None,
        }
    } else {
        None
    }
}

/// One or more array elements starting at `i` (no leading whitespace),
/// up to and including the closing bracket.
pub open spec fn spec_elements(s: Seq<char>, i: int, d: int) -> Option<(Seq<JsonValueV>, int)>
    decreases s.len() - i, 1int,
{
    if i < 0 || i >= s.len() {
        None
    } else {
        match spec_value(s, i, d) {
            None => None,
            Some((v, j)) => {
                if j <= i || j > s.len() {
                    None
                } else {
                    let k = spec_skip_ws(s, j);
                    if k < s.len() && s[k] == ']' {
                        Some((seq![v], k + 1))
                    } else if k < s.len() && s[k] == ',' {
                        let m = spec_skip_ws(s, k + 1);
                        if m <= i || m > s.len() {
                            None
                        } else {
                            match spec_elements(s, m, d) {
                                Some((vs, n)) => Some((seq![v] + vs, n)),
                                None => None,
                            }
                        }
                    } else {
                        None
                    }
                }
            },
        }
    }
}

/// One or more object members starting at `i` (no leading whitespace),
/// up to and including the closing brace.
pub open spec fn spec_members(
    s: Seq<char>,
    i: int,
    d: int,
) -> Option<(Seq<(Seq<char>, JsonValueV)>, int)>
    decreases s.len() - i, 1int,
{
    if i < 0 || i >= s.len() {
        None
    } else if s[i] != '"' {
        None
    } else {
        match spec_string_body(s, i + 1) {
            None => None,
            Some((key, j)) => {
                if j <= i || j > s.len() {
                    None
                } else {
                    let c = spec_skip_ws(s, j);
                    if !(c < s.len() && s[c] == ':') {
                        None
                    } else {
                        let v_start = spec_skip_ws(s, c + 1);
                        if v_start <= i || v_start > s.len() {
                            None
                        } else {
                            match spec_value(s, v_start, d) {
                                None => None,
                                Some((v, w)) => {
                                    if w <= v_start || w > s.len() {
                                        None
                                    } else {
                                        let k = spec_skip_ws(s, w);
                                        if k < s.len() && s[k] == '}' {
                                            Some((seq![(key, v)], k + 1))
                                        } else if k < s.len() && s[k] == ',' {
                                            let m = spec_skip_ws(s, k + 1);
                                            if m <= i || m > s.len() {
                                                None
                                            } else {
                                                match spec_members(s, m, d) {
                                                    Some((ps, n)) => Some((seq![(key, v)] + ps, n)),
                                                    None => None,
                                                }
                                            }
                                        } else {
                                            None
                                        }
                                    }
                                },
                            }
                        }
                    }
                }
            },
        }
    }
}

/// Containers may nest at most this deep.
pub const MAX_DEPTH: u32 = 128;

/// A whole JSON document: one value surrounded by whitespace.
pub open spec fn spec_parse_json(s: Seq<char>) -> Option<JsonValueV> {
    let i = spec_skip_ws(s, 0);
    match spec_value(s, i, MAX_DEPTH as int) {
        Some((v, j)) => {
            if spec_skip_ws(s, j) == s.len() {
                Some(v)
            } else {
                None
            }
        },
        None => None,
    }
}

/// Relies on `char::from_u32`: a value is accepted exactly when it is a
/// valid code point (not a surrogate, at most 0x10FFFF), and the
/// character returned has that value.
#[verifier::external_body]
fn char_from_u32(v: u32) -> (r: Option<char>)
    ensures
        r is Some <==> (v < 0xD800 || (0xE000 <= v && v <= 0x10FFFF)),
        r matches Some(c) ==> c == v as char,
{
    char::from_u32(v)
}

fn is_ws_char(c: char) -> (r: bool)
    ensures
        r == is_ws(c),
{
    c == ' ' || c == '\n' || c == '\r' || c == '\t'
}

fn is_digit_char(c: char) -> (r: bool)
    ensures
        r == is_digit(c),
{
    let u = c as u32;
    48 <= u && u <= 57
}

fn hex_digit(c: char) -> (r: Option<u32>)
    ensures
        r is Some <==> is_hex(c),
        r matches Some(v) ==> v == hex_val(c) && v < 16,
{
    let u = c as u32;
    if 48 <= u && u <= 57 {
        Some(u - 48)
    } else if 97 <= u && u <= 102 {
        Some(u - 87)
    } else if 65 <= u && u <= 70 {
        Some(u - 55)
    } else {
        None
    }
}

fn skip_ws(s: &Vec<char>, i: usize) -> (r: usize)
    requires
        i <= s@.len(),
    ensures
        r == spec_skip_ws(s@, i as int),
        i <= r <= s@.len(),
{
    let n = s.len();
    let mut cur = i;
    while cur < n && is_ws_char(s[cur])
        invariant
            n == s@.len(),
            i <= cur <= n,
            spec_skip_ws(s@, i as int) == spec_skip_ws(s@, cur as int),
        decreases n - cur,
    {
        cur = cur + 1;
    }
    cur
}

fn digits_end(s: &Vec<char>, i: usize) -> (r: usize)
    requires
        i <= s@.len(),
    ensures
        r == spec_digits_end(s@, i as int),
        i <= r <= s@.len(),
        i < s@.len() && is_digit(s@[i as int]) ==> r > i,
    decreases s@.len() - i,
{
    let n = s.len();
    let mut cur = i;
    while cur < n && is_digit_char(s[cur])
        invariant
            n == s@.len(),
            i <= cur <= n,
            spec_digits_end(s@, i as int) == spec_digits_end(s@, cur as int),
        decreases n - cur,
    {
        cur = cur + 1;
    }
    cur
}

fn string_body(s: &Vec<char>, i: usize) -> (r: Option<(String, usize)>)
    requires
        i <= s@.len(),
    ensures
        match r {
            Some((t, j)) => spec_string_body(s@, i as int) == Some((t@, j as int)) && i < j
                <= s@.len(),
            None => spec_string_body(s@, i as int) is None,
        },
{
    let mut out = String::new();
    let mut cur = i;
    loop
        invariant
            i <= cur <= s@.len(),
            spec_string_body(s@, i as int) == (match spec_string_body(s@, cur as int) {
                Some((t, j)) => Some((out@ + t, j)),
                None => None::<(Seq<char>, int)>,
            }),
        decreases s@.len() - cur,
    {
        if cur >= s.len() {
            return None;
        }
        let c = s[cur];
        if c == '"' {
            proof {
                assert(out@ + Seq::<char>::empty() =~= out@);
            }
            return Some((out, cur + 1));
        }
        if c == '\\' {
            if s.len() - cur < 2 {
                return None;
            }
            let e = s[cur + 1];
            if e == 'u' {
                if s.len() - cur < 6 {
                    return None;
                }
                let h0 = hex_digit(s[cur + 2]);
                let h1 = hex_digit(s[cur + 3]);
                let h2 = hex_digit(s[cur + 4]);
                let h3 = hex_digit(s[cur + 5]);
                match (h0, h1, h2, h3) {
                    (Some(a), Some(b), Some(cc), Some(d)) => {
                        let code: u32 = a * 4096 + b * 256 + cc * 16 + d;
                        if 0xD800 <= code && code <= 0xDFFF {
                            return None;
                        }
                        let ch = char_from_u32(code).unwrap();
                        let ghost prev = out@;
                        crate::text::push_char(&mut out, ch);
                        proof {
                            match spec_string_body(s@, cur + 6) {
                                Some((t, j)) => {
                                    assert((prev + seq![ch]) + t =~= prev + (seq![ch] + t));
                                },
                                None => {},
                            }
                        }
                        cur = cur + 6;
                    },
                    _ => {
                        return None;
                    },
                }
            } else {
                let d: Option<char> = if e == '"' {
                    Some('"')
                } else if e == '\\' {
                    Some('\\')
                } else if e == '/' {
                    Some('/')
                } else if e == 'b' {
                    Some('\u{8}')
                } else if e == 'f' {
                    Some('\u{c}')
                } else if e == 'n' {
                    Some('\n')
                } else if e == 'r' {
                    Some('\r')
                } else if e == 't' {
                    Some('\t')
                } else {
                    None
                };
                match d {
                    Some(dc) => {
                        let ghost prev = out@;
                        crate::text::push_char(&mut out, dc);
                        proof {
                            match spec_string_body(s@, cur + 2) {
                                Some((t, j)) => {
                                    assert((prev + seq![dc]) + t =~= prev + (seq![dc] + t));
                                },
                                None => {},
                            }
                        }
                        cur = cur + 2;
                    },
                    None => {
                        return None;
                    },
                }
            }
        } else {
            let u = c as u32;
            if u < 0x20 {
                return None;
            }
            let ghost prev = out@;
            crate::text::push_char(&mut out, c);
            proof {
                match spec_string_body(s@, cur + 1) {
                    Some((t, j)) => {
                        assert((prev + seq![c]) + t =~= prev + (seq![c] + t));
                    },
                    None => {},
                }
            }
            cur = cur + 1;
        }
    }
}

/// The characters of `s` between `from` and `to`, as a string.
fn chars_range(s: &Vec<char>, from: usize, to: usize) -> (r: String)
    requires
        from <= to <= s@.len(),
    ensures
        r@ == s@.subrange(from as int, to as int),
{
    let mut out = String::new();
    let mut k = from;
    proof {
        assert(out@ =~= s@.subrange(from as int, from as int));
    }
    while k < to
        invariant
            from <= k <= to <= s@.len(),
            out@ == s@.subrange(from as int, k as int),
        decreases to - k,
    {
        crate::text::push_char(&mut out, s[k]);
        proof {
            assert(out@ =~= s@.subrange(from as int, k + 1));
        }
        k = k + 1;
    }
    out
}

fn number_token(s: &Vec<char>, i: usize) -> (r: Option<(String, usize)>)
    requires
        i < s@.len(),
    ensures
        match r {
            Some((t, j)) => spec_number(s@, i as int) == Some((t@, j as int)) && i < j <= s@.len(),
            None => spec_number(s@, i as int) is None,
        },
{
    let n = s.len();
    let p = if s[i] == '-' {
        i + 1
    } else {
        i
    };
    if p >= n {
        return None;
    }
    if !is_digit_char(s[p]) {
        return None;
    }
    let int_end = if s[p] == '0' {
        p + 1
    } else {
        digits_end(s, p)
    };
    let has_frac = int_end < n && s[int_end] == '.';
    let frac_end = if has_frac {
        digits_end(s, int_end + 1)
    } else {
        int_end
    };
    if has_frac && frac_end == int_end + 1 {
        return None;
    }
    let has_exp = frac_end < n && (s[frac_end] == 'e' || s[frac_end] == 'E');
    if has_exp {
        let exp_sign = frac_end + 1 < n && (s[frac_end + 1] == '+' || s[frac_end + 1] == '-');
        let exp_digits = if exp_sign {
            frac_end + 2
        } else {
            frac_end + 1
        };
        if exp_digits > n {
            return None;
        }
        let exp_end = digits_end(s, exp_digits);
        if exp_end == exp_digits {
            return None;
        }
        Some((chars_range(s, i, exp_end), exp_end))
    } else {
        Some((chars_range(s, i, frac_end), frac_end))
    }
}

fn parse_value(s: &Vec<char>, i: usize, depth: u32) -> (r: Option<(JsonValue, usize)>)
    requires
        i <= s@.len(),
    ensures
        match r {
            Some((v, j)) => spec_value(s@, i as int, depth as int) == Some(
                (jv_view(v), j as int),
            ) && i < j <= s@.len(),
            None => spec_value(s@, i as int, depth as int) is None,
        },
    decreases s@.len() - i, 0int,
{
    if i >= s.len() {
        return None;
    }
    let c = s[i];
    if c == '{' {
        if depth == 0 {
            return None;
        }
        let j = skip_ws(s, i + 1);
        if j < s.len() && s[j] == '}' {
            let v = JsonValue::Obj(Vec::new());
            proof {
                assert(jps_view(Seq::<(String, JsonValue)>::empty()) =~= Seq::<
                    (Seq<char>, JsonValueV),
                >::empty());
            }
            return Some((v, j + 1));
        }
        match parse_members(s, j, depth - 1) {
            Some((ps, k)) => Some((JsonValue::Obj(ps), k)),
            None => None,
        }
    } else if c == '[' {
        if depth == 0 {
            return None;
        }
        let j = skip_ws(s, i + 1);
        if j < s.len() && s[j] == ']' {
            let v = JsonValue::Arr(Vec::new());
            proof {
                assert(jvs_view(Seq::<JsonValue>::empty()) =~= Seq::<JsonValueV>::empty());
            }
            return Some((v, j + 1));
        }
        match parse_elements(s, j, depth - 1) {
            Some((vs, k)) => Some((JsonValue::Arr(vs), k)),
            None => None,
        }
    } else if c == '"' {
        match string_body(s, i + 1) {
            Some((t, j)) => Some((JsonValue::Str(t), j)),
            None => None,
        }
    } else if c == 't' {
        if s.len() - i >= 4 && s[i + 1] == 'r' && s[i + 2] == 'u' && s[i + 3] == 'e' {
            Some((JsonValue::Bool(true), i + 4))
        } else {
            None
        }
    } else if c == 'f' {
        if s.len() - i >= 5 && s[i + 1] == 'a' && s[i + 2] == 'l' && s[i + 3] == 's' && s[i + 4]
            == 'e' {
            Some((JsonValue::Bool(false), i + 5))
        } else {
            None
        }
    } else if c == 'n' {
        if s.len() - i >= 4 && s[i + 1] == 'u' && s[i + 2] == 'l' && s[i + 3] == 'l' {
            Some((JsonValue::Null, i + 4))
        } else {
            None
        }
    } else if c == '-' || is_digit_char(c) {
        match number_token(s, i) {
            Some((t, j)) => Some((JsonValue::Num(t), j)),
            None => None,
        }
    } else {
        None
    }
}

fn parse_elements(s: &Vec<char>, i: usize, depth: u32) -> (r: Option<(Vec<JsonValue>, usize)>)
    requires
        i <= s@.len(),
    ensures
        match r {
            Some((vs, j)) => spec_elements(s@, i as int, depth as int) == Some(
                (jvs_view(vs@), j as int),
            ) && i < j <= s@.len(),
            None => spec_elements(s@, i as int, depth as int) is None,
        },
    decreases s@.len() - i, 1int,
{
    let mut vs: Vec<JsonValue> = Vec::new();
    let mut cur = i;
    proof {
        assert(jvs_view(vs@) =~= Seq::<JsonValueV>::empty());
    }
    loop
        invariant
            i <= cur <= s@.len(),
            spec_elements(s@, i as int, depth as int) == (match spec_elements(
                s@,
                cur as int,
                depth as int,
            ) {
                Some((rest, j)) => Some((jvs_view(vs@) + rest, j)),
                None => None::<(Seq<JsonValueV>, int)>,
            }),
        decreases s@.len() - cur,
    {
        if cur >= s.len() {
            return None;
        }
        match parse_value(s, cur, depth) {
            None => {
                return None;
            },
            Some((v, j)) => {
                let ghost prev = jvs_view(vs@);
                let ghost ov = vs@;
                let ghost vv = jv_view(v);
                vs.push(v);
                proof {
                    lemma_jvs_view_index(vs@);
                    lemma_jvs_view_index(ov);
                    assert(jvs_view(vs@) =~= prev + seq![vv]);
                }
                let k = skip_ws(s, j);
                if k < s.len() && s[k] == ']' {
                    proof {
                        assert((prev + seq![vv]) + Seq::<JsonValueV>::empty() =~= prev + seq![vv]);
                    }
                    return Some((vs, k + 1));
                }
                if k < s.len() && s[k] == ',' {
                    let m = skip_ws(s, k + 1);
                    proof {
                        match spec_elements(s@, m as int, depth as int) {
                            Some((rest, n)) => {
                                assert((prev + seq![vv]) + rest =~= prev + (seq![vv] + rest));
                            },
                            None => {},
                        }
                    }
                    cur = m;
                } else {
                    return None;
                }
            },
        }
    }
}

fn parse_members(s: &Vec<char>, i: usize, depth: u32) -> (r: Option<(
    Vec<(String, JsonValue)>,
    usize,
)>)
    requires
        i <= s@.len(),
    ensures
        match r {
            Some((ps, j)) => spec_members(s@, i as int, depth as int) == Some(
                (jps_view(ps@), j as int),
            ) && i < j <= s@.len(),
            None => spec_members(s@, i as int, depth as int) is None,
        },
    decreases s@.len() - i, 1int,
{
    let mut ps: Vec<(String, JsonValue)> = Vec::new();
    let mut cur = i;
    proof {
        assert(jps_view(ps@) =~= Seq::<(Seq<char>, JsonValueV)>::empty());
    }
    loop
        invariant
            i <= cur <= s@.len(),
            spec_members(s@, i as int, depth as int) == (match spec_members(
                s@,
                cur as int,
                depth as int,
            ) {
                Some((rest, j)) => Some((jps_view(ps@) + rest, j)),
                None => None::<(Seq<(Seq<char>, JsonValueV)>, int)>,
            }),
        decreases s@.len() - cur,
    {
        if cur >= s.len() {
            return None;
        }
        if !(s[cur] == '"') {
            return None;
        }
        match string_body(s, cur + 1) {
            None => {
                return None;
            },
            Some((key, j)) => {
                let c = skip_ws(s, j);
                if !(c < s.len() && s[c] == ':') {
                    return None;
                }
                let v_start = skip_ws(s, c + 1);
                match parse_value(s, v_start, depth) {
                    None => {
                        return None;
                    },
                    Some((v, w)) => {
                        let ghost prev = jps_view(ps@);
                        let ghost op = ps@;
                        let ghost kv = key@;
                        let ghost vv = jv_view(v);
                        ps.push((key, v));
                        proof {
                            lemma_jps_view_index(ps@);
                            lemma_jps_view_index(op);
                            assert(jps_view(ps@) =~= prev + seq![(kv, vv)]);
                        }
                        let k = skip_ws(s, w);
                        if k < s.len() && s[k] == '}' {
                            proof {
                                assert((prev + seq![(kv, vv)]) + Seq::<
                                    (Seq<char>, JsonValueV),
                                >::empty() =~= prev + seq![(kv, vv)]);
                            }
                            return Some((ps, k + 1));
                        }
                        if k < s.len() && s[k] == ',' {
                            let m = skip_ws(s, k + 1);
                            proof {
                                match spec_members(s@, m as int, depth as int) {
                                    Some((rest, n)) => {
                                        assert((prev + seq![(kv, vv)]) + rest =~= prev + (seq![
                                            (kv, vv),
                                        ] + rest));
                                    },
                                    None => {},
                                }
                            }
                            cur = m;
                        } else {
                            return None;
                        }
                    },
                }
            },
        }
    }
}

/// Parses one JSON document; `None` exactly when the text is not
/// well-formed JSON (in the dialect described above).
pub fn parse_json(s: &str) -> (r: Option<JsonValue>)
    ensures
        match r {
            Some(v) => spec_parse_json(s@) == Some(jv_view(v)),
            None => spec_parse_json(s@) is None,
        },
{
    let cs = crate::text::str_chars(s);
    let i = skip_ws(&cs, 0);
    match parse_value(&cs, i, MAX_DEPTH) {
        None => None,
        Some((v, j)) => {
            let k = skip_ws(&cs, j);
            if k == cs.len() {
                Some(v)
            } else {
                None
            }
        },
    }
}

} // verus!
