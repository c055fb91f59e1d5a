//! The JSON parser: specification functions that define the accepted
//! grammar, and an executable recursive-descent parser proved to return
//! exactly what the specification functions say on every input.

use vstd::prelude::*;
use vstd::string::*;

use crate::json::{jv, jv_members, jv_seq, Json, Jv};

verus! {

/// The whitespace the grammar skips between tokens.
pub open spec fn is_ws(c: char) -> bool {
    c == ' ' || c == '\t' || c == '\n' || c == '\r'
}

/// A decimal digit.
pub open spec fn is_digit(c: char) -> bool {
    48 <= c as u32 <= 57
}

/// The first index at or after `i` that does not hold whitespace.
pub open spec fn sp_ws(s: Seq<char>, i: int) -> int
    decreases s.len() - i,
{
    if i < s.len() && is_ws(s[i]) {
        sp_ws(s, i + 1)
    } else {
        i
    }
}

/// The first index at or after `i` that does not hold a digit.
pub open spec fn digits_end(s: Seq<char>, i: int) -> int
    decreases s.len() - i,
{
    if i < s.len() && is_digit(s[i]) {
        digits_end(s, i + 1)
    } else {
        i
    }
}

/// The value of the digits `s[i..e]`, most significant first.
pub open spec fn digits_val(s: Seq<char>, i: int, e: int) -> int
    decreases e - i,
{
    if i < e {
        digits_val(s, i, e - 1) * 10 + (s[e - 1] as u32 - 48)
    } else {
        0
    }
}

/// The number a JSON number token at `i` denotes: an optional minus sign
/// and at least one digit. At most 18 digits are accepted, which keeps
/// every accepted number well inside the integer range.
pub open spec fn sp_number(s: Seq<char>, i: int) -> Option<(Jv, int)> {
    let neg = i < s.len() && s[i] == '-';
    let d0 = if neg {
        i + 1
    } else {
        i
    };
    let e = digits_end(s, d0);
    if e == d0 || e - d0 > 18 {
        None
    } else {
        let m = digits_val(s, d0, e);
        let n: int = if neg {
            -m
        } else {
            m
        };
        Some((Jv::Int(n as i64), e))
    }
}

/// What the character after a backslash stands for, or nothing when the
/// escape is not accepted.
pub open spec fn unesc_char(c: char) -> Option<char> {
    if c == '"' {
        Some('"')
    } else if c == '\\' {
        Some('\\')
    } else if c == '/' {
        Some('/')
    } else if c == 'b' {
        Some('\u{8}')
    } else if c == 'f' {
        Some('\u{c}')
    } else if c == 'n' {
        Some('\u{a}')
    } else if c == 'r' {
        Some('\u{d}')
    } else if c == 't' {
        Some('\u{9}')
    } else {
        None
    }
}

/// The body of a string token read from `i` (just after the opening
/// quote) to its closing quote: the characters it denotes and the index
/// after the closing quote. Unescaped control characters and unaccepted
/// escapes refuse the string.
pub open spec fn sp_str_body(s: Seq<char>, i: int) -> Option<(Seq<char>, int)>
    decreases s.len() - i,
{
    if i < 0 || i >= s.len() {
        None
    } else if s[i] == '"' {
        Some((Seq::empty(), i + 1))
    } else if s[i] == '\\' {
        if i + 1 < s.len() {
            match unesc_char(s[i + 1]) {
                Some(c) => match sp_str_body(s, i + 2) {
                    Some((t, j)) => Some((seq![c] + t, j)),
                    None => None,
                },
                None => None,
            }
        } else {
            None
        }
    } else if (s[i] as u32) < 32 {
        None
    } else {
        match sp_str_body(s, i + 1) {
            Some((t, j)) => Some((seq![s[i]] + t, j)),
            None => None,
        }
    }
}

/// The value a JSON text denotes at index `i`, and the index just after
/// it: the grammar of the parser.
pub open spec fn sp_value(s: Seq<char>, i: int) -> Option<(Jv, int)>
    decreases s.len() - i, 2int,
{
    if i < 0 || i >= s.len() {
        None
    } else {
        let c = s[i];
        if c == 'n' {
            if i + 4 <= s.len() && s.subrange(i, i + 4) == seq!['n', 'u', 'l', 'l'] {
                Some((Jv::Null, i + 4))
            } else {
                None
            }
        } else if c == 't' {
            if i + 4 <= s.len() && s.subrange(i, i + 4) == seq!['t', 'r', 'u', 'e'] {
                Some((Jv::Bool(true), i + 4))
            } else {
                None
            }
        } else if c == 'f' {
            if i + 5 <= s.len() && s.subrange(i, i + 5) == seq!['f', 'a', 'l', 's', 'e'] {
                Some((Jv::Bool(false), i + 5))
            } else {
                None
            }
        } else if c == '"' {
            match sp_str_body(s, i + 1) {
                Some((t, j)) => Some((Jv::Str(t), j)),
                None => None,
            }
        } else if c == '-' || is_digit(c) {
            sp_number(s, i)
        } else if c == '[' {
            let j = sp_ws(s, i + 1);
            if j < s.len() && s[j] == ']' {
                Some((Jv::Arr(Seq::empty()), j + 1))
            } else if j <= i || j > s.len() {
                None
            } else {
                match sp_arr_items(s, j) {
                    Some((items, k)) => if k < s.len() && s[k] == ']' {
                        Some((Jv::Arr(items), k + 1))
                    } else {
                        None
                    },
                    None => None,
                }
            }
        } else if c == '{' {
            let j = sp_ws(s, i + 1);
            if j < s.len() && s[j] == '}' {
                Some((Jv::Obj(Seq::empty()), j + 1))
            } else if j <= i || j > s.len() {
                None
            } else {
                match sp_obj_items(s, j) {
                    Some((members, k)) => if k < s.len() && s[k] == '}' {
                        Some((Jv::Obj(members), k + 1))
                    } else {
                        None
                    },
                    None => None,
                }
            }
        } else {
            None
        }
    }
}

/// One or more comma-separated values starting at `i`; the index returned
/// points at whatever follows the trailing whitespace of the last item,
/// where the caller expects the closing bracket.
pub open spec fn sp_arr_items(s: Seq<char>, i: int) -> Option<(Seq<Jv>, int)>
    decreases s.len() - i, 3int,
{
    match sp_value(s, i) {
        Some((v, j)) => {
            if j <= i {
                None
            } else {
                let k = sp_ws(s, j);
                if k < s.len() && s[k] == ',' {
                    let m = sp_ws(s, k + 1);
                    if m <= i || m > s.len() {
                        None
                    } else {
                        match sp_arr_items(s, m) {
                            Some((rest, e)) => Some((seq![v] + rest, e)),
                            None => None,
                        }
                    }
                } else {
                    Some((seq![v], k))
                }
            }
        },
        None => None,
    }
}

/// One or more comma-separated `"key":value` members starting at `i`; the
/// index returned points at whatever follows the trailing whitespace of
/// the last member, where the caller expects the closing brace.
pub open spec fn sp_obj_items(s: Seq<char>, i: int) -> Option<(Seq<(Seq<char>, Jv)>, int)>
    decreases s.len() - i, 3int,
{
    if i < 0 || i >= s.len() || s[i] != '"' {
        None
    } else {
        match sp_str_body(s, i + 1) {
            Some((key, j)) => {
                let k = sp_ws(s, j);
                if k < s.len() && s[k] == ':' {
                    let m = sp_ws(s, k + 1);
                    if m <= i || m > s.len() {
                        None
                    } else {
                        match sp_value(s, m) {
                            Some((v, e)) => {
                                let w = sp_ws(s, e);
                                if w < s.len() && s[w] == ',' {
                                    let x = sp_ws(s, w + 1);
                                    if x <= i || x > s.len() {
                                        None
                                    } else {
                                        match sp_obj_items(s, x) {
                                            Some((rest, z)) => Some((seq![(key, v)] + rest, z)),
                                            None => None,
                                        }
                                    }
                                } else {
                                    Some((seq![(key, v)], w))
                                }
                            },
                            None => None,
                        }
                    }
                } else {
                    None
                }
            },
            None => None,
        }
    }
}

/// The value a whole JSON text denotes: one value between optional
/// whitespace, with nothing after it.
pub open spec fn sp_json(s: Seq<char>) -> Option<Jv> {
    match sp_value(s, sp_ws(s, 0)) {
        Some((v, j)) => if sp_ws(s, j) == s.len() {
            Some(v)
        } else {
            None
        },
        None => None,
    }
}

/// Whether `c` is whitespace the grammar skips.
fn is_ws_char(c: char) -> (r: bool)
    ensures
        r == is_ws(c),
{
    c == ' ' || c == '\t' || c == '\n' || c == '\r'
}

/// Whether `c` is a decimal digit.
fn is_digit_char(c: char) -> (r: bool)
    ensures
        r == is_digit(c),
{
    let u = c as u32;
    48 <= u && u <= 57
}

/// The first index at or after `i` that does not hold whitespace.
fn skip_ws(s: &str, i: usize) -> (r: usize)
    requires
        i <= s@.len(),
    ensures
        r as int == sp_ws(s@, i as int),
        i <= r <= s@.len(),
    decreases s@.len() - i,
{
    if i < s.unicode_len() && is_ws_char(s.get_char(i)) {
        skip_ws(s, i + 1)
    } else {
        i
    }
}

/// What the character after a backslash stands for.
fn unesc_char_exec(c: char) -> (r: Option<char>)
    ensures
        r == unesc_char(c),
{
    if c == '"' {
        Some('"')
    } else if c == '\\' {
        Some('\\')
    } else if c == '/' {
        Some('/')
    } else if c == 'b' {
        Some('\u{8}')
    } else if c == 'f' {
        Some('\u{c}')
    } else if c == 'n' {
        Some('\u{a}')
    } else if c == 'r' {
        Some('\u{d}')
    } else if c == 't' {
        Some('\u{9}')
    } else {
        None
    }
}

/// Read a string body from `i` to its closing quote.
fn parse_str_body(s: &str, i: usize) -> (r: Option<(String, usize)>)
    requires
        i <= s@.len(),
    ensures
        r is Some <==> sp_str_body(s@, i as int) is Some,
        r matches Some((t, j)) ==> sp_str_body(s@, i as int) == Some((t@, j as int)) && i < j
            <= s@.len(),
    decreases s@.len() - i,
{
    let n = s.unicode_len();
    if i >= n {
        return None;
    }
    let c = s.get_char(i);
    if c == '"' {
        let out = String::new();
        proof {
            assert(out@ =~= Seq::<char>::empty());
        }
        Some((out, i + 1))
    } else if c == '\\' {
        if i + 1 < n {
            match unesc_char_exec(s.get_char(i + 1)) {
                Some(u) => match parse_str_body(s, i + 2) {
                    Some((t, j)) => {
                        let mut out = String::new();
                        crate::json::push_char(&mut out, u);
                        out.append(t.as_str());
                        proof {
                            assert(out@ =~= seq![u] + t@);
                        }
                        Some((out, j))
                    },
                    None => None,
                },
                None => None,
            }
        } else {
            None
        }
    } else if (c as u32) < 32 {
        None
    } else {
        match parse_str_body(s, i + 1) {
            Some((t, j)) => {
                let mut out = String::new();
                crate::json::push_char(&mut out, c);
                out.append(t.as_str());
                proof {
                    assert(out@ =~= seq![c] + t@);
                }
                Some((out, j))
            },
            None => None,
        }
    }
}

/// Ten to the `n`.
pub open spec fn pow10(n: nat) -> nat
    decreases n,
{
    if n == 0 {
        1
    } else {
        10 * pow10((n - 1) as nat)
    }
}

/// The value of a digit run is bounded by ten to its length.
pub proof fn lemma_digits_val_bound(s: Seq<char>, i: int, e: int)
    requires
        i <= e,
        forall|k: int| i <= k < e ==> is_digit(#[trigger] s[k]),
    ensures
        0 <= digits_val(s, i, e) < pow10((e - i) as nat),
    decreases e - i,
{
    if i < e {
        lemma_digits_val_bound(s, i, e - 1);
        assert(is_digit(s[e - 1]));
        assert(digits_val(s, i, e) == digits_val(s, i, e - 1) * 10 + (s[e - 1] as u32 - 48));
        assert(pow10((e - i) as nat) == 10 * pow10((e - i - 1) as nat));
        assert(digits_val(s, i, e - 1) * 10 <= (pow10((e - i - 1) as nat) - 1) * 10) by {
            assert(digits_val(s, i, e - 1) <= pow10((e - i - 1) as nat) - 1);
        }
    }
}

/// Read a number token at `i`.
#[verifier::loop_isolation(false)]
#[verifier::rlimit(60)]
fn parse_number(s: &str, i: usize) -> (r: Option<(Json, usize)>)
    requires
        i <= s@.len(),
    ensures
        r is Some <==> sp_number(s@, i as int) is Some,
        r matches Some((j, n)) ==> sp_number(s@, i as int) == Some((j@, n as int)) && i < n
            <= s@.len(),
{
    let n = s.unicode_len();
    let neg = i < n && s.get_char(i) == '-';
    let d0 = if neg {
        i + 1
    } else {
        i
    };
    let mut e = d0;
    while e < n && is_digit_char(s.get_char(e))
        invariant
            d0 <= e <= n,
            digits_end(s@, d0 as int) == digits_end(s@, e as int),
            forall|k: int| d0 <= k < e ==> is_digit(#[trigger] s@[k]),
        decreases n - e,
    {
        e += 1;
    }
    proof {
        assert(digits_end(s@, e as int) == e);
        assert(digits_end(s@, d0 as int) == e);
    }
    if e == d0 || e - d0 > 18 {
        return None;
    }
    proof {
        lemma_digits_val_bound(s@, d0 as int, e as int);
        reveal_with_fuel(pow10, 20);
        assert(pow10(18) == 1000000000000000000);
    }
    let mut val: u64 = 0;
    let mut idx = d0;
    while idx < e
        invariant
            d0 <= idx <= e,
            val == digits_val(s@, d0 as int, idx as int),
            val < pow10((idx - d0) as nat),
        decreases e - idx,
    {
        let d = (s.get_char(idx) as u32) - 48;
        proof {
            assert(is_digit(s@[idx as int]));
            assert(pow10((idx - d0) as nat) <= pow10(17)) by {
                lemma_pow10_le((idx - d0) as nat, 17);
            }
            assert(pow10(17) == 100000000000000000) by {
                reveal_with_fuel(pow10, 20);
            }
            assert(pow10((idx + 1 - d0) as nat) == 10 * pow10((idx - d0) as nat));
        }
        val = val * 10 + (d as u64);
        idx += 1;
    }
    let m: i64 = val as i64;
    if neg {
        Some((Json::Int(-m), e))
    } else {
        Some((Json::Int(m), e))
    }
}

/// `pow10` grows with its argument.
pub proof fn lemma_pow10_le(a: nat, b: nat)
    requires
        a <= b,
    ensures
        pow10(a) <= pow10(b),
    decreases b,
{
    if a < b {
        lemma_pow10_le(a, (b - 1) as nat);
        assert(pow10(b) == 10 * pow10((b - 1) as nat));
    }
}

/// Whether the four characters at `i` are exactly `c0 c1 c2 c3`.
fn lit4(s: &str, i: usize, c0: char, c1: char, c2: char, c3: char) -> (r: bool)
    requires
        i + 4 <= s@.len(),
    ensures
        r == (s@.subrange(i as int, i as int + 4) == seq![c0, c1, c2, c3]),
{
    let n = s.unicode_len();
    let m = s.get_char(i) == c0 && s.get_char(i + 1) == c1 && s.get_char(i + 2) == c2
        && s.get_char(i + 3) == c3;
    proof {
        let sub = s@.subrange(i as int, i as int + 4);
        if m {
            assert(sub =~= seq![c0, c1, c2, c3]);
        } else if sub == seq![c0, c1, c2, c3] {
            assert(s@[i as int] == sub[0]);
            assert(s@[i as int + 1] == sub[1]);
            assert(s@[i as int + 2] == sub[2]);
            assert(s@[i as int + 3] == sub[3]);
            assert(false);
        }
    }
    m
}

/// Whether the five characters at `i` are exactly `c0 c1 c2 c3 c4`.
fn lit5(s: &str, i: usize, c0: char, c1: char, c2: char, c3: char, c4: char) -> (r: bool)
    requires
        i + 5 <= s@.len(),
    ensures
        r == (s@.subrange(i as int, i as int + 5) == seq![c0, c1, c2, c3, c4]),
{
    let n = s.unicode_len();
    let m = s.get_char(i) == c0 && s.get_char(i + 1) == c1 && s.get_char(i + 2) == c2
        && s.get_char(i + 3) == c3 && s.get_char(i + 4) == c4;
    proof {
        let sub = s@.subrange(i as int, i as int + 5);
        if m {
            assert(sub =~= seq![c0, c1, c2, c3, c4]);
        } else if sub == seq![c0, c1, c2, c3, c4] {
            assert(s@[i as int] == sub[0]);
            assert(s@[i as int + 1] == sub[1]);
            assert(s@[i as int + 2] == sub[2]);
            assert(s@[i as int + 3] == sub[3]);
            assert(s@[i as int + 4] == sub[4]);
            assert(false);
        }
    }
    m
}

/// Read the value at `i`: exactly what [`sp_value`] says.
#[verifier::rlimit(60)]
fn parse_value(s: &str, i: usize) -> (r: Option<(Json, usize)>)
    requires
        i <= s@.len(),
    ensures
        r is Some <==> sp_value(s@, i as int) is Some,
        r matches Some((j, e)) ==> sp_value(s@, i as int) == Some((jv(j), e as int)) && i < e
            <= s@.len(),
    decreases s@.len() - i, 2int,
{
    let n = s.unicode_len();
    if i >= n {
        return None;
    }
    let c = s.get_char(i);
    if c == 'n' {
        if n - i >= 4 && lit4(s, i, 'n', 'u', 'l', 'l') {
            Some((Json::Null, i + 4))
        } else {
            None
        }
    } else if c == 't' {
        if n - i >= 4 && lit4(s, i, 't', 'r', 'u', 'e') {
            Some((Json::Bool(true), i + 4))
        } else {
            None
        }
    } else if c == 'f' {
        if n - i >= 5 && lit5(s, i, 'f', 'a', 'l', 's', 'e') {
            Some((Json::Bool(false), i + 5))
        } else {
            None
        }
    } else if c == '"' {
        match parse_str_body(s, i + 1) {
            Some((t, j)) => Some((Json::Str(t), j)),
            None => None,
        }
    } else if c == '-' || is_digit_char(c) {
        parse_number(s, i)
    } else if c == '[' {
        let j = skip_ws(s, i + 1);
        if j < n && s.get_char(j) == ']' {
            let items: Vec<Json> = Vec::new();
            proof {
                assert(items@ =~= Seq::<Json>::empty());
                assert(jv_seq(items@) =~= Seq::<Jv>::empty());
            }
            Some((Json::Arr(items), j + 1))
        } else {
            match parse_arr_items(s, j) {
                Some((items, k)) => {
                    if k < n && s.get_char(k) == ']' {
                        Some((Json::Arr(items), k + 1))
                    } else {
                        None
                    }
                },
                None => None,
            }
        }
    } else if c == '{' {
        let j = skip_ws(s, i + 1);
        if j < n && s.get_char(j) == '}' {
            let members: Vec<(String, Json)> = Vec::new();
            proof {
                assert(members@ =~= Seq::<(String, Json)>::empty());
                assert(jv_members(members@) =~= Seq::<(Seq<char>, Jv)>::empty());
            }
            Some((Json::Obj(members), j + 1))
        } else {
            match parse_obj_items(s, j) {
                Some((members, k)) => {
                    if k < n && s.get_char(k) == '}' {
                        Some((Json::Obj(members), k + 1))
                    } else {
                        None
                    }
                },
                None => None,
            }
        }
    } else {
        None
    }
}

/// Read the comma-separated values at `i`: exactly what [`sp_arr_items`]
/// says.
fn parse_arr_items(s: &str, i: usize) -> (r: Option<(Vec<Json>, usize)>)
    requires
        i <= s@.len(),
    ensures
        r is Some <==> sp_arr_items(s@, i as int) is Some,
        r matches Some((items, e)) ==> sp_arr_items(s@, i as int) == Some((jv_seq(items@),
        e as int)) && i < e <= s@.len(),
    decreases s@.len() - i, 3int,
{
    let n = s.unicode_len();
    match parse_value(s, i) {
        Some((v, j)) => {
            let k = skip_ws(s, j);
            if k < n && s.get_char(k) == ',' {
                let m = skip_ws(s, k + 1);
                match parse_arr_items(s, m) {
                    Some((rest, e)) => {
                        let ghost rv = rest@;
                        let mut items = rest;
                        items.insert(0, v);
                        proof {
                            assert(items@ =~= seq![v] + rv);
                            assert(items@.drop_first() =~= rv);
                            assert(jv_seq(items@) == seq![jv(v)] + jv_seq(rv));
                        }
                        Some((items, e))
                    },
                    None => None,
                }
            } else {
                let mut items: Vec<Json> = Vec::new();
                items.push(v);
                proof {
                    assert(items@ =~= seq![v]);
                    assert(items@.drop_first() =~= Seq::<Json>::empty());
                    assert(jv_seq(Seq::<Json>::empty()) =~= Seq::<Jv>::empty());
                    assert(jv_seq(items@) == seq![jv(v)] + jv_seq(Seq::<Json>::empty()));
                    assert(jv_seq(items@) =~= seq![jv(v)]);
                }
                Some((items, k))
            }
        },
        None => None,
    }
}

/// Read the comma-separated members at `i`: exactly what [`sp_obj_items`]
/// says.
fn parse_obj_items(s: &str, i: usize) -> (r: Option<(Vec<(String, Json)>, usize)>)
    requires
        i <= s@.len(),
    ensures
        r is Some <==> sp_obj_items(s@, i as int) is Some,
        r matches Some((members, e)) ==> sp_obj_items(s@, i as int) == Some((jv_members(
            members@,
        ), e as int)) && i < e <= s@.len(),
    decreases s@.len() - i, 3int,
{
    let n = s.unicode_len();
    if i >= n {
        return None;
    }
    if s.get_char(i) != '"' {
        return None;
    }
    match parse_str_body(s, i + 1) {
        Some((key, j)) => {
            let k = skip_ws(s, j);
            if k < n && s.get_char(k) == ':' {
                let m = skip_ws(s, k + 1);
                match parse_value(s, m) {
                    Some((v, e)) => {
                        let w = skip_ws(s, e);
                        if w < n && s.get_char(w) == ',' {
                            let x = skip_ws(s, w + 1);
                            match parse_obj_items(s, x) {
                                Some((rest, z)) => {
                                    let ghost kv = key@;
                                    let ghost rv = rest@;
                                    let mut members = rest;
                                    members.insert(0, (key, v));
                                    proof {
                                        assert(members@.drop_first() =~= rv);
                                        assert(members@[0].0@ == kv);
                                        assert(jv_members(members@) == seq![(kv, jv(v))]
                                            + jv_members(rv));
                                    }
                                    Some((members, z))
                                },
                                None => None,
                            }
                        } else {
                            let ghost kv = key@;
                            let mut members: Vec<(String, Json)> = Vec::new();
                            members.push((key, v));
                            proof {
                                assert(members@.drop_first() =~= Seq::<(String, Json)>::empty());
                                assert(members@[0].0@ == kv);
                                assert(jv_members(Seq::<(String, Json)>::empty()) =~= Seq::<(
                                    Seq<char>,
                                    Jv,
                                )>::empty());
                                assert(jv_members(members@) == seq![(kv, jv(v))] + jv_members(
                                    Seq::<(String, Json)>::empty(),
                                ));
                                assert(jv_members(members@) =~= seq![(kv, jv(v))]);
                            }
                            Some((members, w))
                        }
                    },
                    None => None,
                }
            } else {
                None
            }
        },
        None => None,
    }
}

/// Parse a whole JSON text: returns the value it denotes and nothing on
/// any text the grammar refuses, exactly as [`sp_json`] says.
pub fn parse_json(s: &str) -> (r: Option<Json>)
    ensures
        r is Some <==> sp_json(s@) is Some,
        r matches Some(j) ==> sp_json(s@) == Some(jv(j)),
{
    let i = skip_ws(s, 0);
    match parse_value(s, i) {
        Some((j, e)) => {
            let w = skip_ws(s, e);
            if w == s.unicode_len() {
                Some(j)
            } else {
                None
            }
        },
        None => None,
    }
}


/// A character a JSON string can hold and read back: anything but the
/// control characters that only a `\u` escape (which the grammar leaves
/// out) could carry.
pub open spec fn text_safe_char(c: char) -> bool {
    c as u32 >= 32 || c == '\u{8}' || c == '\u{9}' || c == '\u{a}' || c == '\u{c}' || c
        == '\u{d}'
}

/// A string every character of which reads back.
pub open spec fn text_safe(t: Seq<char>) -> bool {
    forall|k: int| 0 <= k < t.len() ==> text_safe_char(#[trigger] t[k])
}

/// Reading a string body at `i` gives back exactly the characters whose
/// escaped text stands there, up to the closing quote.
proof fn lemma_parse_str_body_at(t: Seq<char>, s: Seq<char>, i: int)
    requires
        text_safe(t),
        0 <= i,
        i + crate::json::esc_text(t).len() + 1 <= s.len(),
        s.subrange(i, i + crate::json::esc_text(t).len()) == crate::json::esc_text(t),
        s[i + crate::json::esc_text(t).len()] == '"',
    ensures
        sp_str_body(s, i) == Some((t, i + crate::json::esc_text(t).len() + 1)),
    decreases t.len(),
{
    let et = crate::json::esc_text(t);
    let ln = et.len() as int;
    assert forall|k: int| 0 <= k < ln implies s[i + k] == et[k] by {
        assert(s.subrange(i, i + ln)[k] == s[i + k]);
    }
    if t.len() == 0 {
        assert(et =~= Seq::<char>::empty());
        assert(s[i] == '"');
    } else {
        let c = t[0];
        assert(text_safe_char(c));
        let ec = crate::json::esc_char(c);
        let rest = crate::json::esc_text(t.drop_first());
        assert(et == ec + rest);
        let el = ec.len() as int;
        assert forall|k: int| 0 <= k < rest.len() implies s.subrange(i + el, i + ln)[k]
            == rest[k] by {
            assert(s.subrange(i + el, i + ln)[k] == s[i + el + k]);
            assert(et[el + k] == rest[k]);
            assert(s[i + el + k] == et[el + k]);
        }
        assert(s.subrange(i + el, i + ln) =~= rest);
        assert(s[i + el + rest.len()] == '"');
        lemma_parse_str_body_at(t.drop_first(), s, i + el);
        assert(seq![c] + t.drop_first() =~= t);
        let esc = c == '"' || c == '\\' || c == '\u{8}' || c == '\u{9}' || c == '\u{a}' || c
            == '\u{c}' || c == '\u{d}';
        if esc {
            assert(ec.len() == 2);
            assert(s[i] == et[0] && s[i + 1] == et[1]);
            assert(et[0] == ec[0] && et[1] == ec[1]);
            assert(ec[0] == '\\');
            assert(unesc_char(ec[1]) == Some(c));
            assert(sp_str_body(s, i) == Some((t, i + ln + 1)));
        } else {
            assert(ec =~= seq![c]);
            assert(s[i] == et[0] && et[0] == c);
            assert(c as u32 >= 32);
            assert(c != '"' && c != '\\');
            assert(sp_str_body(s, i) == Some((t, i + ln + 1)));
        }
    }
}

/// Every character of a decimal text is a digit.
proof fn lemma_dec_text_digits(n: nat)
    ensures
        forall|k: int|
            0 <= k < crate::json::dec_text(n).len() ==> is_digit(
                #[trigger] crate::json::dec_text(n)[k],
            ),
    decreases n,
{
    let dt = crate::json::dec_text(n);
    if n < 10 {
        assert(dt == seq![crate::json::dec_digit(n as int)]);
        assert(is_digit(dt[0]));
    } else {
        lemma_dec_text_digits(n / 10);
        let hd = crate::json::dec_text(n / 10);
        assert(dt == hd + seq![crate::json::dec_digit((n % 10) as int)]);
        assert forall|k: int| 0 <= k < dt.len() implies is_digit(#[trigger] dt[k]) by {
            if k < hd.len() {
                assert(dt[k] == hd[k]);
            } else {
                assert(dt[k] == crate::json::dec_digit((n % 10) as int));
            }
        }
    }
}

/// A number below ten to the `k` has at most `k` digits.
proof fn lemma_dec_text_len(n: nat, k: nat)
    requires
        k >= 1,
        n < pow10(k),
    ensures
        crate::json::dec_text(n).len() <= k,
    decreases k,
{
    if n < 10 {
    } else {
        assert(pow10(k) == 10 * pow10((k - 1) as nat));
        lemma_dec_text_len(n / 10, (k - 1) as nat);
    }
}

/// A run of digits with no digit after it ends exactly where it ends.
proof fn lemma_digits_end_embedded(s: Seq<char>, i: int, e: int)
    requires
        0 <= i <= e <= s.len(),
        forall|k: int| i <= k < e ==> is_digit(#[trigger] s[k]),
        e == s.len() || !is_digit(s[e]),
    ensures
        digits_end(s, i) == e,
    decreases e - i,
{
    if i < e {
        lemma_digits_end_embedded(s, i + 1, e);
    }
}

/// The value of an embedded decimal text is the number it spells.
proof fn lemma_digits_val_embedded(m: nat, s: Seq<char>, i: int)
    requires
        0 <= i,
        i + crate::json::dec_text(m).len() <= s.len(),
        s.subrange(i, i + crate::json::dec_text(m).len()) == crate::json::dec_text(m),
    ensures
        digits_val(s, i, i + crate::json::dec_text(m).len()) == m,
    decreases m,
{
    let dt = crate::json::dec_text(m);
    let ln = dt.len() as int;
    assert forall|k: int| 0 <= k < ln implies s[i + k] == dt[k] by {
        assert(s.subrange(i, i + ln)[k] == s[i + k]);
    }
    if m < 10 {
        assert(dt == seq![crate::json::dec_digit(m as int)]);
        assert(s[i] == dt[0] && dt[0] == crate::json::dec_digit(m as int));
        assert(digits_val(s, i, i + 1) == digits_val(s, i, i) * 10 + (s[i] as u32 - 48));
        assert(crate::json::dec_digit(m as int) as u32 == 48 + m);
    } else {
        let hd = crate::json::dec_text(m / 10);
        assert(dt == hd + seq![crate::json::dec_digit((m % 10) as int)]);
        assert forall|k: int| 0 <= k < hd.len() implies s.subrange(i, i + hd.len() as int)[k]
            == hd[k] by {
            assert(s.subrange(i, i + hd.len() as int)[k] == s[i + k]);
            assert(dt[k] == hd[k]);
        }
        assert(s.subrange(i, i + hd.len() as int) =~= hd);
        lemma_digits_val_embedded(m / 10, s, i);
        assert(s[i + ln - 1] == dt[ln - 1] && dt[ln - 1] == crate::json::dec_digit(
            (m % 10) as int,
        ));
        assert(crate::json::dec_digit((m % 10) as int) as u32 == 48 + m % 10);
        assert(digits_val(s, i, i + ln) == digits_val(s, i, i + ln - 1) * 10 + (s[i + ln
            - 1] as u32 - 48));
        assert(digits_val(s, i, i + ln) == (m / 10) * 10 + m % 10);
    }
}


/// Reading a number token whose decimal text stands at `i`, with no digit
/// after it, gives back exactly the number.
proof fn lemma_parse_number_at(n: i64, s: Seq<char>, i: int)
    requires
        -1000000000000000000 < n < 1000000000000000000,
        0 <= i,
        i + crate::json::int_text(n as int).len() <= s.len(),
        s.subrange(i, i + crate::json::int_text(n as int).len()) == crate::json::int_text(
            n as int,
        ),
        i + crate::json::int_text(n as int).len() == s.len() || !is_digit(
            s[i + crate::json::int_text(n as int).len()],
        ),
    ensures
        sp_number(s, i) == Some((Jv::Int(n), i + crate::json::int_text(n as int).len())),
{
    let it = crate::json::int_text(n as int);
    let ln = it.len() as int;
    assert forall|k: int| 0 <= k < ln implies s[i + k] == it[k] by {
        assert(s.subrange(i, i + ln)[k] == s[i + k]);
    }
    assert(pow10(18) == 1000000000000000000) by {
        reveal_with_fuel(pow10, 20);
    }
    if n >= 0 {
        let m = n as nat;
        let dt = crate::json::dec_text(m);
        assert(it == dt);
        lemma_dec_text_digits(m);
        assert(dt.len() >= 1) by {
            if m >= 10 {
                assert(dt == crate::json::dec_text(m / 10) + seq![crate::json::dec_digit(
                    (m % 10) as int,
                )]);
            }
        }
        assert(s[i] == dt[0]);
        assert(is_digit(dt[0]));
        assert(s[i] != '-');
        assert forall|k: int| i <= k < i + ln implies is_digit(#[trigger] s[k]) by {
            assert(s[k] == it[k - i]);
        }
        lemma_digits_end_embedded(s, i, i + ln);
        lemma_dec_text_len(m, 18);
        lemma_digits_val_embedded(m, s, i);
    } else {
        let m = (-n) as nat;
        let dt = crate::json::dec_text(m);
        assert(it == seq!['-'] + dt);
        assert(s[i] == it[0] && it[0] == '-');
        lemma_dec_text_digits(m);
        assert(dt.len() >= 1) by {
            if m >= 10 {
                assert(dt == crate::json::dec_text(m / 10) + seq![crate::json::dec_digit(
                    (m % 10) as int,
                )]);
            }
        }
        assert forall|k: int| 0 <= k < dt.len() implies s.subrange(
            i + 1,
            i + ln,
        )[k] == dt[k] by {
            assert(s.subrange(i + 1, i + ln)[k] == s[i + 1 + k]);
            assert(it[1 + k] == dt[k]);
        }
        assert(s.subrange(i + 1, i + ln) =~= dt);
        assert forall|k: int| i + 1 <= k < i + ln implies is_digit(#[trigger] s[k]) by {
            assert(s[k] == it[k - i]);
            assert(it[k - i] == dt[k - i - 1]);
        }
        lemma_digits_end_embedded(s, i + 1, i + ln);
        lemma_dec_text_len(m, 18);
        lemma_digits_val_embedded(m, s, i + 1);
        assert(digits_val(s, i + 1, i + 1 + dt.len()) == m);
    }
}

/// A value the grammar can read back from its own text: numbers within
/// the grammar's eighteen digits, and strings (keys included) without the
/// bare control characters that only a `\u` escape could carry.
pub open spec fn wf_jv(v: Jv) -> bool
    decreases v,
{
    match v {
        Jv::Null => true,
        Jv::Bool(_) => true,
        Jv::Int(n) => -1000000000000000000 < n < 1000000000000000000,
        Jv::Str(t) => text_safe(t),
        Jv::Arr(items) => forall|k: int| 0 <= k < items.len() ==> wf_jv(#[trigger] items[k]),
        Jv::Obj(ms) => forall|k: int|
            0 <= k < ms.len() ==> text_safe((#[trigger] ms[k]).0) && wf_jv(ms[k].1),
    }
}

/// The text of a value is never empty, and its first character is the
/// value's opening token: never whitespace, never a delimiter.
proof fn lemma_json_text_head(v: Jv)
    ensures
        crate::json::json_text(v).len() >= 1,
        ({
            let h = crate::json::json_text(v)[0];
            h == 'n' || h == 't' || h == 'f' || h == '"' || h == '-' || is_digit(h) || h == '['
                || h == '{'
        }),
{
    let s = crate::json::json_text(v);
    match v {
        Jv::Null => {
            assert(s[0] == 'n');
        },
        Jv::Bool(b) => {
            if b {
                assert(s[0] == 't');
            } else {
                assert(s[0] == 'f');
            }
        },
        Jv::Int(n) => {
            if n < 0 {
                let dt = crate::json::dec_text((-n) as nat);
                assert(s == seq!['-'] + dt);
                assert(s[0] == '-');
            } else {
                let m = n as nat;
                let dt = crate::json::dec_text(m);
                assert(s == dt);
                lemma_dec_text_digits(m);
                assert(dt.len() >= 1) by {
                    if m >= 10 {
                        assert(dt == crate::json::dec_text(m / 10) + seq![
                            crate::json::dec_digit((m % 10) as int),
                        ]);
                    }
                }
                assert(is_digit(dt[0]));
            }
        },
        Jv::Str(t) => {
            assert(s == seq!['"'] + crate::json::esc_text(t) + seq!['"']);
            assert(s[0] == '"');
        },
        Jv::Arr(items) => {
            assert(s == seq!['['] + crate::json::arr_text(items) + seq![']']);
            assert(s[0] == '[');
        },
        Jv::Obj(ms) => {
            assert(s == seq!['{'] + crate::json::obj_text(ms) + seq!['}']);
            assert(s[0] == '{');
        },
    }
}


/// Reading a value whose text stands at `i` gives back exactly that value
/// and stops exactly after it. A number must not be followed directly by
/// another digit; everything else is self-delimiting.
proof fn lemma_parse_value_at(v: Jv, s: Seq<char>, i: int)
    requires
        wf_jv(v),
        0 <= i,
        i + crate::json::json_text(v).len() <= s.len(),
        s.subrange(i, i + crate::json::json_text(v).len()) == crate::json::json_text(v),
        v is Int ==> (i + crate::json::json_text(v).len() == s.len() || !is_digit(
            s[i + crate::json::json_text(v).len()],
        )),
    ensures
        sp_value(s, i) == Some((v, i + crate::json::json_text(v).len())),
    decreases v, 0nat,
{
    let t = crate::json::json_text(v);
    let ln = t.len() as int;
    lemma_json_text_head(v);
    assert forall|k: int| 0 <= k < ln implies s[i + k] == t[k] by {
        assert(s.subrange(i, i + ln)[k] == s[i + k]);
    }
    assert(s[i] == t[0]);
    match v {
        Jv::Null => {
            assert(t == seq!['n', 'u', 'l', 'l']);
            assert(s.subrange(i, i + 4) =~= seq!['n', 'u', 'l', 'l']);
            assert(sp_value(s, i) == Some((Jv::Null, i + 4)));
        },
        Jv::Bool(b) => {
            if b {
                assert(t == seq!['t', 'r', 'u', 'e']);
                assert(s.subrange(i, i + 4) =~= seq!['t', 'r', 'u', 'e']);
                assert(sp_value(s, i) == Some((Jv::Bool(true), i + 4)));
            } else {
                assert(t == seq!['f', 'a', 'l', 's', 'e']);
                assert(s.subrange(i, i + 5) =~= seq!['f', 'a', 'l', 's', 'e']);
                assert(sp_value(s, i) == Some((Jv::Bool(false), i + 5)));
            }
        },
        Jv::Int(n) => {
            assert(t == crate::json::int_text(n as int));
            lemma_parse_number_at(n, s, i);
            assert(t[0] == '-' || is_digit(t[0]));
            assert(sp_value(s, i) == Some((Jv::Int(n), i + ln)));
        },
        Jv::Str(st) => {
            let et = crate::json::esc_text(st);
            let el = et.len() as int;
            assert(t == seq!['"'] + et + seq!['"']);
            assert(s[i] == '"');
            assert forall|k: int| 0 <= k < el implies s.subrange(i + 1, i + 1 + el)[k]
                == et[k] by {
                assert(s.subrange(i + 1, i + 1 + el)[k] == s[i + 1 + k]);
                assert(t[1 + k] == et[k]);
            }
            assert(s.subrange(i + 1, i + 1 + el) =~= et);
            assert(s[i + 1 + el] == t[1 + el] && t[1 + el] == '"');
            lemma_parse_str_body_at(st, s, i + 1);
            assert(sp_value(s, i) == Some((Jv::Str(st), i + ln)));
        },
        Jv::Arr(items) => {
            let at = crate::json::arr_text(items);
            let al = at.len() as int;
            assert(t == seq!['['] + at + seq![']']);
            assert(s[i] == '[');
            assert(ln == al + 2);
            if items.len() == 0 {
                assert(at =~= Seq::<char>::empty());
                assert(s[i + 1] == t[1] && t[1] == ']');
                assert(!is_ws(s[i + 1]));
                assert(sp_ws(s, i + 1) == i + 1);
                assert(items =~= Seq::<Jv>::empty());
                assert(sp_value(s, i) == Some((Jv::Arr(items), i + 2)));
            } else {
                lemma_json_text_head(items[0]);
                let t0 = crate::json::json_text(items[0]);
                assert(at == t0 + crate::json::arr_rest_text(items.drop_first()));
                assert(at[0] == t0[0]);
                assert(s[i + 1] == t[1] && t[1] == at[0]);
                assert(!is_ws(s[i + 1]));
                assert(sp_ws(s, i + 1) == i + 1);
                assert(s[i + 1] != ']');
                assert forall|k: int| 0 <= k < al implies s.subrange(i + 1, i + 1 + al)[k]
                    == at[k] by {
                    assert(s.subrange(i + 1, i + 1 + al)[k] == s[i + 1 + k]);
                    assert(t[1 + k] == at[k]);
                }
                assert(s.subrange(i + 1, i + 1 + al) =~= at);
                assert(s[i + 1 + al] == t[1 + al] && t[1 + al] == ']');
                lemma_parse_arr_items_at(items, s, i + 1);
                assert(sp_value(s, i) == Some((Jv::Arr(items), i + ln)));
            }
        },
        Jv::Obj(ms) => {
            let ot = crate::json::obj_text(ms);
            let ol = ot.len() as int;
            assert(t == seq!['{'] + ot + seq!['}']);
            assert(s[i] == '{');
            assert(ln == ol + 2);
            if ms.len() == 0 {
                assert(ot =~= Seq::<char>::empty());
                assert(s[i + 1] == t[1] && t[1] == '}');
                assert(!is_ws(s[i + 1]));
                assert(sp_ws(s, i + 1) == i + 1);
                assert(ms =~= Seq::<(Seq<char>, Jv)>::empty());
                assert(sp_value(s, i) == Some((Jv::Obj(ms), i + 2)));
            } else {
                let kt = crate::json::str_text(ms[0].0);
                assert(ot == kt + seq![':'] + crate::json::json_text(ms[0].1)
                    + crate::json::obj_rest_text(ms.drop_first()));
                assert(kt == seq!['"'] + crate::json::esc_text(ms[0].0) + seq!['"']);
                assert(ot[0] == kt[0] && kt[0] == '"');
                assert(s[i + 1] == t[1] && t[1] == ot[0]);
                assert(!is_ws(s[i + 1]));
                assert(sp_ws(s, i + 1) == i + 1);
                assert(s[i + 1] != '}');
                assert forall|k: int| 0 <= k < ol implies s.subrange(i + 1, i + 1 + ol)[k]
                    == ot[k] by {
                    assert(s.subrange(i + 1, i + 1 + ol)[k] == s[i + 1 + k]);
                    assert(t[1 + k] == ot[k]);
                }
                assert(s.subrange(i + 1, i + 1 + ol) =~= ot);
                assert(s[i + 1 + ol] == t[1 + ol] && t[1 + ol] == '}');
                lemma_parse_obj_items_at(ms, s, i + 1);
                assert(sp_value(s, i) == Some((Jv::Obj(ms), i + ln)));
            }
        },
    }
}

/// Reading comma-separated items whose text stands at `i`, with the
/// closing bracket right after, gives back exactly those items.
proof fn lemma_parse_arr_items_at(items: Seq<Jv>, s: Seq<char>, i: int)
    requires
        items.len() >= 1,
        forall|k: int| 0 <= k < items.len() ==> wf_jv(#[trigger] items[k]),
        0 <= i,
        i + crate::json::arr_text(items).len() < s.len(),
        s.subrange(i, i + crate::json::arr_text(items).len()) == crate::json::arr_text(items),
        s[i + crate::json::arr_text(items).len()] == ']',
    ensures
        sp_arr_items(s, i) == Some((items, i + crate::json::arr_text(items).len())),
    decreases items, 1nat,
{
    let at = crate::json::arr_text(items);
    let al = at.len() as int;
    assert forall|k: int| 0 <= k < al implies s[i + k] == at[k] by {
        assert(s.subrange(i, i + al)[k] == s[i + k]);
    }
    let v0 = items[0];
    let t0 = crate::json::json_text(v0);
    let l0 = t0.len() as int;
    let tail = items.drop_first();
    let rest = crate::json::arr_rest_text(tail);
    assert(at == t0 + rest);
    assert(wf_jv(v0));
    lemma_json_text_head(v0);
    assert forall|k: int| 0 <= k < l0 implies s.subrange(i, i + l0)[k] == t0[k] by {
        assert(s.subrange(i, i + l0)[k] == s[i + k]);
        assert(at[k] == t0[k]);
    }
    assert(s.subrange(i, i + l0) =~= t0);
    if tail.len() == 0 {
        assert(rest =~= Seq::<char>::empty());
        assert(al == l0);
        assert(!is_digit(']'));
        lemma_parse_value_at(v0, s, i);
        let j = i + l0;
        assert(s[j] == ']');
        assert(!is_ws(s[j]));
        assert(sp_ws(s, j) == j);
        assert(s[j] != ',');
        assert(seq![v0] =~= items);
        assert(sp_arr_items(s, i) == Some((items, i + al)));
    } else {
        let t1 = crate::json::json_text(tail[0]);
        assert(rest == seq![','] + t1 + crate::json::arr_rest_text(tail.drop_first()));
        assert(s[i + l0] == at[l0] && at[l0] == rest[0] && rest[0] == ',');
        assert(!is_digit(','));
        lemma_parse_value_at(v0, s, i);
        let j = i + l0;
        assert(s[j] == ',');
        assert(!is_ws(s[j]));
        assert(sp_ws(s, j) == j);
        let at1 = crate::json::arr_text(tail);
        assert(at1 == t1 + crate::json::arr_rest_text(tail.drop_first()));
        assert(rest =~= seq![','] + at1);
        let al1 = at1.len() as int;
        assert(al == l0 + 1 + al1);
        lemma_json_text_head(tail[0]);
        assert(s[j + 1] == at[l0 + 1] && at[l0 + 1] == rest[1] && rest[1] == at1[0] && at1[0]
            == t1[0]);
        assert(!is_ws(s[j + 1]));
        assert(sp_ws(s, j + 1) == j + 1);
        let m = j + 1;
        assert forall|k: int| 0 <= k < al1 implies s.subrange(m, m + al1)[k] == at1[k] by {
            assert(s.subrange(m, m + al1)[k] == s[m + k]);
            assert(at[l0 + 1 + k] == rest[1 + k] && rest[1 + k] == at1[k]);
        }
        assert(s.subrange(m, m + al1) =~= at1);
        assert(s[m + al1] == s[i + al]);
        assert forall|k: int| 0 <= k < tail.len() implies wf_jv(#[trigger] tail[k]) by {
            assert(tail[k] == items[k + 1]);
        }
        lemma_parse_arr_items_at(tail, s, m);
        assert(seq![v0] + tail =~= items);
        assert(sp_arr_items(s, i) == Some((items, i + al)));
    }
}

/// Reading comma-separated members whose text stands at `i`, with the
/// closing brace right after, gives back exactly those members.
proof fn lemma_parse_obj_items_at(ms: Seq<(Seq<char>, Jv)>, s: Seq<char>, i: int)
    requires
        ms.len() >= 1,
        forall|k: int| 0 <= k < ms.len() ==> text_safe((#[trigger] ms[k]).0) && wf_jv(ms[k].1),
        0 <= i,
        i + crate::json::obj_text(ms).len() < s.len(),
        s.subrange(i, i + crate::json::obj_text(ms).len()) == crate::json::obj_text(ms),
        s[i + crate::json::obj_text(ms).len()] == '}',
    ensures
        sp_obj_items(s, i) == Some((ms, i + crate::json::obj_text(ms).len())),
    decreases ms, 1nat,
{
    let ot = crate::json::obj_text(ms);
    let ol = ot.len() as int;
    assert forall|k: int| 0 <= k < ol implies s[i + k] == ot[k] by {
        assert(s.subrange(i, i + ol)[k] == s[i + k]);
    }
    let key = ms[0].0;
    let v0 = ms[0].1;
    assert(text_safe(key) && wf_jv(v0));
    let kt = crate::json::str_text(key);
    let kl = kt.len() as int;
    let t0 = crate::json::json_text(v0);
    let l0 = t0.len() as int;
    let tail = ms.drop_first();
    let rest = crate::json::obj_rest_text(tail);
    assert(ot == kt + seq![':'] + t0 + rest);
    let et = crate::json::esc_text(key);
    let el = et.len() as int;
    assert(kt == seq!['"'] + et + seq!['"']);
    assert(kl == el + 2);
    assert(s[i] == ot[0] && ot[0] == kt[0] && kt[0] == '"');
    assert forall|k: int| 0 <= k < el implies s.subrange(i + 1, i + 1 + el)[k] == et[k] by {
        assert(s.subrange(i + 1, i + 1 + el)[k] == s[i + 1 + k]);
        assert(ot[1 + k] == kt[1 + k] && kt[1 + k] == et[k]);
    }
    assert(s.subrange(i + 1, i + 1 + el) =~= et);
    assert(s[i + 1 + el] == ot[1 + el] && ot[1 + el] == kt[1 + el] && kt[1 + el] == '"');
    lemma_parse_str_body_at(key, s, i + 1);
    let j = i + kl;
    assert(sp_str_body(s, i + 1) == Some((key, j)));
    assert(s[j] == ot[kl] && ot[kl] == ':');
    assert(!is_ws(s[j]));
    assert(sp_ws(s, j) == j);
    lemma_json_text_head(v0);
    let m = j + 1;
    assert(s[m] == ot[kl + 1] && ot[kl + 1] == t0[0]);
    assert(!is_ws(s[m]));
    assert(sp_ws(s, m) == m);
    assert forall|k: int| 0 <= k < l0 implies s.subrange(m, m + l0)[k] == t0[k] by {
        assert(s.subrange(m, m + l0)[k] == s[m + k]);
        assert(ot[kl + 1 + k] == t0[k]);
    }
    assert(s.subrange(m, m + l0) =~= t0);
    let e = m + l0;
    if tail.len() == 0 {
        assert(rest =~= Seq::<char>::empty());
        assert(ol == kl + 1 + l0);
        assert(s[e] == '}');
        assert(!is_digit('}'));
        lemma_parse_value_at(v0, s, m);
        assert(!is_ws(s[e]));
        assert(sp_ws(s, e) == e);
        assert(s[e] != ',');
        assert(ms[0] == (key, v0));
        assert(seq![(key, v0)] =~= ms);
        assert(sp_obj_items(s, i) == Some((ms, i + ol)));
    } else {
        let kt1 = crate::json::str_text(tail[0].0);
        let ot1 = crate::json::obj_text(tail);
        assert(rest == seq![','] + kt1 + seq![':'] + crate::json::json_text(tail[0].1)
            + crate::json::obj_rest_text(tail.drop_first()));
        assert(ot1 == kt1 + seq![':'] + crate::json::json_text(tail[0].1)
            + crate::json::obj_rest_text(tail.drop_first()));
        assert(rest =~= seq![','] + ot1);
        assert(s[e] == ot[kl + 1 + l0] && ot[kl + 1 + l0] == rest[0] && rest[0] == ',');
        assert(!is_digit(','));
        lemma_parse_value_at(v0, s, m);
        assert(!is_ws(s[e]));
        assert(sp_ws(s, e) == e);
        let ol1 = ot1.len() as int;
        assert(ol == kl + 1 + l0 + 1 + ol1);
        assert(kt1 == seq!['"'] + crate::json::esc_text(tail[0].0) + seq!['"']);
        assert(ot1[0] == kt1[0] && kt1[0] == '"');
        let x = e + 1;
        assert(s[x] == ot[kl + 1 + l0 + 1] && ot[kl + 1 + l0 + 1] == rest[1] && rest[1]
            == ot1[0]);
        assert(!is_ws(s[x]));
        assert(sp_ws(s, x) == x);
        assert forall|k: int| 0 <= k < ol1 implies s.subrange(x, x + ol1)[k] == ot1[k] by {
            assert(s.subrange(x, x + ol1)[k] == s[x + k]);
            assert(ot[kl + 1 + l0 + 1 + k] == rest[1 + k] && rest[1 + k] == ot1[k]);
        }
        assert(s.subrange(x, x + ol1) =~= ot1);
        assert(s[x + ol1] == s[i + ol]);
        assert forall|k: int| 0 <= k < tail.len() implies text_safe((#[trigger] tail[k]).0)
            && wf_jv(tail[k].1) by {
            assert(tail[k] == ms[k + 1]);
        }
        lemma_parse_obj_items_at(tail, s, x);
        assert(ms[0] == (key, v0));
        assert(seq![(key, v0)] + tail =~= ms);
        assert(sp_obj_items(s, i) == Some((ms, i + ol)));
    }
}

/// Parsing the serializer's text gives back exactly the value: round-trip
/// fidelity at the text level, for every value the grammar can carry.
pub proof fn lemma_encode_parse_round_trip(v: Jv)
    requires
        wf_jv(v),
    ensures
        sp_json(crate::json::json_text(v)) == Some(v),
{
    let s = crate::json::json_text(v);
    let ln = s.len() as int;
    lemma_json_text_head(v);
    assert(!is_ws(s[0]));
    assert(sp_ws(s, 0) == 0);
    assert(s.subrange(0, ln) =~= s);
    lemma_parse_value_at(v, s, 0);
    assert(sp_ws(s, ln) == ln);
}

} // verus!
