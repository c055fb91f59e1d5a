//! The JSON values that requests carry and responses are decoded from,
//! with a serializer and a parser of the crate's own, each verified against
//! a mathematical description of the text.
//!
//! Numbers are modeled as integers (the API's identifiers and counts), and
//! string escapes cover the short forms (`\"`, `\\`, `\/`, `\b`, `\f`,
//! `\n`, `\r`, `\t`); `\u` escapes are not accepted.

use vstd::prelude::*;
use vstd::string::*;

verus! {

/// A JSON value at the specification level: strings and sequences in place
/// of their executable counterparts.
pub enum Jv {
    Null,
    Bool(bool),
    Int(i64),
    Str(Seq<char>),
    Arr(Seq<Jv>),
    Obj(Seq<(Seq<char>, Jv)>),
}

/// A JSON value.
#[derive(Debug)]
pub enum Json {
    Null,
    Bool(bool),
    Int(i64),
    Str(String),
    Arr(Vec<Json>),
    Obj(Vec<(String, Json)>),
}

/// What a [`Json`] value denotes.
pub open spec fn jv(j: Json) -> Jv
    decreases j, 0nat,
{
    match j {
        Json::Null => Jv::Null,
        Json::Bool(b) => Jv::Bool(b),
        Json::Int(n) => Jv::Int(n),
        Json::Str(s) => Jv::Str(s@),
        Json::Arr(v) => Jv::Arr(jv_seq(v@)),
        Json::Obj(v) => Jv::Obj(jv_members(v@)),
    }
}

/// What each item of a sequence denotes.
pub open spec fn jv_seq(s: Seq<Json>) -> Seq<Jv>
    decreases s, 1nat,
{
    if s.len() == 0 {
        Seq::empty()
    } else {
        seq![jv(s[0])] + jv_seq(s.drop_first())
    }
}

/// What each member of an object's pair list denotes.
pub open spec fn jv_members(s: Seq<(String, Json)>) -> Seq<(Seq<char>, Jv)>
    decreases s, 1nat,
{
    if s.len() == 0 {
        Seq::empty()
    } else {
        seq![(s[0].0@, jv(s[0].1))] + jv_members(s.drop_first())
    }
}

/// `jv_seq` element by element.
pub proof fn lemma_jv_seq(s: Seq<Json>)
    ensures
        jv_seq(s).len() == s.len(),
        forall|i: int| 0 <= i < s.len() ==> jv_seq(s)[i] == jv(s[i]),
    decreases s.len(),
{
    if s.len() > 0 {
        lemma_jv_seq(s.drop_first());
        assert forall|i: int| 0 <= i < s.len() implies jv_seq(s)[i] == jv(s[i]) by {
            if i > 0 {
                assert(jv_seq(s)[i] == jv_seq(s.drop_first())[i - 1]);
                assert(s.drop_first()[i - 1] == s[i]);
            }
        }
    }
}

/// `jv_members` member by member.
pub proof fn lemma_jv_members(s: Seq<(String, Json)>)
    ensures
        jv_members(s).len() == s.len(),
        forall|i: int|
            0 <= i < s.len() ==> jv_members(s)[i] == (s[i].0@, jv(s[i].1)),
    decreases s.len(),
{
    if s.len() > 0 {
        lemma_jv_members(s.drop_first());
        assert forall|i: int|
            0 <= i < s.len() implies jv_members(s)[i] == (s[i].0@, jv(s[i].1)) by {
            if i > 0 {
                assert(jv_members(s)[i] == jv_members(s.drop_first())[i - 1]);
                assert(s.drop_first()[i - 1] == s[i]);
            }
        }
    }
}

impl View for Json {
    type V = Jv;

    open spec fn view(&self) -> Jv {
        jv(*self)
    }
}

/// The decimal digit `n` stands for, for `0 <= n <= 9`.
pub open spec fn dec_digit(n: int) -> char {
    ((48 + n) as u8) as char
}

/// The lower-case hexadecimal digit `n` stands for, for `0 <= n <= 15`.
pub open spec fn hex_digit(n: int) -> char {
    if n < 10 {
        ((48 + n) as u8) as char
    } else {
        ((87 + n) as u8) as char
    }
}

/// The decimal digits of `n`, most significant first.
pub open spec fn dec_text(n: nat) -> Seq<char>
    decreases n,
{
    if n < 10 {
        seq![dec_digit(n as int)]
    } else {
        dec_text(n / 10) + seq![dec_digit((n % 10) as int)]
    }
}

/// The decimal text of an integer: a minus sign and the digits of the
/// magnitude.
pub open spec fn int_text(n: int) -> Seq<char> {
    if n < 0 {
        seq!['-'] + dec_text((-n) as nat)
    } else {
        dec_text(n as nat)
    }
}

/// How one character appears inside a JSON string: itself, unless it must
/// be escaped.
pub open spec fn esc_char(c: char) -> Seq<char> {
    if c == '"' {
        seq!['\\', '"']
    } else if c == '\\' {
        seq!['\\', '\\']
    } else if c == '\u{8}' {
        seq!['\\', 'b']
    } else if c == '\u{9}' {
        seq!['\\', 't']
    } else if c == '\u{a}' {
        seq!['\\', 'n']
    } else if c == '\u{c}' {
        seq!['\\', 'f']
    } else if c == '\u{d}' {
        seq!['\\', 'r']
    } else if (c as u32) < 32 {
        seq!['\\', 'u', '0', '0', hex_digit((c as u32 / 16) as int), hex_digit(
            (c as u32 % 16) as int,
        )]
    } else {
        seq![c]
    }
}

/// The body of a JSON string: each character escaped as needed.
pub open spec fn esc_text(s: Seq<char>) -> Seq<char>
    decreases s.len(),
{
    if s.len() == 0 {
        Seq::empty()
    } else {
        esc_char(s[0]) + esc_text(s.drop_first())
    }
}

/// A JSON string: the escaped body between double quotes.
pub open spec fn str_text(s: Seq<char>) -> Seq<char> {
    seq!['"'] + esc_text(s) + seq!['"']
}

/// The text of a JSON value, exactly as the serializer emits it: no spaces,
/// object members in the order held.
pub open spec fn json_text(v: Jv) -> Seq<char>
    decreases v, 0nat,
{
    match v {
        Jv::Null => seq!['n', 'u', 'l', 'l'],
        Jv::Bool(b) => if b {
            seq!['t', 'r', 'u', 'e']
        } else {
            seq!['f', 'a', 'l', 's', 'e']
        },
        Jv::Int(n) => int_text(n as int),
        Jv::Str(s) => str_text(s),
        Jv::Arr(items) => seq!['['] + arr_text(items) + seq![']'],
        Jv::Obj(members) => seq!['{'] + obj_text(members) + seq!['}'],
    }
}

/// The comma-separated texts of an array's items.
pub open spec fn arr_text(items: Seq<Jv>) -> Seq<char>
    decreases items, 1nat,
{
    if items.len() == 0 {
        Seq::empty()
    } else {
        json_text(items[0]) + arr_rest_text(items.drop_first())
    }
}

/// The items after the first: each preceded by a comma.
pub open spec fn arr_rest_text(items: Seq<Jv>) -> Seq<char>
    decreases items, 2nat,
{
    if items.len() == 0 {
        Seq::empty()
    } else {
        seq![','] + json_text(items[0]) + arr_rest_text(items.drop_first())
    }
}

/// The comma-separated `"key":value` texts of an object's members.
pub open spec fn obj_text(members: Seq<(Seq<char>, Jv)>) -> Seq<char>
    decreases members, 1nat,
{
    if members.len() == 0 {
        Seq::empty()
    } else {
        str_text(members[0].0) + seq![':'] + json_text(members[0].1) + obj_rest_text(
            members.drop_first(),
        )
    }
}

/// The members after the first: each preceded by a comma.
pub open spec fn obj_rest_text(members: Seq<(Seq<char>, Jv)>) -> Seq<char>
    decreases members, 2nat,
{
    if members.len() == 0 {
        Seq::empty()
    } else {
        seq![','] + str_text(members[0].0) + seq![':'] + json_text(members[0].1) + obj_rest_text(
            members.drop_first(),
        )
    }
}

/// Relies on `String::push` of std: appends exactly the one character.
#[verifier::external_body]
pub fn push_char(s: &mut String, c: char)
    ensures
        final(s)@ == old(s)@ + seq![c],
{
    s.push(c);
}

/// The character of a decimal digit.
fn dec_digit_char(d: u64) -> (c: char)
    requires
        d < 10,
    ensures
        c == dec_digit(d as int),
{
    ((48 + d as u8)) as char
}

/// The character of a lower-case hexadecimal digit.
fn hex_digit_char(d: u32) -> (c: char)
    requires
        d < 16,
    ensures
        c == hex_digit(d as int),
{
    if d < 10 {
        ((48 + d as u8)) as char
    } else {
        ((87 + d as u8)) as char
    }
}

/// Append the decimal digits of `n`.
pub fn write_dec(n: u64, out: &mut String)
    ensures
        final(out)@ == old(out)@ + dec_text(n as nat),
    decreases n,
{
    if n < 10 {
        push_char(out, dec_digit_char(n));
    } else {
        write_dec(n / 10, out);
        push_char(out, dec_digit_char(n % 10));
        proof {
            assert(final(out)@ == old(out)@ + dec_text((n / 10) as nat) + seq![dec_digit(
                (n % 10) as int,
            )]);
            assert(old(out)@ + dec_text(n as nat) == old(out)@ + (dec_text((n / 10) as nat)
                + seq![dec_digit((n % 10) as int)]));
            assert(final(out)@ =~= old(out)@ + dec_text(n as nat));
        }
    }
}

/// Append the decimal text of `n`, sign included.
fn write_int(n: i64, out: &mut String)
    ensures
        final(out)@ == old(out)@ + int_text(n as int),
{
    if n >= 0 {
        write_dec(n as u64, out);
    } else {
        push_char(out, '-');
        let mag: u64 = if n == i64::MIN {
            9223372036854775808u64
        } else {
            (-n) as u64
        };
        assert(mag == -(n as int));
        write_dec(mag, out);
        proof {
            assert(final(out)@ =~= old(out)@ + int_text(n as int));
        }
    }
}

/// Append one string-body character, escaped as needed.
fn write_esc_char(c: char, out: &mut String)
    ensures
        final(out)@ == old(out)@ + esc_char(c),
{
    if c == '"' {
        push_char(out, '\\');
        push_char(out, '"');
        assert(final(out)@ =~= old(out)@ + esc_char(c));
    } else if c == '\\' {
        push_char(out, '\\');
        push_char(out, '\\');
        assert(final(out)@ =~= old(out)@ + esc_char(c));
    } else if c == '\u{8}' {
        push_char(out, '\\');
        push_char(out, 'b');
        assert(final(out)@ =~= old(out)@ + esc_char(c));
    } else if c == '\u{9}' {
        push_char(out, '\\');
        push_char(out, 't');
        assert(final(out)@ =~= old(out)@ + esc_char(c));
    } else if c == '\u{a}' {
        push_char(out, '\\');
        push_char(out, 'n');
        assert(final(out)@ =~= old(out)@ + esc_char(c));
    } else if c == '\u{c}' {
        push_char(out, '\\');
        push_char(out, 'f');
        assert(final(out)@ =~= old(out)@ + esc_char(c));
    } else if (c as u32) < 32 {
        push_char(out, '\\');
        if c == '\u{d}' {
            push_char(out, 'r');
            assert(final(out)@ =~= old(out)@ + esc_char(c));
        } else {
            push_char(out, 'u');
            push_char(out, '0');
            push_char(out, '0');
            push_char(out, hex_digit_char((c as u32) / 16));
            push_char(out, hex_digit_char((c as u32) % 16));
            assert(final(out)@ =~= old(out)@ + esc_char(c));
        }
    } else {
        push_char(out, c);
        assert(final(out)@ =~= old(out)@ + esc_char(c));
    }
}

/// Append a JSON string: quotes around the escaped characters of `s`.
#[verifier::loop_isolation(false)]
fn write_str(s: &str, out: &mut String)
    ensures
        final(out)@ == old(out)@ + str_text(s@),
{
    let ghost start = out@;
    push_char(out, '"');
    let n = s.unicode_len();
    let mut i: usize = 0;
    proof {
        assert(s@.skip(0) =~= s@);
        assert(out@ + esc_text(s@.skip(0)) =~= start + seq!['"'] + esc_text(s@));
    }
    while i < n
        invariant
            i <= n,
            n == s@.len(),
            out@ + esc_text(s@.skip(i as int)) == start + seq!['"'] + esc_text(s@),
        decreases n - i,
    {
        let c = s.get_char(i);
        write_esc_char(c, out);
        proof {
            assert(s@.skip(i as int)[0] == c);
            assert(s@.skip(i as int).drop_first() =~= s@.skip(i as int + 1));
            assert(esc_text(s@.skip(i as int)) == esc_char(c) + esc_text(s@.skip(i as int + 1)));
            assert(out@ + esc_text(s@.skip(i as int + 1)) =~= start + seq!['"'] + esc_text(s@));
        }
        i += 1;
    }
    proof {
        assert(s@.skip(n as int) =~= Seq::<char>::empty());
        assert(esc_text(Seq::<char>::empty()) == Seq::<char>::empty());
        assert(out@ =~= start + seq!['"'] + esc_text(s@));
    }
    push_char(out, '"');
    proof {
        assert(final(out)@ =~= old(out)@ + str_text(s@));
    }
}

/// Append the text of `j`.
#[verifier::loop_isolation(false)]
#[verifier::rlimit(60)]
pub fn write_json(j: &Json, out: &mut String)
    ensures
        final(out)@ == old(out)@ + json_text(j@),
    decreases *j,
{
    match j {
        Json::Null => {
            push_char(out, 'n');
            push_char(out, 'u');
            push_char(out, 'l');
            push_char(out, 'l');
            assert(final(out)@ =~= old(out)@ + json_text(jv(*j)));
        },
        Json::Bool(b) => {
            if *b {
                push_char(out, 't');
                push_char(out, 'r');
                push_char(out, 'u');
                push_char(out, 'e');
            } else {
                push_char(out, 'f');
                push_char(out, 'a');
                push_char(out, 'l');
                push_char(out, 's');
                push_char(out, 'e');
            }
            assert(final(out)@ =~= old(out)@ + json_text(jv(*j)));
        },
        Json::Int(n) => {
            write_int(*n, out);
        },
        Json::Str(s) => {
            write_str(s.as_str(), out);
        },
        Json::Arr(items) => {
            let ghost iv = jv_seq(items@);
            proof {
                lemma_jv_seq(items@);
                assert(json_text(jv(*j)) == seq!['['] + arr_text(iv) + seq![']']);
            }
            let ghost start = out@;
            push_char(out, '[');
            let n = items.len();
            if n > 0 {
                write_json(&items[0], out);
                proof {
                    assert(jv(items@[0]) == iv[0]);
                    assert(out@ + arr_rest_text(iv.skip(1)) =~= start + seq!['['] + arr_text(iv))
                        by {
                        assert(iv.drop_first() =~= iv.skip(1));
                        assert(arr_text(iv) == json_text(iv[0]) + arr_rest_text(iv.skip(1)));
                    }
                }
                let mut i: usize = 1;
                while i < n
                    invariant
                        1 <= i <= n,
                        out@ + arr_rest_text(iv.skip(i as int)) == start + seq!['['] + arr_text(
                            iv,
                        ),
                    decreases n - i,
                {
                    push_char(out, ',');
                    write_json(&items[i], out);
                    proof {
                        assert(iv.skip(i as int)[0] == iv[i as int]);
                        assert(iv.skip(i as int).drop_first() =~= iv.skip(i as int + 1));
                        assert(arr_rest_text(iv.skip(i as int)) == seq![','] + json_text(
                            iv[i as int],
                        ) + arr_rest_text(iv.skip(i as int + 1)));
                        assert(out@ + arr_rest_text(iv.skip(i as int + 1)) =~= start + seq!['[']
                            + arr_text(iv));
                    }
                    i += 1;
                }
                proof {
                    assert(iv.skip(n as int) =~= Seq::<Jv>::empty());
                    assert(arr_rest_text(Seq::<Jv>::empty()) == Seq::<char>::empty());
                    assert(out@ =~= start + seq!['['] + arr_text(iv));
                }
            } else {
                proof {
                    assert(iv =~= Seq::<Jv>::empty());
                    assert(arr_text(iv) == Seq::<char>::empty());
                    assert(out@ =~= start + seq!['['] + arr_text(iv));
                }
            }
            push_char(out, ']');
            proof {
                assert(final(out)@ =~= old(out)@ + json_text(jv(*j)));
            }
        },
        Json::Obj(members) => {
            let ghost mv = jv_members(members@);
            proof {
                lemma_jv_members(members@);
                assert(json_text(jv(*j)) == seq!['{'] + obj_text(mv) + seq!['}']);
            }
            let ghost start = out@;
            push_char(out, '{');
            let n = members.len();
            if n > 0 {
                {
                    let m = &members[0];
                    write_str(m.0.as_str(), out);
                    push_char(out, ':');
                    write_json(&m.1, out);
                }
                proof {
                    assert(mv[0] == (members@[0].0@, jv(members@[0].1)));
                    assert(out@ + obj_rest_text(mv.skip(1)) =~= start + seq!['{'] + obj_text(mv))
                        by {
                        assert(mv.drop_first() =~= mv.skip(1));
                        assert(obj_text(mv) == str_text(mv[0].0) + seq![':'] + json_text(mv[0].1)
                            + obj_rest_text(mv.skip(1)));
                        assert(out@ =~= start + seq!['{'] + str_text(mv[0].0) + seq![':']
                            + json_text(mv[0].1));
                    }
                }
                let mut i: usize = 1;
                while i < n
                    invariant
                        1 <= i <= n,
                        out@ + obj_rest_text(mv.skip(i as int)) == start + seq!['{'] + obj_text(
                            mv,
                        ),
                    decreases n - i,
                {
                    push_char(out, ',');
                    {
                        let m = &members[i];
                        write_str(m.0.as_str(), out);
                        push_char(out, ':');
                        write_json(&m.1, out);
                    }
                    proof {
                        assert(mv.skip(i as int)[0] == mv[i as int]);
                        assert(mv.skip(i as int).drop_first() =~= mv.skip(i as int + 1));
                        assert(obj_rest_text(mv.skip(i as int)) == seq![','] + str_text(
                            mv[i as int].0,
                        ) + seq![':'] + json_text(mv[i as int].1) + obj_rest_text(
                            mv.skip(i as int + 1),
                        ));
                        assert(out@ + obj_rest_text(mv.skip(i as int + 1)) =~= start + seq!['{']
                            + obj_text(mv));
                    }
                    i += 1;
                }
                proof {
                    assert(mv.skip(n as int) =~= Seq::<(Seq<char>, Jv)>::empty());
                    assert(obj_rest_text(Seq::<(Seq<char>, Jv)>::empty()) == Seq::<char>::empty());
                    assert(out@ =~= start + seq!['{'] + obj_text(mv));
                }
            } else {
                proof {
                    assert(mv =~= Seq::<(Seq<char>, Jv)>::empty());
                    assert(obj_text(mv) == Seq::<char>::empty());
                    assert(out@ =~= start + seq!['{'] + obj_text(mv));
                }
            }
            push_char(out, '}');
            proof {
                assert(final(out)@ =~= old(out)@ + json_text(jv(*j)));
            }
        },
    }
}

impl Json {
    /// The text of this value, exactly [`json_text`] of what it denotes.
    pub fn encode(&self) -> (r: String)
        ensures
            r@ == json_text(self@),
    {
        let mut out = String::new();
        write_json(self, &mut out);
        proof {
            assert(out@ =~= json_text(self@));
        }
        out
    }
}


/// The value of the first member of `ms` whose key is `k`.
pub open spec fn jv_lookup(ms: Seq<(Seq<char>, Jv)>, k: Seq<char>) -> Option<Jv>
    decreases ms.len(),
{
    if ms.len() == 0 {
        None
    } else if ms[0].0 == k {
        Some(ms[0].1)
    } else {
        jv_lookup(ms.drop_first(), k)
    }
}

impl Json {
    /// The characters of this value when it is a string.
    pub fn as_str(&self) -> (r: Option<&String>)
        ensures
            r is Some <==> self@ is Str,
            r matches Some(t) ==> self@ == Jv::Str(t@),
    {
        match self {
            Json::Str(t) => Some(t),
            _ => None,
        }
    }

    /// The integer this value holds when it is a number.
    pub fn as_i64(&self) -> (r: Option<i64>)
        ensures
            r is Some <==> self@ is Int,
            r matches Some(n) ==> self@ == Jv::Int(n),
    {
        match self {
            Json::Int(n) => Some(*n),
            _ => None,
        }
    }

    /// The non-negative integer this value holds when it is one.
    pub fn as_u64(&self) -> (r: Option<u64>)
        ensures
            r is Some <==> (self@ is Int && self@->Int_0 >= 0),
            r matches Some(n) ==> self@ == Jv::Int(n as i64),
    {
        match self {
            Json::Int(n) => if *n >= 0 {
                Some(*n as u64)
            } else {
                None
            },
            _ => None,
        }
    }

    /// The truth value this value holds when it is a boolean.
    pub fn as_bool(&self) -> (r: Option<bool>)
        ensures
            r is Some <==> self@ is Bool,
            r matches Some(b) ==> self@ == Jv::Bool(b),
    {
        match self {
            Json::Bool(b) => Some(*b),
            _ => None,
        }
    }

    /// The items of this value when it is an array.
    pub fn as_arr(&self) -> (r: Option<&Vec<Json>>)
        ensures
            r is Some <==> self@ is Arr,
            r matches Some(v) ==> self@ == Jv::Arr(jv_seq(v@)),
    {
        match self {
            Json::Arr(v) => Some(v),
            _ => None,
        }
    }

    /// The members of this value when it is an object.
    pub fn as_obj(&self) -> (r: Option<&Vec<(String, Json)>>)
        ensures
            r is Some <==> self@ is Obj,
            r matches Some(v) ==> self@ == Jv::Obj(jv_members(v@)),
    {
        match self {
            Json::Obj(v) => Some(v),
            _ => None,
        }
    }

    /// The value of the first member named `key`, when this value is an
    /// object that has one.
    #[verifier::loop_isolation(false)]
    pub fn get(&self, key: &str) -> (r: Option<&Json>)
        ensures
            self@ matches Jv::Obj(ms) ==> {
                &&& r is Some <==> jv_lookup(ms, key@) is Some
                &&& (r matches Some(x) ==> jv_lookup(ms, key@) == Some(x@))
            },
            !(self@ is Obj) ==> r is None,
    {
        match self {
            Json::Obj(v) => {
                let ghost mv = jv_members(v@);
                proof {
                    lemma_jv_members(v@);
                    assert(mv.skip(0) =~= mv);
                }
                let n = v.len();
                let mut i: usize = 0;
                while i < n
                    invariant
                        i <= n,
                        jv_lookup(mv.skip(i as int), key@) == jv_lookup(mv, key@),
                    decreases n - i,
                {
                    let hit = {
                        let m = &v[i];
                        crate::params::str_eq(m.0.as_str(), key)
                    };
                    proof {
                        assert(mv.skip(i as int)[0] == mv[i as int]);
                        assert(mv.skip(i as int).drop_first() =~= mv.skip(i as int + 1));
                    }
                    if hit {
                        proof {
                            assert(jv_lookup(mv.skip(i as int), key@) == Some(mv[i as int].1));
                        }
                        return Some(&v[i].1);
                    }
                    i += 1;
                }
                proof {
                    assert(mv.skip(n as int) =~= Seq::<(Seq<char>, Jv)>::empty());
                    assert(jv_lookup(mv.skip(n as int), key@) is None);
                }
                None
            },
            _ => None,
        }
    }
}


/// Denotation commutes with appending one item.
pub proof fn lemma_jv_seq_push(s: Seq<Json>, j: Json)
    ensures
        jv_seq(s.push(j)) == jv_seq(s).push(jv(j)),
{
    lemma_jv_seq(s.push(j));
    lemma_jv_seq(s);
    assert(jv_seq(s.push(j)) =~= jv_seq(s).push(jv(j)));
}


/// Denotation commutes with appending one member.
pub proof fn lemma_jv_members_push(s: Seq<(String, Json)>, k: String, j: Json)
    ensures
        jv_members(s.push((k, j))) == jv_members(s).push((k@, jv(j))),
{
    lemma_jv_members(s.push((k, j)));
    lemma_jv_members(s);
    assert(jv_members(s.push((k, j))) =~= jv_members(s).push((k@, jv(j))));
}


/// A copy that denotes the same JSON value.
#[verifier::loop_isolation(false)]
pub fn clone_json(j: &Json) -> (r: Json)
    ensures
        jv(r) == jv(*j),
    decreases *j,
{
    match j {
        Json::Null => Json::Null,
        Json::Bool(b) => Json::Bool(*b),
        Json::Int(n) => Json::Int(*n),
        Json::Str(s) => Json::Str(s.clone()),
        Json::Arr(v) => {
            let mut out: Vec<Json> = Vec::new();
            let n = v.len();
            let mut i: usize = 0;
            while i < n
                invariant
                    i <= n,
                    out@.len() == i,
                    forall|k: int| 0 <= k < i ==> jv(#[trigger] out@[k]) == jv(v@[k]),
                decreases n - i,
            {
                out.push(clone_json(&v[i]));
                i += 1;
            }
            proof {
                lemma_jv_seq(out@);
                lemma_jv_seq(v@);
                assert(jv_seq(out@) =~= jv_seq(v@));
            }
            Json::Arr(out)
        },
        Json::Obj(m) => {
            let mut out: Vec<(String, Json)> = Vec::new();
            let n = m.len();
            let mut i: usize = 0;
            while i < n
                invariant
                    i <= n,
                    out@.len() == i,
                    forall|k: int|
                        0 <= k < i ==> (#[trigger] out@[k]).0@ == m@[k].0@ && jv(out@[k].1) == jv(
                            m@[k].1,
                        ),
                decreases n - i,
            {
                let p = &m[i];
                out.push((p.0.clone(), clone_json(&p.1)));
                i += 1;
            }
            proof {
                lemma_jv_members(out@);
                lemma_jv_members(m@);
                assert(jv_members(out@) =~= jv_members(m@));
            }
            Json::Obj(out)
        },
    }
}

} // verus!
