//! The error taxonomy: every failure of a call surfaces as one value of
//! [`Error`], and nothing is retried or swallowed below it.

use vstd::prelude::*;

use crate::json::{jv, jv_lookup, jv_seq, lemma_jv_seq, Json, Jv};

verus! {

/// One field-level entry of a structured API error body.
#[derive(Debug, Clone)]
pub struct FieldErr {
    pub resource: String,
    pub field: Option<String>,
    pub code: String,
    pub message: Option<String>,
    pub documentation_url: Option<String>,
}

impl FieldErr {
    /// Field-by-field equality, the meaning `==` has on this type.
    pub open spec fn eq_spec_with(&self, other: &FieldErr) -> bool {
        &&& self.resource@ == other.resource@
        &&& match (&self.field, &other.field) {
            (Some(a), Some(b)) => a@ == b@,
            (None, None) => true,
            _ => false,
        }
        &&& self.code@ == other.code@
        &&& match (&self.message, &other.message) {
            (Some(a), Some(b)) => a@ == b@,
            (None, None) => true,
            _ => false,
        }
        &&& match (&self.documentation_url, &other.documentation_url) {
            (Some(a), Some(b)) => a@ == b@,
            (None, None) => true,
            _ => false,
        }
    }
}

fn option_string_eq(a: &Option<String>, b: &Option<String>) -> (r: bool)
    ensures
        r == (match (a, b) {
            (Some(x), Some(y)) => x@ == y@,
            (None, None) => true,
            _ => false,
        }),
{
    match (a, b) {
        (Some(x), Some(y)) => *x == *y,
        (None, None) => true,
        _ => false,
    }
}

impl PartialEq for FieldErr {
    fn eq(&self, other: &FieldErr) -> (r: bool) {
        self.resource == other.resource && option_string_eq(&self.field, &other.field)
            && self.code == other.code && option_string_eq(&self.message, &other.message)
            && option_string_eq(&self.documentation_url, &other.documentation_url)
    }
}

impl vstd::std_specs::cmp::PartialEqSpecImpl for FieldErr {
    open spec fn obeys_eq_spec() -> bool {
        true
    }

    open spec fn eq_spec(&self, other: &FieldErr) -> bool {
        self.eq_spec_with(other)
    }
}

/// The structured error body that the API reports a fault with:
/// a message and, optionally, a list of field-level entries.
#[derive(Debug, Clone)]
pub struct ClientError {
    pub message: String,
    pub errors: Option<Vec<FieldErr>>,
}

impl ClientError {
    /// Field-by-field equality, the meaning `==` has on this type.
    pub open spec fn eq_spec_with(&self, other: &ClientError) -> bool {
        &&& self.message@ == other.message@
        &&& (self.errors is Some <==> other.errors is Some)
        &&& (self.errors is Some ==> {
            let a = self.errors.unwrap();
            let b = other.errors.unwrap();
            &&& a@.len() == b@.len()
            &&& forall|i: int| 0 <= i < a@.len() ==> #[trigger] a@[i].eq_spec_with(&b@[i])
        })
    }
}

impl PartialEq for ClientError {
    fn eq(&self, other: &ClientError) -> (r: bool) {
        if self.message != other.message {
            return false;
        }
        match &self.errors {
            Some(a) => match &other.errors {
                Some(b) => {
                    if a.len() != b.len() {
                        return false;
                    }
                    let mut i: usize = 0;
                    while i < a.len()
                        invariant
                            i <= a@.len(),
                            a@.len() == b@.len(),
                            *a == self.errors.unwrap(),
                            *b == other.errors.unwrap(),
                            forall|k: int| 0 <= k < i ==> #[trigger] a@[k].eq_spec_with(&b@[k]),
                        decreases a@.len() - i,
                    {
                        if a[i] != b[i] {
                            assert(!a@[i as int].eq_spec_with(&b@[i as int]));
                            return false;
                        }
                        i += 1;
                    }
                    true
                },
                None => false,
            },
            None => match &other.errors {
                Some(_) => false,
                None => true,
            },
        }
    }
}

impl vstd::std_specs::cmp::PartialEqSpecImpl for ClientError {
    open spec fn obeys_eq_spec() -> bool {
        true
    }

    open spec fn eq_spec(&self, other: &ClientError) -> bool {
        self.eq_spec_with(other)
    }
}

/// Everything that can go wrong with a call, as the caller sees it.
///
/// - `Codec`: a body failed to parse or did not have the expected shape.
/// - `Fault`: the API answered with a non-2xx status; the payload is the
///   structured error body it sent, or one synthesized from the status
///   when that body could not be parsed.
/// - `RateLimited`: the API reported rate limiting; carries the reset
///   time read from the response metadata, when one was present.
/// - `Transport`: the request never produced a response.
/// - `Config`: the client itself was misconfigured (a malformed base URL).
#[derive(Debug)]
pub enum Error {
    Codec,
    Fault { code: u16, error: ClientError },
    RateLimited { reset: Option<u64> },
    Transport,
    Config,
}

impl Error {
    /// Field-by-field equality, the meaning `==` has on this type.
    pub open spec fn eq_spec_with(&self, other: &Error) -> bool {
        match (self, other) {
            (Error::Codec, Error::Codec) => true,
            (
                Error::Fault { code: c1, error: e1 },
                Error::Fault { code: c2, error: e2 },
            ) => c1 == c2 && e1.eq_spec_with(e2),
            (Error::RateLimited { reset: r1 }, Error::RateLimited { reset: r2 }) => r1 == r2,
            (Error::Transport, Error::Transport) => true,
            (Error::Config, Error::Config) => true,
            _ => false,
        }
    }
}

impl PartialEq for Error {
    fn eq(&self, other: &Error) -> (r: bool) {
        match (self, other) {
            (Error::Codec, Error::Codec) => true,
            (
                Error::Fault { code: c1, error: e1 },
                Error::Fault { code: c2, error: e2 },
            ) => c1 == c2 && e1 == e2,
            (Error::RateLimited { reset: r1 }, Error::RateLimited { reset: r2 }) => match (
                r1,
                r2,
            ) {
                (Some(a), Some(b)) => a == b,
                (None, None) => true,
                _ => false,
            },
            (Error::Transport, Error::Transport) => true,
            (Error::Config, Error::Config) => true,
            _ => false,
        }
    }
}

impl vstd::std_specs::cmp::PartialEqSpecImpl for Error {
    open spec fn obeys_eq_spec() -> bool {
        true
    }

    open spec fn eq_spec(&self, other: &Error) -> bool {
        self.eq_spec_with(other)
    }
}


/// A field-level error entry as the specification sees it.
pub struct FeV {
    pub resource: Seq<char>,
    pub field: Option<Seq<char>>,
    pub code: Seq<char>,
    pub message: Option<Seq<char>>,
    pub documentation_url: Option<Seq<char>>,
}

/// A structured error body as the specification sees it.
pub struct CeV {
    pub message: Seq<char>,
    pub errors: Option<Seq<FeV>>,
}

/// An optional string member: absent or null stands for nothing, a string
/// stands for itself, and any other value makes the member malformed.
pub open spec fn sp_opt_str(ms: Seq<(Seq<char>, Jv)>, k: Seq<char>) -> Option<Option<Seq<char>>> {
    match jv_lookup(ms, k) {
        None => Some(None),
        Some(Jv::Null) => Some(None),
        Some(Jv::Str(s)) => Some(Some(s)),
        Some(_) => None,
    }
}

/// The field-level entry a JSON value stands for: an object with string
/// members `resource` and `code`, and optional string members `field`,
/// `message` and `documentation_url`.
pub open spec fn sp_field_err(v: Jv) -> Option<FeV> {
    match v {
        Jv::Obj(ms) => match jv_lookup(ms, "resource"@) {
            Some(Jv::Str(resource)) => match jv_lookup(ms, "code"@) {
                Some(Jv::Str(code)) => match sp_opt_str(ms, "field"@) {
                    Some(field) => match sp_opt_str(ms, "message"@) {
                        Some(message) => match sp_opt_str(ms, "documentation_url"@) {
                            Some(documentation_url) => Some(
                                FeV { resource, field, code, message, documentation_url },
                            ),
                            None => None,
                        },
                        None => None,
                    },
                    None => None,
                },
                _ => None,
            },
            _ => None,
        },
        _ => None,
    }
}

/// The field-level entries a JSON array stands for: every item must be one.
pub open spec fn sp_field_errs(items: Seq<Jv>) -> Option<Seq<FeV>>
    decreases items.len(),
{
    if items.len() == 0 {
        Some(Seq::empty())
    } else {
        match sp_field_err(items[0]) {
            Some(f) => match sp_field_errs(items.drop_first()) {
                Some(r) => Some(seq![f] + r),
                None => None,
            },
            None => None,
        }
    }
}

/// The structured error body a JSON value stands for: an object with a
/// string member `message` and an optional array member `errors` of
/// field-level entries.
pub open spec fn sp_client_error(v: Jv) -> Option<CeV> {
    match v {
        Jv::Obj(ms) => match jv_lookup(ms, "message"@) {
            Some(Jv::Str(message)) => match jv_lookup(ms, "errors"@) {
                None => Some(CeV { message, errors: None }),
                Some(Jv::Null) => Some(CeV { message, errors: None }),
                Some(Jv::Arr(items)) => match sp_field_errs(items) {
                    Some(fes) => Some(CeV { message, errors: Some(fes) }),
                    None => None,
                },
                Some(_) => None,
            },
            _ => None,
        },
        _ => None,
    }
}

/// Whether an optional owned string carries the optional characters.
pub open spec fn opt_str_matches(o: Option<String>, s: Option<Seq<char>>) -> bool {
    &&& (o is Some <==> s is Some)
    &&& (o matches Some(x) ==> s == Some(x@))
}

/// Whether a decoded entry carries exactly the fields of its
/// specification-level counterpart.
pub open spec fn fe_matches(fe: FieldErr, fv: FeV) -> bool {
    &&& fe.resource@ == fv.resource
    &&& opt_str_matches(fe.field, fv.field)
    &&& fe.code@ == fv.code
    &&& opt_str_matches(fe.message, fv.message)
    &&& opt_str_matches(fe.documentation_url, fv.documentation_url)
}

/// Whether a decoded list carries exactly the entries of its
/// specification-level counterpart, in order.
pub open spec fn fes_match(v: Seq<FieldErr>, s: Seq<FeV>) -> bool {
    &&& v.len() == s.len()
    &&& forall|i: int| 0 <= i < v.len() ==> fe_matches(#[trigger] v[i], s[i])
}

/// Whether a decoded error body carries exactly the fields of its
/// specification-level counterpart.
pub open spec fn ce_matches(ce: ClientError, cv: CeV) -> bool {
    &&& ce.message@ == cv.message
    &&& (ce.errors is Some <==> cv.errors is Some)
    &&& (ce.errors matches Some(v) ==> cv.errors matches Some(s) && fes_match(v@, s))
}

/// An optional string member of `j`, when `j` is an object whose member
/// under `key` is well formed for one.
fn opt_str_member(j: &Json, key: &str) -> (r: Option<Option<String>>)
    requires
        j@ is Obj,
    ensures
        r is Some <==> sp_opt_str(j@->Obj_0, key@) is Some,
        r matches Some(o) ==> opt_str_matches(o, sp_opt_str(j@->Obj_0, key@).unwrap()),
{
    match j.get(key) {
        None => Some(None),
        Some(x) => match x {
            Json::Null => Some(None),
            Json::Str(s) => Some(Some(s.clone())),
            _ => None,
        },
    }
}

impl FieldErr {
    /// Decode one field-level entry: returns a value exactly when
    /// [`sp_field_err`] accepts the JSON, and then carries its fields.
    pub fn from_json(j: &Json) -> (r: Option<FieldErr>)
        ensures
            r is Some <==> sp_field_err(j@) is Some,
            r matches Some(fe) ==> fe_matches(fe, sp_field_err(j@).unwrap()),
    {
        match j {
            Json::Obj(_) => {},
            _ => {
                return None;
            },
        }
        let resource = match j.get("resource") {
            Some(x) => match x.as_str() {
                Some(s) => s.clone(),
                None => {
                    return None;
                },
            },
            None => {
                return None;
            },
        };
        let code = match j.get("code") {
            Some(x) => match x.as_str() {
                Some(s) => s.clone(),
                None => {
                    return None;
                },
            },
            None => {
                return None;
            },
        };
        let field = match opt_str_member(j, "field") {
            Some(o) => o,
            None => {
                return None;
            },
        };
        let message = match opt_str_member(j, "message") {
            Some(o) => o,
            None => {
                return None;
            },
        };
        let documentation_url = match opt_str_member(j, "documentation_url") {
            Some(o) => o,
            None => {
                return None;
            },
        };
        Some(FieldErr { resource, field, code, message, documentation_url })
    }
}

/// Decode the entries from `items[i..]`.
fn field_errs_from(items: &Vec<Json>, i: usize) -> (r: Option<Vec<FieldErr>>)
    requires
        i <= items@.len(),
    ensures
        r is Some <==> sp_field_errs(jv_seq(items@).skip(i as int)) is Some,
        r matches Some(v) ==> fes_match(v@, sp_field_errs(jv_seq(items@).skip(i as int)).unwrap()),
    decreases items@.len() - i,
{
    proof {
        lemma_jv_seq(items@);
    }
    let ghost tail = jv_seq(items@).skip(i as int);
    if i == items.len() {
        proof {
            assert(tail =~= Seq::<Jv>::empty());
        }
        Some(Vec::new())
    } else {
        proof {
            assert(tail[0] == jv(items@[i as int]));
            assert(tail.drop_first() =~= jv_seq(items@).skip(i as int + 1));
        }
        match FieldErr::from_json(&items[i]) {
            Some(fe) => match field_errs_from(items, i + 1) {
                Some(rest) => {
                    let ghost rv = rest@;
                    let mut v = rest;
                    v.insert(0, fe);
                    proof {
                        assert(v@ =~= seq![fe] + rv);
                        assert(sp_field_errs(tail) == Some(
                            seq![sp_field_err(tail[0]).unwrap()] + sp_field_errs(
                                tail.drop_first(),
                            ).unwrap(),
                        ));
                    }
                    Some(v)
                },
                None => None,
            },
            None => None,
        }
    }
}

impl ClientError {
    /// Decode a structured error body: returns a value exactly when
    /// [`sp_client_error`] accepts the JSON, and then carries its message
    /// and entries.
    pub fn from_json(j: &Json) -> (r: Option<ClientError>)
        ensures
            r is Some <==> sp_client_error(j@) is Some,
            r matches Some(ce) ==> ce_matches(ce, sp_client_error(j@).unwrap()),
    {
        match j {
            Json::Obj(_) => {},
            _ => {
                return None;
            },
        }
        let message = match j.get("message") {
            Some(x) => match x.as_str() {
                Some(s) => s.clone(),
                None => {
                    return None;
                },
            },
            None => {
                return None;
            },
        };
        match j.get("errors") {
            None => {
                assert(sp_client_error(j@) is Some);
                let r = ClientError { message, errors: None };
                assert(ce_matches(r, sp_client_error(j@).unwrap()));
                Some(r)
            },
            Some(x) => match x {
                Json::Null => {
                    assert(sp_client_error(j@) is Some);
                    let r = ClientError { message, errors: None };
                    assert(ce_matches(r, sp_client_error(j@).unwrap()));
                    Some(r)
                },
                Json::Arr(items) => match field_errs_from(items, 0) {
                    Some(v) => {
                        proof {
                            assert(jv_seq(items@).skip(0) =~= jv_seq(items@));
                        }
                        assert(sp_client_error(j@) is Some);
                        let r = ClientError { message, errors: Some(v) };
                        assert(ce_matches(r, sp_client_error(j@).unwrap()));
                        Some(r)
                    },
                    None => {
                        assert(sp_client_error(j@) is None);
                        None
                    },
                },
                _ => {
                    assert(sp_client_error(j@) is None);
                    None
                },
            },
        }
    }
}

} // verus!
