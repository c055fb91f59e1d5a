//! The request executor: it builds a request descriptor from a path and an
//! optional payload, attaches the credentials, and classifies a transport
//! outcome into a decoded value or one error of the taxonomy. The network
//! call itself is the transport's; this module decides everything around it.

use vstd::prelude::*;
use vstd::string::*;

use crate::errors::{ce_matches, sp_client_error, ClientError, Error};
use crate::json::{dec_text, jv, Json};
use crate::json_parse::{digits_end, digits_val, parse_json, pow10, sp_json};
use crate::params::{key_count, pairs_insert, pairs_lookup, lemma_pairs_insert_idempotent,
    lemma_pairs_insert_key_count, Params};
use crate::Credentials;

verus! {

/// The HTTP method of a request.
pub enum Method {
    Get,
    Post,
    Put,
    Patch,
    Delete,
}

/// Everything the transport needs to issue one request: built fresh per
/// call and never reused. The full URL is the `url` with the rendering of
/// `query` appended when `query` holds any pair.
pub struct RequestDescriptor {
    pub method: Method,
    pub url: String,
    pub headers: Params,
    pub query: Params,
    pub body: Option<String>,
}

/// What the transport produced for one request: a status code, the
/// response headers (names held lower-case), and the body text.
pub struct Response {
    pub status: u16,
    pub headers: Params,
    pub body: String,
}

/// The headers every request starts from: the caller's agent, JSON content
/// negotiation, and a content type when a body is carried.
pub open spec fn default_headers(agent: Seq<char>, has_body: bool) -> Seq<(Seq<char>, Seq<char>)> {
    let h0 = pairs_insert(Seq::empty(), "user-agent"@, agent);
    let h1 = pairs_insert(h0, "accept"@, "application/json"@);
    if has_body {
        pairs_insert(h1, "content-type"@, "application/json"@)
    } else {
        h1
    }
}

/// Attach `creds` to `req`: a token becomes the one authentication header
/// (replacing any previous one), a client id and secret become the two
/// authentication query parameters, and anonymous credentials change
/// nothing. Everything else about the request is kept.
pub fn attach_credentials(creds: &Credentials, req: &mut RequestDescriptor)
    ensures
        final(req).method == old(req).method,
        final(req).url == old(req).url,
        final(req).body == old(req).body,
        match creds {
            Credentials::Anonymous => final(req).headers@ == old(req).headers@
                && final(req).query@ == old(req).query@,
            Credentials::Token(t) => final(req).headers@ == pairs_insert(
                old(req).headers@,
                "authorization"@,
                "token "@ + t@,
            ) && final(req).query@ == old(req).query@,
            Credentials::Client(id, secret) => final(req).headers@ == old(req).headers@
                && final(req).query@ == pairs_insert(
                pairs_insert(old(req).query@, "client_id"@, id@),
                "client_secret"@,
                secret@,
            ),
        },
{
    match creds {
        Credentials::Anonymous => {},
        Credentials::Token(t) => {
            let mut value = String::from_str("token ");
            value.append(t.as_str());
            req.headers.insert("authorization", value);
        },
        Credentials::Client(id, secret) => {
            req.query.insert("client_id", id.clone());
            req.query.insert("client_secret", secret.clone());
        },
    }
}

/// Attaching a token twice leaves exactly what attaching it once leaves,
/// and a request that carried no authentication header carries exactly one
/// afterwards: attachment replaces, never appends.
pub proof fn lemma_token_attachment_idempotent(
    headers: Seq<(Seq<char>, Seq<char>)>,
    token_value: Seq<char>,
)
    ensures
        pairs_insert(
            pairs_insert(headers, "authorization"@, token_value),
            "authorization"@,
            token_value,
        ) == pairs_insert(headers, "authorization"@, token_value),
        key_count(headers, "authorization"@) == 0 ==> key_count(
            pairs_insert(headers, "authorization"@, token_value),
            "authorization"@,
        ) == 1,
{
    lemma_pairs_insert_idempotent(headers, "authorization"@, token_value);
    lemma_pairs_insert_key_count(headers, "authorization"@, token_value);
}

/// The executor: the API host, the caller's agent string, the credentials
/// attached to every request, and the name of the response header the
/// rate-limit reset time is read from.
pub struct Github {
    pub host: String,
    pub agent: String,
    pub credentials: Credentials,
    pub reset_header: String,
}

impl Github {
    /// An executor against the public API host.
    pub fn new(agent: String, credentials: Credentials) -> (r: Github)
        ensures
            r.host@ == "https://api.github.com"@,
            r.agent == agent,
            r.credentials == credentials,
            r.reset_header@ == "x-ratelimit-reset"@,
    {
        Github {
            host: String::from_str("https://api.github.com"),
            agent,
            credentials,
            reset_header: String::from_str("x-ratelimit-reset"),
        }
    }

    /// An executor against a caller-supplied host, refused as a
    /// configuration error when the host is not a well-formed URL.
    pub fn try_with_host(host: String, agent: String, credentials: Credentials) -> (r: Result<
        Github,
        Error,
    >)
        ensures
            r is Ok <==> crate::rep::url_path_of(host@) is Some,
            r matches Ok(g) ==> g.host == host && g.agent == agent && g.credentials == credentials
                && g.reset_header@ == "x-ratelimit-reset"@,
            r is Err ==> r == Err::<Github, Error>(Error::Config),
    {
        match crate::rep::url_path(host.as_str()) {
            Some(_) => Ok(Github::with_host(host, agent, credentials)),
            None => Err(Error::Config),
        }
    }

    /// An executor against another host, for instance an enterprise
    /// installation.
    pub fn with_host(host: String, agent: String, credentials: Credentials) -> (r: Github)
        ensures
            r.host == host,
            r.agent == agent,
            r.credentials == credentials,
            r.reset_header@ == "x-ratelimit-reset"@,
    {
        Github { host, agent, credentials, reset_header: String::from_str("x-ratelimit-reset") }
    }

    /// Build the descriptor of one request: the URL is the host followed by
    /// the resource path, the headers are the defaults, and the credentials
    /// are attached.
    pub fn build_request(&self, method: Method, path: &str, body: Option<String>) -> (r:
        RequestDescriptor)
        ensures
            r.method == method,
            r.url@ == self.host@ + path@,
            r.body == body,
            match self.credentials {
                Credentials::Anonymous => r.headers@ == default_headers(
                    self.agent@,
                    body is Some,
                ) && r.query@ == Seq::<(Seq<char>, Seq<char>)>::empty(),
                Credentials::Token(t) => r.headers@ == pairs_insert(
                    default_headers(self.agent@, body is Some),
                    "authorization"@,
                    "token "@ + t@,
                ) && r.query@ == Seq::<(Seq<char>, Seq<char>)>::empty(),
                Credentials::Client(id, secret) => r.headers@ == default_headers(
                    self.agent@,
                    body is Some,
                ) && r.query@ == pairs_insert(
                    pairs_insert(Seq::empty(), "client_id"@, id@),
                    "client_secret"@,
                    secret@,
                ),
            },
    {
        let url = self.host.clone().concat(path);
        let mut headers = Params::new();
        headers.insert("user-agent", self.agent.clone());
        headers.insert("accept", String::from_str("application/json"));
        if body.is_some() {
            headers.insert("content-type", String::from_str("application/json"));
        }
        let mut req = RequestDescriptor { method, url, headers, query: Params::new(), body };
        attach_credentials(&self.credentials, &mut req);
        req
    }

    /// Classify one transport outcome: no response at all is a transport
    /// failure; a response is classified by [`classify_response`], with the
    /// reset time read from this executor's configured header.
    pub fn execute(&self, outcome: Option<Response>) -> (r: Result<Option<Json>, Error>)
        ensures
            outcome is None ==> r == Err::<Option<Json>, Error>(Error::Transport),
            outcome matches Some(resp) ==> classified(
                resp.status,
                resp.headers@,
                resp.body@,
                self.reset_header@,
                r,
            ),
    {
        match outcome {
            None => Err(Error::Transport),
            Some(resp) => classify_response(&resp, self.reset_header.as_str()),
        }
    }
}

/// The reset time carried by the headers: the value of the named header
/// when it is present and holds nothing but decimal digits (at most
/// eighteen of them).
pub open spec fn sp_reset(headers: Seq<(Seq<char>, Seq<char>)>, name: Seq<char>) -> Option<u64> {
    match pairs_lookup(headers, name) {
        Some(v) => if v.len() > 0 && v.len() <= 18 && digits_end(v, 0) == v.len() {
            Some(digits_val(v, 0, v.len() as int) as u64)
        } else {
            None
        },
        None => None,
    }
}

/// Whether `ce` is the error body classification owes for a non-2xx
/// response with this body: the decoded structured body when the body
/// parses to one, else an error synthesized from the status alone.
pub open spec fn fault_matches(body: Seq<char>, status: u16, ce: ClientError) -> bool {
    match sp_json(body) {
        Some(v) => match sp_client_error(v) {
            Some(cv) => ce_matches(ce, cv),
            None => synthesized_matches(status, ce),
        },
        None => synthesized_matches(status, ce),
    }
}

/// The synthesized error body: the decimal text of the status, no entries.
pub open spec fn synthesized_matches(status: u16, ce: ClientError) -> bool {
    ce.message@ == dec_text(status as nat) && ce.errors is None
}

/// What classification owes for one response, in the order the executor
/// checks: a success status with an empty body is success with no value; a
/// success status with a body must parse, else the call failed decoding;
/// a rate-limit status reports the reset time when the headers carry one;
/// and every other status is a fault that carries the status and the best
/// available error body — classification never fails silently.
pub open spec fn classified(
    status: u16,
    headers: Seq<(Seq<char>, Seq<char>)>,
    body: Seq<char>,
    reset_header: Seq<char>,
    r: Result<Option<Json>, Error>,
) -> bool {
    &&& (200 <= status < 300 && body.len() == 0 ==> r == Ok::<Option<Json>, Error>(None))
    &&& (200 <= status < 300 && body.len() > 0 ==> (match sp_json(body) {
        Some(v) => r matches Ok(Some(j)) && jv(j) == v,
        None => r == Err::<Option<Json>, Error>(Error::Codec),
    }))
    &&& (status == 429 ==> (r matches Err(Error::RateLimited { reset }) && reset == sp_reset(
        headers,
        reset_header,
    )))
    &&& (!(200 <= status < 300) && status != 429 ==> (r matches Err(
        Error::Fault { code, error },
    ) && code == status && fault_matches(body, status, error)))
}

/// The digits of a header value, as the number they spell.
#[verifier::loop_isolation(false)]
fn parse_u64_digits(s: &str) -> (r: Option<u64>)
    ensures
        r is Some <==> (s@.len() > 0 && s@.len() <= 18 && digits_end(s@, 0) == s@.len()),
        r matches Some(n) ==> n == digits_val(s@, 0, s@.len() as int) as u64,
{
    let n = s.unicode_len();
    if n == 0 || n > 18 {
        proof {
            if n > 18 {
                lemma_digits_end_bounds(s@, 0);
            }
        }
        return None;
    }
    let mut e: usize = 0;
    while e < n && is_digit_exec(s.get_char(e))
        invariant
            e <= n,
            digits_end(s@, 0) == digits_end(s@, e as int),
            forall|k: int| 0 <= k < e ==> crate::json_parse::is_digit(#[trigger] s@[k]),
        decreases n - e,
    {
        e += 1;
    }
    proof {
        assert(digits_end(s@, e as int) == e);
    }
    if e < n {
        return None;
    }
    proof {
        crate::json_parse::lemma_digits_val_bound(s@, 0, n as int);
    }
    let mut val: u64 = 0;
    let mut idx: usize = 0;
    while idx < n
        invariant
            idx <= n,
            val == digits_val(s@, 0, idx as int),
            val < pow10(idx as nat),
        decreases n - idx,
    {
        let d = (s.get_char(idx) as u32) - 48;
        proof {
            assert(crate::json_parse::is_digit(s@[idx as int]));
            assert(pow10(idx as nat) <= pow10(17)) by {
                crate::json_parse::lemma_pow10_le(idx as nat, 17);
            }
            assert(pow10(17) == 100000000000000000) by {
                reveal_with_fuel(pow10, 20);
            }
            assert(pow10((idx + 1) as nat) == 10 * pow10(idx as nat));
        }
        val = val * 10 + (d as u64);
        idx += 1;
    }
    Some(val)
}

/// The end of a digit run never passes the end of the text.
proof fn lemma_digits_end_bounds(s: Seq<char>, i: int)
    requires
        0 <= i <= s.len(),
    ensures
        i <= digits_end(s, i) <= s.len(),
    decreases s.len() - i,
{
    if i < s.len() && crate::json_parse::is_digit(s[i]) {
        lemma_digits_end_bounds(s, i + 1);
    }
}

/// Whether `c` is a decimal digit.
fn is_digit_exec(c: char) -> (r: bool)
    ensures
        r == crate::json_parse::is_digit(c),
{
    let u = c as u32;
    48 <= u && u <= 57
}

/// The error body synthesized for a fault whose body could not be used:
/// the decimal text of the status and no entries.
fn synthesize_client_error(status: u16) -> (r: ClientError)
    ensures
        synthesized_matches(status, r),
{
    let mut message = String::new();
    crate::json::write_dec(status as u64, &mut message);
    proof {
        assert(message@ =~= dec_text(status as nat));
    }
    ClientError { message, errors: None }
}

/// Classify one response: exactly what [`classified`] says, checked in
/// order — success range first, then rate limiting, then every other
/// status as a fault with the best available error body.
pub fn classify_response(resp: &Response, reset_header: &str) -> (r: Result<Option<Json>, Error>)
    ensures
        classified(resp.status, resp.headers@, resp.body@, reset_header@, r),
{
    let status = resp.status;
    if 200 <= status && status < 300 {
        if resp.body.as_str().is_empty() {
            Ok(None)
        } else {
            match parse_json(resp.body.as_str()) {
                Some(j) => Ok(Some(j)),
                None => Err(Error::Codec),
            }
        }
    } else if status == 429 {
        let reset = match resp.headers.get(reset_header) {
            Some(v) => parse_u64_digits(v.as_str()),
            None => None,
        };
        Err(Error::RateLimited { reset })
    } else {
        let error = match parse_json(resp.body.as_str()) {
            Some(j) => match ClientError::from_json(&j) {
                Some(ce) => ce,
                None => synthesize_client_error(status),
            },
            None => synthesize_client_error(status),
        };
        Err(Error::Fault { code: status, error })
    }
}

} // verus!
