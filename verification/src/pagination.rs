//! The pagination engine: a lazy, cursor-following sequence of items. The
//! continuation cursor is the URL of the `rel="next"` entry of a `Link`
//! response header; its absence is the sole termination signal. The engine
//! is a state machine driven by `pull`: the caller performs the fetch it
//! asks for and feeds the classified page back.

use vstd::prelude::*;
use vstd::seq_lib::*;
use vstd::string::*;

use crate::errors::{opt_str_matches, Error};
use crate::executor::{classify_response, fault_matches, sp_reset, Github, Response};
use crate::json::{jv, jv_seq, lemma_jv_seq, lemma_jv_seq_push, push_char, Json, Jv};
use crate::json_parse::sp_json;
use crate::params::pairs_lookup;

verus! {

/// The first index in `[i, hi)` that holds `c`, or `hi`.
pub open spec fn find_in(s: Seq<char>, i: int, hi: int, c: char) -> int
    decreases hi - i,
{
    if !(0 <= i < hi && hi <= s.len()) {
        hi
    } else if s[i] == c {
        i
    } else {
        find_in(s, i + 1, hi, c)
    }
}

/// Finding a character never moves backwards nor past `hi`.
pub proof fn lemma_find_in(s: Seq<char>, i: int, hi: int, c: char)
    requires
        0 <= i <= hi <= s.len(),
    ensures
        i <= find_in(s, i, hi, c) <= hi,
        find_in(s, i, hi, c) < hi ==> s[find_in(s, i, hi, c)] == c,
    decreases hi - i,
{
    if i < hi && s[i] != c {
        lemma_find_in(s, i + 1, hi, c);
    }
}

/// The marker that names the continuation relation inside a `Link` entry.
pub open spec fn next_marker() -> Seq<char> {
    seq!['r', 'e', 'l', '=', '"', 'n', 'e', 'x', 't', '"']
}

/// Whether the marker occurs anywhere in `s[lo..hi]`.
pub open spec fn has_marker_between(s: Seq<char>, lo: int, hi: int) -> bool {
    exists|k: int| lo <= k && k + 10 <= hi && #[trigger] s.subrange(k, k + 10) == next_marker()
}

/// Whether the `Link` entry `s[lo..hi]` carries a bracketed URL and the
/// continuation marker after it.
pub open spec fn entry_is_next(s: Seq<char>, lo: int, hi: int) -> bool {
    let a = find_in(s, lo, hi, '<');
    let b = find_in(s, a + 1, hi, '>');
    a < hi && b < hi && has_marker_between(s, b + 1, hi)
}

/// The bracketed URL of the entry `s[lo..hi]`.
pub open spec fn entry_url(s: Seq<char>, lo: int, hi: int) -> Seq<char> {
    let a = find_in(s, lo, hi, '<');
    let b = find_in(s, a + 1, hi, '>');
    s.subrange(a + 1, b)
}

/// The URL of the first comma-separated entry at or after `i` that carries
/// the continuation marker, reading the header text as `<url>; rel="..."`
/// entries.
pub open spec fn sp_next_link(s: Seq<char>, i: int) -> Option<Seq<char>>
    decreases s.len() - i,
{
    if !(0 <= i <= s.len()) {
        None
    } else {
        let e = find_in(s, i, s.len() as int, ',');
        if entry_is_next(s, i, e) {
            Some(entry_url(s, i, e))
        } else if e < i || e >= s.len() {
            None
        } else {
            sp_next_link(s, e + 1)
        }
    }
}

/// The first index in `[i, hi)` that holds `c`, or `hi`.
pub fn find_in_exec(s: &str, i: usize, hi: usize, c: char) -> (r: usize)
    requires
        i <= hi <= s@.len(),
    ensures
        r as int == find_in(s@, i as int, hi as int, c),
        i <= r <= hi,
        r < hi ==> s@[r as int] == c,
    decreases hi - i,
{
    if i < hi {
        if s.get_char(i) == c {
            i
        } else {
            find_in_exec(s, i + 1, hi, c)
        }
    } else {
        i
    }
}

/// Whether the ten characters at `k` are exactly the continuation marker.
fn marker_at(s: &str, k: usize) -> (r: bool)
    requires
        k + 10 <= s@.len(),
    ensures
        r == (s@.subrange(k as int, k as int + 10) == next_marker()),
{
    let n = s.unicode_len();
    let m = s.get_char(k) == 'r' && s.get_char(k + 1) == 'e' && s.get_char(k + 2) == 'l'
        && s.get_char(k + 3) == '=' && s.get_char(k + 4) == '"' && s.get_char(k + 5) == 'n'
        && s.get_char(k + 6) == 'e' && s.get_char(k + 7) == 'x' && s.get_char(k + 8) == 't'
        && s.get_char(k + 9) == '"';
    proof {
        let sub = s@.subrange(k as int, k as int + 10);
        if m {
            assert(sub =~= next_marker());
        } else if sub == next_marker() {
            assert(s@[k as int] == sub[0]);
            assert(s@[k as int + 1] == sub[1]);
            assert(s@[k as int + 2] == sub[2]);
            assert(s@[k as int + 3] == sub[3]);
            assert(s@[k as int + 4] == sub[4]);
            assert(s@[k as int + 5] == sub[5]);
            assert(s@[k as int + 6] == sub[6]);
            assert(s@[k as int + 7] == sub[7]);
            assert(s@[k as int + 8] == sub[8]);
            assert(s@[k as int + 9] == sub[9]);
            assert(false);
        }
    }
    m
}

/// Whether the marker occurs anywhere in `s[lo..hi]`.
#[verifier::loop_isolation(false)]
fn has_marker_exec(s: &str, lo: usize, hi: usize) -> (r: bool)
    requires
        lo <= hi <= s@.len(),
    ensures
        r == has_marker_between(s@, lo as int, hi as int),
{
    if hi - lo < 10 {
        return false;
    }
    let mut k = lo;
    while k <= hi - 10
        invariant
            lo <= k,
            k <= hi,
            forall|j: int|
                lo <= j && j + 10 <= hi && j < k ==> #[trigger] s@.subrange(j, j + 10)
                    != next_marker(),
        decreases hi - k,
    {
        if marker_at(s, k) {
            return true;
        }
        k += 1;
    }
    false
}

/// Whether the entry `s[lo..hi]` carries a bracketed URL followed by the
/// continuation marker.
fn entry_is_next_exec(s: &str, lo: usize, hi: usize) -> (r: bool)
    requires
        lo <= hi <= s@.len(),
    ensures
        r == entry_is_next(s@, lo as int, hi as int),
{
    let a = find_in_exec(s, lo, hi, '<');
    if a >= hi {
        return false;
    }
    let b = find_in_exec(s, a + 1, hi, '>');
    if b >= hi {
        return false;
    }
    has_marker_exec(s, b + 1, hi)
}

/// The characters of `s[lo..hi]`, as an owned string.
#[verifier::loop_isolation(false)]
pub fn copy_range(s: &str, lo: usize, hi: usize) -> (r: String)
    requires
        lo <= hi <= s@.len(),
    ensures
        r@ == s@.subrange(lo as int, hi as int),
{
    let mut out = String::new();
    let mut i = lo;
    proof {
        assert(out@ =~= s@.subrange(lo as int, lo as int));
    }
    while i < hi
        invariant
            lo <= i <= hi,
            out@ == s@.subrange(lo as int, i as int),
        decreases hi - i,
    {
        push_char(&mut out, s.get_char(i));
        proof {
            assert(out@ =~= s@.subrange(lo as int, i as int + 1));
        }
        i += 1;
    }
    out
}

/// The continuation URL of the entries at or after `i`.
fn next_link_from(s: &str, i: usize) -> (r: Option<String>)
    requires
        i <= s@.len(),
    ensures
        r is Some <==> sp_next_link(s@, i as int) is Some,
        r matches Some(u) ==> sp_next_link(s@, i as int) == Some(u@),
    decreases s@.len() - i,
{
    let n = s.unicode_len();
    let e = find_in_exec(s, i, n, ',');
    if entry_is_next_exec(s, i, e) {
        let ghost a = find_in(s@, i as int, e as int, '<');
        let ghost b = find_in(s@, a + 1, e as int, '>');
        proof {
            lemma_find_in(s@, i as int, e as int, '<');
            lemma_find_in(s@, a + 1, e as int, '>');
        }
        let a_exec = find_in_exec(s, i, e, '<');
        let b_exec = find_in_exec(s, a_exec + 1, e, '>');
        Some(copy_range(s, a_exec + 1, b_exec))
    } else if e >= n {
        None
    } else {
        next_link_from(s, e + 1)
    }
}

/// The URL of the `rel="next"` entry of the header text, when one entry
/// carries it: exactly what [`sp_next_link`] says of the whole text.
pub fn next_link(s: &str) -> (r: Option<String>)
    ensures
        r is Some <==> sp_next_link(s@, 0) is Some,
        r matches Some(u) ==> sp_next_link(s@, 0) == Some(u@),
{
    next_link_from(s, 0)
}


/// What one pull of the sequence asks of its driver or hands back.
pub enum Pulled {
    /// The next item, in arrival order.
    Item(Json),
    /// No item is buffered and a cursor is present: fetch this URL and
    /// feed the page back before pulling again.
    Fetch(String),
    /// Permanently exhausted: every later pull says the same.
    Done,
    /// The error that ended the sequence, reported exactly once; every
    /// later pull reports exhaustion.
    Failed(Error),
}

/// The paginated sequence: at most one page is buffered at a time, items
/// leave in arrival order, and a sequence with nothing buffered and no
/// cursor is permanently exhausted. The ghost fields record what has been
/// yielded and which pages were fed, so the ordering law is part of the
/// state's well-formedness.
pub struct PaginatedSeq {
    /// The URL of the next page, when one is known.
    pub cursor: Option<String>,
    /// The not-yet-yielded items of the current page, in arrival order.
    pub buffer: Vec<Json>,
    /// An error waiting to be reported once.
    pub failed: Option<Error>,
    /// Whether the sequence has reported its end or its error.
    pub done: bool,
    /// How many pages have been fed.
    pub fetches: u64,
    /// Everything yielded so far.
    pub yielded: Ghost<Seq<Jv>>,
    /// The items of every page fed so far, in fetch order.
    pub pages: Ghost<Seq<Seq<Jv>>>,
}

impl PaginatedSeq {
    /// The state invariant: what was yielded followed by what is buffered
    /// is exactly the concatenation of the pages fed, in order; a finished
    /// sequence holds nothing back.
    pub open spec fn wf(self) -> bool {
        &&& self.yielded@ + jv_seq(self.buffer@) == self.pages@.flatten()
        &&& (self.done ==> self.buffer@.len() == 0 && self.cursor is None && self.failed is None)
        &&& (self.failed is Some ==> self.buffer@.len() == 0)
    }

    /// A fresh sequence: its cursor is the first page's URL, nothing is
    /// buffered, nothing has been yielded or fetched.
    pub fn new(url: String) -> (r: PaginatedSeq)
        ensures
            r.wf(),
            r.cursor == Some(url),
            r.buffer@.len() == 0,
            r.failed is None,
            !r.done,
            r.fetches == 0,
            r.yielded@ == Seq::<Jv>::empty(),
            r.pages@ == Seq::<Seq<Jv>>::empty(),
    {
        let r = PaginatedSeq {
            cursor: Some(url),
            buffer: Vec::new(),
            failed: None,
            done: false,
            fetches: 0,
            yielded: Ghost(Seq::empty()),
            pages: Ghost(Seq::empty()),
        };
        proof {
            assert(jv_seq(r.buffer@) =~= Seq::<Jv>::empty());
            assert(r.pages@.flatten() =~= Seq::<Jv>::empty());
            assert(r.yielded@ + jv_seq(r.buffer@) =~= r.pages@.flatten());
        }
        r
    }

    /// Pull once. A buffered item leaves first; then a pending error is
    /// reported, exactly once; then an exhausted sequence says so, forever;
    /// otherwise the driver is asked to fetch the cursor, and the state
    /// does not change until the page is fed.
    pub fn pull(&mut self) -> (r: Pulled)
        requires
            old(self).wf(),
        ensures
            final(self).wf(),
            final(self).pages == old(self).pages,
            final(self).fetches == old(self).fetches,
            old(self).buffer@.len() > 0 ==> r is Item,
            (old(self).buffer@.len() == 0 && old(self).failed is Some) ==> r is Failed,
            (old(self).buffer@.len() == 0 && old(self).failed is None && (old(self).done || old(self).cursor is None)) ==> r is Done,
            (old(self).buffer@.len() == 0 && old(self).failed is None && !old(self).done && old(self).cursor is Some) ==> r is Fetch,
            match r {
                Pulled::Item(j) => old(self).buffer@.len() > 0 && j == old(self).buffer@[0]
                    && final(self).buffer@ == old(self).buffer@.drop_first() && final(self).yielded@ == old(self).yielded@.push(jv(j)) && final(self).cursor == old(self).cursor && final(self).failed == old(self).failed && final(self).done == old(self).done,
                Pulled::Failed(e) => old(self).failed == Some(e) && final(self).done && final(self).failed is None && final(self).buffer == old(self).buffer && final(self).yielded
                    == old(self).yielded && final(self).cursor is None,
                Pulled::Done => final(self).done && final(self).buffer == old(self).buffer
                    && final(self).yielded == old(self).yielded && final(self).failed is None
                    && final(self).cursor is None,
                Pulled::Fetch(u) => old(self).cursor == Some(u) && *final(self) == *old(self),
            },
    {
        if self.buffer.len() > 0 {
            let j = self.buffer.remove(0);
            proof {
                assert(jv_seq(old(self).buffer@) == seq![jv(j)] + jv_seq(
                    old(self).buffer@.drop_first(),
                ));
                assert(self.buffer@ =~= old(self).buffer@.drop_first());
                self.yielded@ = old(self).yielded@.push(jv(j));
                assert(self.yielded@ + jv_seq(self.buffer@) =~= old(self).yielded@ + jv_seq(
                    old(self).buffer@,
                ));
            }
            Pulled::Item(j)
        } else {
            match self.failed.take() {
                Some(e) => {
                    self.done = true;
                    self.cursor = None;
                    proof {
                        assert(self.yielded@ + jv_seq(self.buffer@) == self.pages@.flatten());
                    }
                    Pulled::Failed(e)
                },
                None => {
                    if self.done || self.cursor.is_none() {
                        self.done = true;
                        self.cursor = None;
                        Pulled::Done
                    } else {
                        let url = match &self.cursor {
                            Some(u) => u.clone(),
                            None => String::new(),
                        };
                        Pulled::Fetch(url)
                    }
                },
            }
        }
    }

    /// Feed the page the last `Fetch` asked for: its items are buffered in
    /// arrival order and the cursor becomes the page's continuation, or
    /// nothing when the page carried none.
    pub fn feed_page(&mut self, items: Vec<Json>, next: Option<String>)
        requires
            old(self).wf(),
            !old(self).done,
            old(self).failed is None,
            old(self).cursor is Some,
            old(self).buffer@.len() == 0,
            old(self).fetches < u64::MAX,
        ensures
            final(self).wf(),
            final(self).buffer == items,
            final(self).cursor == next,
            final(self).failed is None,
            !final(self).done,
            final(self).fetches == old(self).fetches + 1,
            final(self).yielded == old(self).yielded,
            final(self).pages@ == old(self).pages@.push(jv_seq(items@)),
    {
        proof {
            old(self).pages@.lemma_flatten_push(jv_seq(items@));
        }
        self.buffer = items;
        self.cursor = next;
        self.fetches = self.fetches + 1;
        proof {
            self.pages@ = old(self).pages@.push(jv_seq(self.buffer@));
            assert(jv_seq(old(self).buffer@) =~= Seq::<Jv>::empty());
            assert(old(self).yielded@ + jv_seq(old(self).buffer@) =~= old(self).yielded@);
            assert(self.yielded@ + jv_seq(self.buffer@) =~= self.pages@.flatten());
        }
    }

    /// Feed the error that ended the fetch the last `Fetch` asked for: the
    /// sequence will report it once and is exhausted from then on. The
    /// failed page is never re-attempted.
    pub fn feed_error(&mut self, e: Error)
        requires
            old(self).wf(),
            !old(self).done,
            old(self).failed is None,
            old(self).cursor is Some,
            old(self).buffer@.len() == 0,
            old(self).fetches < u64::MAX,
        ensures
            final(self).wf(),
            final(self).failed == Some(e),
            final(self).cursor is None,
            !final(self).done,
            final(self).buffer@.len() == 0,
            final(self).fetches == old(self).fetches + 1,
            final(self).yielded == old(self).yielded,
            final(self).pages == old(self).pages,
    {
        self.failed = Some(e);
        self.cursor = None;
        self.fetches = self.fetches + 1;
    }

    /// The ordering law at rest: whenever nothing is buffered, what has
    /// been yielded is exactly the concatenation of the pages fed, in
    /// fetch order, with no reordering and no loss.
    pub proof fn lemma_exhausted_order(self)
        requires
            self.wf(),
            self.buffer@.len() == 0,
        ensures
            self.yielded@ == self.pages@.flatten(),
    {
        assert(jv_seq(self.buffer@) =~= Seq::<Jv>::empty());
        assert(self.yielded@ =~= self.yielded@ + jv_seq(self.buffer@));
    }
}

/// The items of each fixture page, page by page.
pub open spec fn pages_items(ps: Seq<(Vec<Json>, Option<String>)>) -> Seq<Seq<Jv>> {
    Seq::new(ps.len(), |i: int| jv_seq(ps[i].0@))
}

/// Drive a fresh sequence to exhaustion against fixture pages, where page
/// `i` hands its items and the cursor of page `i + 1` (none for the last
/// page): the items come out as the concatenation of the pages in fetch
/// order, and exactly one fetch happens per page.
#[verifier::rlimit(60)]
pub fn drain_pages(start_url: String, mut pages: Vec<(Vec<Json>, Option<String>)>) -> (r: (
    Vec<Json>,
    u64,
))
    requires
        1 <= pages@.len() < u64::MAX,
        forall|i: int| 0 <= i < pages@.len() - 1 ==> (#[trigger] pages@[i].1) is Some,
        pages@[pages@.len() - 1].1 is None,
    ensures
        jv_seq(r.0@) == pages_items(pages@).flatten(),
        r.1 == pages@.len(),
{
    let ghost pages0 = pages@;
    let ghost total = pages0.len() as int;
    let initial_len = pages.len();
    proof {
        assert(total == initial_len as int);
    }
    let mut sq = PaginatedSeq::new(start_url);
    let mut out: Vec<Json> = Vec::new();
    let mut k: usize = 0;
    proof {
        assert(jv_seq(out@) =~= Seq::<Jv>::empty());
        assert(sq.pages@ =~= pages_items(pages0).subrange(0, 0));
        assert(pages@ =~= pages0.subrange(0, total));
    }
    loop
        invariant_except_break
            !sq.done,
            sq.failed is None,
            k < total ==> sq.cursor is Some,
            k == total ==> sq.cursor is None,
        invariant
            sq.wf(),
            total == pages0.len() as int,
            1 <= total < u64::MAX,
            total <= usize::MAX as int,
            forall|i: int| 0 <= i < total - 1 ==> (#[trigger] pages0[i].1) is Some,
            pages0[total - 1].1 is None,
            0 <= k <= total,
            pages@ == pages0.subrange(k as int, total),
            sq.pages@ == pages_items(pages0).subrange(0, k as int),
            sq.yielded@ == jv_seq(out@),
            sq.fetches == k,
        ensures
            k == total,
            sq.buffer@.len() == 0,
        decreases total - k, sq.buffer@.len() + 1,
    {
        match sq.pull() {
            Pulled::Item(j) => {
                proof {
                    lemma_jv_seq_push(out@, j);
                }
                out.push(j);
            },
            Pulled::Fetch(_url) => {
                let page = pages.remove(0);
                proof {
                    assert(page == pages0[k as int]);
                    assert(pages@ =~= pages0.subrange(k as int + 1, total));
                }
                sq.feed_page(page.0, page.1);
                k += 1;
                proof {
                    assert(pages_items(pages0)[k - 1] == jv_seq(pages0[k - 1].0@));
                    assert(sq.pages@ =~= pages_items(pages0).subrange(0, k as int));
                }
            },
            Pulled::Done => {
                break ;
            },
            Pulled::Failed(_e) => {
                proof {
                    assert(false);
                }
                break ;
            },
        }
    }
    proof {
        sq.lemma_exhausted_order();
        assert(pages_items(pages0).subrange(0, total) =~= pages_items(pages0));
    }
    let fetches = sq.fetches;
    (out, fetches)
}


/// The continuation cursor the response headers carry: the `rel="next"`
/// URL of the `link` header, when both are present.
pub open spec fn sp_page_next(headers: Seq<(Seq<char>, Seq<char>)>) -> Option<Seq<char>> {
    match pairs_lookup(headers, "link"@) {
        Some(v) => sp_next_link(v, 0),
        None => None,
    }
}

/// What one page fetch owes, given the response: a success body must be a
/// JSON array — its items and the headers' continuation cursor come back —
/// and anything else is classified exactly as a single call would be, with
/// an empty or non-array success body a decode failure.
pub open spec fn page_classified(
    status: u16,
    headers: Seq<(Seq<char>, Seq<char>)>,
    body: Seq<char>,
    reset_header: Seq<char>,
    r: Result<(Vec<Json>, Option<String>), Error>,
) -> bool {
    &&& (200 <= status < 300 ==> (match sp_json(body) {
        Some(Jv::Arr(items)) => (r matches Ok((v, nx)) && jv_seq(v@) == items && opt_str_matches(
            nx,
            sp_page_next(headers),
        )),
        _ => r == Err::<(Vec<Json>, Option<String>), Error>(Error::Codec),
    }))
    &&& (status == 429 ==> (r matches Err(Error::RateLimited { reset }) && reset == sp_reset(
        headers,
        reset_header,
    )))
    &&& (!(200 <= status < 300) && status != 429 ==> (r matches Err(
        Error::Fault { code, error },
    ) && code == status && fault_matches(body, status, error)))
}

/// Classify one page fetch: no response is a transport failure; a response
/// is classified exactly as [`page_classified`] says.
pub fn classify_page(outcome: Option<Response>, reset_header: &str) -> (r: Result<
    (Vec<Json>, Option<String>),
    Error,
>)
    ensures
        outcome is None ==> r == Err::<(Vec<Json>, Option<String>), Error>(Error::Transport),
        outcome matches Some(resp) ==> page_classified(
            resp.status,
            resp.headers@,
            resp.body@,
            reset_header@,
            r,
        ),
{
    match outcome {
        None => Err(Error::Transport),
        Some(resp) => {
            let next = match resp.headers.get("link") {
                Some(v) => next_link(v.as_str()),
                None => None,
            };
            proof {
                if resp.body@.len() == 0 {
                    assert(sp_json(resp.body@) is None);
                }
            }
            match classify_response(&resp, reset_header) {
                Ok(Some(j)) => match j {
                    Json::Arr(items) => Ok((items, next)),
                    _ => Err(Error::Codec),
                },
                Ok(None) => Err(Error::Codec),
                Err(e) => Err(e),
            }
        },
    }
}

impl Github {
    /// A lazy sequence over the list resource at `path`: the first fetch
    /// targets the host followed by the path, and later fetches follow the
    /// cursors the responses carry.
    pub fn paginate(&self, path: &str) -> (r: PaginatedSeq)
        ensures
            r.wf(),
            r.cursor matches Some(u) && u@ == self.host@ + path@,
            r.buffer@.len() == 0,
            r.failed is None,
            !r.done,
            r.fetches == 0,
            r.yielded@ == Seq::<Jv>::empty(),
            r.pages@ == Seq::<Seq<Jv>>::empty(),
    {
        PaginatedSeq::new(self.host.clone().concat(path))
    }
}

} // verus!
