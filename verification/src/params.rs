//! A key-value accumulator for query-string options: inserting an existing
//! key replaces its value in place, inserting a new key appends it, and the
//! whole set is rendered as an `application/x-www-form-urlencoded` string.

use vstd::prelude::*;

verus! {

/// What the `application/x-www-form-urlencoded` rendering of a pair list is.
/// Relied on only through [`encode_pairs`], which computes it.
pub uninterp spec fn form_encoded(pairs: Seq<(Seq<char>, Seq<char>)>) -> Seq<char>;

/// Relies on `form_urlencoded::Serializer` of the `form_urlencoded` crate:
/// `extend_pairs` percent-encodes each name and value and joins them as
/// `name=value` pairs separated by `&`; the result is a function of the
/// pair list alone.
#[verifier::external_body]
fn encode_pairs(pairs: &Vec<(String, String)>) -> (r: String)
    ensures
        r@ == form_encoded(pairs.deep_view()),
{
    form_urlencoded::Serializer::new(String::new()).extend_pairs(pairs.iter()).finish()
}

/// What inserting `(k, v)` into a pair list means: the first pair whose key
/// is `k` is replaced by `(k, v)`; when no pair has that key, `(k, v)` is
/// appended.
pub open spec fn pairs_insert<V>(ps: Seq<(Seq<char>, V)>, k: Seq<char>, v: V) -> Seq<(
    Seq<char>,
    V,
)>
    decreases ps.len(),
{
    if ps.len() == 0 {
        seq![(k, v)]
    } else if ps[0].0 == k {
        seq![(k, v)] + ps.drop_first()
    } else {
        seq![ps[0]] + pairs_insert(ps.drop_first(), k, v)
    }
}

/// Inserting the same pair twice leaves what inserting it once leaves.
pub proof fn lemma_pairs_insert_idempotent<V>(ps: Seq<(Seq<char>, V)>, k: Seq<char>, v: V)
    ensures
        pairs_insert(pairs_insert(ps, k, v), k, v) == pairs_insert(ps, k, v),
    decreases ps.len(),
{
    if ps.len() == 0 {
        assert(pairs_insert(pairs_insert(ps, k, v), k, v) =~= pairs_insert(ps, k, v));
        assert(pairs_insert(ps, k, v) =~= seq![(k, v)]);
    } else if ps[0].0 == k {
        assert(pairs_insert(ps, k, v)[0].0 == k);
        assert(pairs_insert(pairs_insert(ps, k, v), k, v) =~= pairs_insert(ps, k, v));
    } else {
        lemma_pairs_insert_idempotent(ps.drop_first(), k, v);
        assert(pairs_insert(ps, k, v)[0] == ps[0]);
        assert(pairs_insert(ps, k, v).drop_first() =~= pairs_insert(ps.drop_first(), k, v));
        assert(pairs_insert(pairs_insert(ps, k, v), k, v) =~= pairs_insert(ps, k, v));
    }
}

/// How many pairs of `ps` carry the key `k`.
pub open spec fn key_count<V>(ps: Seq<(Seq<char>, V)>, k: Seq<char>) -> nat
    decreases ps.len(),
{
    if ps.len() == 0 {
        0
    } else {
        (if ps[0].0 == k {
            1nat
        } else {
            0nat
        }) + key_count(ps.drop_first(), k)
    }
}

/// After an insert the inserted key is carried by exactly one more pair than
/// before when it was absent, and by as many as before when it was present;
/// in particular a key absent before an insert is carried exactly once after.
pub proof fn lemma_pairs_insert_key_count<V>(ps: Seq<(Seq<char>, V)>, k: Seq<char>, v: V)
    ensures
        key_count(pairs_insert(ps, k, v), k) == if key_count(ps, k) == 0 {
            1nat
        } else {
            key_count(ps, k)
        },
    decreases ps.len(),
{
    let q = pairs_insert(ps, k, v);
    if ps.len() == 0 {
        let e = Seq::<(Seq<char>, V)>::empty();
        assert(key_count(e, k) == 0);
        assert(q =~= seq![(k, v)]);
        assert(q.drop_first() =~= e);
        assert(key_count(q, k) == 1 + key_count(e, k));
    } else if ps[0].0 == k {
        assert(q.drop_first() =~= ps.drop_first());
        assert(key_count(q, k) == 1 + key_count(ps.drop_first(), k));
        assert(key_count(ps, k) == 1 + key_count(ps.drop_first(), k));
    } else {
        lemma_pairs_insert_key_count(ps.drop_first(), k, v);
        assert(q[0] == ps[0]);
        assert(q.drop_first() =~= pairs_insert(ps.drop_first(), k, v));
        assert(key_count(q, k) == key_count(pairs_insert(ps.drop_first(), k, v), k));
        assert(key_count(ps, k) == key_count(ps.drop_first(), k));
    }
}


/// After an insert, the inserted key is looked up as exactly the new
/// value, and every other key is looked up as before.
pub proof fn lemma_pairs_insert_lookup<V>(ps: Seq<(Seq<char>, V)>, k: Seq<char>, v: V, q: Seq<
    char,
>)
    ensures
        pairs_lookup(pairs_insert(ps, k, v), k) == Some(v),
        q != k ==> pairs_lookup(pairs_insert(ps, k, v), q) == pairs_lookup(ps, q),
    decreases ps.len(),
{
    let ins = pairs_insert(ps, k, v);
    if ps.len() == 0 {
        assert(ins =~= seq![(k, v)]);
        assert(ins.drop_first() =~= Seq::<(Seq<char>, V)>::empty());
        if q != k {
            assert(pairs_lookup(ins, q) == pairs_lookup(ins.drop_first(), q));
            assert(pairs_lookup(Seq::<(Seq<char>, V)>::empty(), q) is None);
        }
    } else if ps[0].0 == k {
        assert(ins.drop_first() =~= ps.drop_first());
        if q != k {
            assert(pairs_lookup(ins, q) == pairs_lookup(ps.drop_first(), q));
            assert(pairs_lookup(ps, q) == pairs_lookup(ps.drop_first(), q));
        }
    } else {
        lemma_pairs_insert_lookup(ps.drop_first(), k, v, q);
        assert(ins[0] == ps[0]);
        assert(ins.drop_first() =~= pairs_insert(ps.drop_first(), k, v));
        if q != k && ps[0].0 != q {
            assert(pairs_lookup(ins, q) == pairs_lookup(ins.drop_first(), q));
            assert(pairs_lookup(ps, q) == pairs_lookup(ps.drop_first(), q));
        }
    }
}

/// The key-value accumulator. Its view is the pair list it holds, each name
/// and value as a character sequence, in insertion order.
pub struct Params {
    entries: Vec<(String, String)>,
}

impl View for Params {
    type V = Seq<(Seq<char>, Seq<char>)>;

    closed spec fn view(&self) -> Seq<(Seq<char>, Seq<char>)> {
        self.entries.deep_view()
    }
}

impl Params {
    /// An accumulator with no pairs.
    pub fn new() -> (r: Params)
        ensures
            r@ == Seq::<(Seq<char>, Seq<char>)>::empty(),
    {
        let r = Params { entries: Vec::new() };
        proof {
            assert(r@ =~= Seq::<(Seq<char>, Seq<char>)>::empty());
        }
        r
    }

    /// Whether no pair has been inserted.
    pub fn is_empty(&self) -> (r: bool)
        ensures
            r == (self@.len() == 0),
    {
        proof {
            assert(self@.len() == self.entries@.len());
        }
        self.entries.len() == 0
    }

    /// Insert `(k, v)`, replacing the value of an existing key in place and
    /// appending a fresh key at the end.
    pub fn insert(&mut self, k: &str, v: String)
        ensures
            final(self)@ == pairs_insert(old(self)@, k@, v@),
    {
        let ghost orig = self.entries.deep_view();
        let mut i: usize = 0;
        while i < self.entries.len()
            invariant
                i <= self.entries@.len(),
                orig == old(self)@,
                self.entries.deep_view() == orig,
                forall|j: int| 0 <= j < i ==> #[trigger] orig[j].0 != k@,
            decreases self.entries@.len() - i,
        {
            let same = {
                let pair = &self.entries[i];
                str_eq(pair.0.as_str(), k)
            };
            if same {
                self.entries.set(i, (k.to_owned(), v));
                proof {
                    assert(self.entries.deep_view() =~= orig.update(i as int, (k@, v@)));
                    lemma_insert_found(orig, k@, v@, i as int);
                }
                return ;
            }
            i += 1;
        }
        self.entries.push((k.to_owned(), v));
        proof {
            assert(self.entries.deep_view() =~= orig.push((k@, v@)));
            lemma_insert_missing(orig, k@, v@);
        }
    }

    /// Render the pairs as one `application/x-www-form-urlencoded` string.
    pub fn encoded(&self) -> (r: String)
        ensures
            r@ == form_encoded(self@),
    {
        encode_pairs(&self.entries)
    }
}

/// When the first `i` keys differ from `k` and the key at `i` is `k`,
/// inserting `(k, v)` replaces the pair at `i` and nothing else.
pub proof fn lemma_insert_found<V>(ps: Seq<(Seq<char>, V)>, k: Seq<char>, v: V, i: int)
    requires
        0 <= i < ps.len(),
        forall|j: int| 0 <= j < i ==> #[trigger] ps[j].0 != k,
        ps[i].0 == k,
    ensures
        pairs_insert(ps, k, v) == ps.update(i, (k, v)),
    decreases i,
{
    if i == 0 {
        assert(pairs_insert(ps, k, v) =~= ps.update(0, (k, v)));
    } else {
        assert(ps.drop_first()[i - 1].0 == k);
        assert(forall|j: int| 0 <= j < i - 1 ==> #[trigger] ps.drop_first()[j].0 != k);
        lemma_insert_found(ps.drop_first(), k, v, i - 1);
        assert(pairs_insert(ps, k, v) =~= ps.update(i, (k, v)));
    }
}

/// When no key equals `k`, inserting `(k, v)` appends the pair.
pub proof fn lemma_insert_missing<V>(ps: Seq<(Seq<char>, V)>, k: Seq<char>, v: V)
    requires
        forall|j: int| 0 <= j < ps.len() ==> #[trigger] ps[j].0 != k,
    ensures
        pairs_insert(ps, k, v) == ps.push((k, v)),
    decreases ps.len(),
{
    if ps.len() == 0 {
        assert(pairs_insert(ps, k, v) =~= ps.push((k, v)));
    } else {
        assert(forall|j: int|
            0 <= j < ps.drop_first().len() ==> #[trigger] ps.drop_first()[j].0 != k);
        lemma_insert_missing(ps.drop_first(), k, v);
        assert(pairs_insert(ps, k, v) =~= ps.push((k, v)));
    }
}

/// Character-for-character string equality.
pub fn str_eq(a: &str, b: &str) -> (r: bool)
    ensures
        r == (a@ == b@),
{
    let x = a.to_owned();
    let y = b.to_owned();
    x == y
}


/// The value of the first pair of `ps` whose key is `k`.
pub open spec fn pairs_lookup<V>(ps: Seq<(Seq<char>, V)>, k: Seq<char>) -> Option<V>
    decreases ps.len(),
{
    if ps.len() == 0 {
        None
    } else if ps[0].0 == k {
        Some(ps[0].1)
    } else {
        pairs_lookup(ps.drop_first(), k)
    }
}

impl Params {
    /// The value of the first pair named `k`, when one is held.
    #[verifier::loop_isolation(false)]
    pub fn get(&self, k: &str) -> (r: Option<&String>)
        ensures
            r is Some <==> pairs_lookup(self@, k@) is Some,
            r matches Some(v) ==> pairs_lookup(self@, k@) == Some(v@),
    {
        let ghost ps = self@;
        proof {
            assert(ps.skip(0) =~= ps);
        }
        let n = self.entries.len();
        proof {
            assert(ps.len() == self.entries@.len());
        }
        let mut i: usize = 0;
        while i < n
            invariant
                i <= n,
                pairs_lookup(ps.skip(i as int), k@) == pairs_lookup(ps, k@),
            decreases n - i,
        {
            let hit = {
                let pair = &self.entries[i];
                str_eq(pair.0.as_str(), k)
            };
            proof {
                assert(ps.skip(i as int)[0] == ps[i as int]);
                assert(ps.skip(i as int).drop_first() =~= ps.skip(i as int + 1));
            }
            if hit {
                proof {
                    assert(pairs_lookup(ps.skip(i as int), k@) == Some(ps[i as int].1));
                }
                return Some(&self.entries[i].1);
            }
            i += 1;
        }
        proof {
            assert(ps.skip(n as int) =~= Seq::<(Seq<char>, Seq<char>)>::empty());
            assert(pairs_lookup(ps.skip(n as int), k@) is None);
        }
        None
    }
}


impl Clone for Params {
    /// A copy that holds the same pairs.
    #[verifier::loop_isolation(false)]
    fn clone(&self) -> (r: Self)
        ensures
            r@ == self@,
    {
        let mut entries: Vec<(String, String)> = Vec::new();
        let n = self.entries.len();
        proof {
            assert(entries.deep_view() =~= self.entries.deep_view().subrange(0, 0));
        }
        let mut i: usize = 0;
        while i < n
            invariant
                i <= n,
                entries.deep_view() == self.entries.deep_view().subrange(0, i as int),
            decreases n - i,
        {
            let p = &self.entries[i];
            entries.push((p.0.clone(), p.1.clone()));
            proof {
                assert(entries.deep_view() =~= self.entries.deep_view().subrange(
                    0,
                    i as int + 1,
                ));
            }
            i += 1;
        }
        proof {
            assert(self.entries.deep_view().subrange(0, n as int) =~= self.entries.deep_view());
        }
        Params { entries }
    }
}


impl Params {
    /// How many pairs carry the key `k`.
    #[verifier::loop_isolation(false)]
    pub fn key_occurrences(&self, k: &str) -> (r: usize)
        ensures
            r as nat == key_count(self@, k@),
    {
        let ghost ps = self@;
        proof {
            assert(ps.skip(0) =~= ps);
        }
        let n = self.entries.len();
        proof {
            assert(ps.len() == self.entries@.len());
        }
        let mut acc: usize = 0;
        let mut i: usize = 0;
        while i < n
            invariant
                i <= n,
                acc <= i,
                acc as nat + key_count(ps.skip(i as int), k@) == key_count(ps, k@),
            decreases n - i,
        {
            let hit = {
                let pair = &self.entries[i];
                str_eq(pair.0.as_str(), k)
            };
            proof {
                assert(ps.skip(i as int)[0] == ps[i as int]);
                assert(ps.skip(i as int).drop_first() =~= ps.skip(i as int + 1));
            }
            if hit {
                acc += 1;
            }
            i += 1;
        }
        proof {
            assert(ps.skip(n as int) =~= Seq::<(Seq<char>, Seq<char>)>::empty());
        }
        acc
    }
}

} // verus!
