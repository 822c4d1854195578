use crate::errors::Error;
use crate::id::{parse_id, Id};
use lru::LruCache;
use std::num::NonZeroUsize;
use vstd::prelude::*;
use vstd::string::*;

verus! {

/// `lru::LruCache`, held opaquely.
#[verifier::external_type_specification]
#[verifier::external_body]
#[verifier::reject_recursive_types(K)]
#[verifier::reject_recursive_types(V)]
#[verifier::reject_recursive_types(S)]
pub struct ExLruCache<K, V, S>(LruCache<K, V, S>);

/// The hasher that `lru::LruCache` uses by default.
#[verifier::external_type_specification]
#[verifier::external_body]
pub struct ExLruHasher(lru::DefaultHasher);

/// Rendered views by (identifier value, format).
pub type Views = Map<(u32, Seq<char>), Seq<char>>;

/// The key-value pairs that an LRU cache of rendered views holds.
pub uninterp spec fn lru_contents(c: LruCache<(u32, String), String>) -> Map<(u32, Seq<char>), Seq<char>>;

/// The capacity that an LRU cache of rendered views was made with.
pub uninterp spec fn lru_capacity(c: LruCache<(u32, String), String>) -> nat;

/// The keys of an LRU cache of rendered views, most recently used first.
pub uninterp spec fn lru_order(c: LruCache<(u32, String), String>) -> Seq<(u32, Seq<char>)>;

/// `order` with `k` moved (or added) to the front.
pub open spec fn touched(order: Seq<(u32, Seq<char>)>, k: (u32, Seq<char>)) -> Seq<(u32, Seq<char>)> {
    seq![k] + order.filter(|x: (u32, Seq<char>)| x != k)
}

/// Relies on `LruCache::new`: an empty cache holding at most `cap` items.
#[verifier::external_body]
fn lru_new(cap: usize) -> (r: LruCache<(u32, String), String>)
    requires
        cap > 0,
    ensures
        lru_contents(r) == Views::empty(),
        lru_capacity(r) == cap,
        lru_order(r).len() == 0,
{
    LruCache::new(NonZeroUsize::new(cap).unwrap())
}

/// Relies on `LruCache::get`: the value under `k`, if any; only the recency
/// order changes.
#[verifier::external_body]
fn lru_get(c: &mut LruCache<(u32, String), String>, k: &(u32, String)) -> (r: Option<String>)
    ensures
        lru_contents(*final(c)) == lru_contents(*old(c)),
        lru_capacity(*final(c)) == lru_capacity(*old(c)),
        r is Some <==> lru_contents(*old(c)).contains_key(k@),
        r matches Some(v) ==> v@ == lru_contents(*old(c))[k@],
        r is Some ==> lru_order(*final(c)) == touched(lru_order(*old(c)), k@),
        r is None ==> lru_order(*final(c)) == lru_order(*old(c)),
{
    c.get(k).cloned()
}

/// Relies on `LruCache::peek`: the value under `k`, if any, without touching
/// the recency order.
#[verifier::external_body]
fn lru_peek(c: &LruCache<(u32, String), String>, k: &(u32, String)) -> (r: Option<String>)
    ensures
        r is Some <==> lru_contents(*c).contains_key(k@),
        r matches Some(v) ==> v@ == lru_contents(*c)[k@],
{
    c.peek(k).cloned()
}

/// Relies on `LruCache::put`: the pair is stored and its key becomes the most
/// recently used; when the key is new and the cache is full, the pair of the
/// least recently used key leaves.
#[verifier::external_body]
fn lru_put(c: &mut LruCache<(u32, String), String>, k: (u32, String), v: String)
    ensures
        lru_capacity(*final(c)) == lru_capacity(*old(c)),
        lru_contents(*old(c)).contains_key(k@) || lru_contents(*old(c)).len() < lru_capacity(*old(c))
            ==> lru_contents(*final(c)) == lru_contents(*old(c)).insert(k@, v@)
            && lru_order(*final(c)) == touched(lru_order(*old(c)), k@),
        !lru_contents(*old(c)).contains_key(k@) && lru_contents(*old(c)).len() >= lru_capacity(*old(c))
            ==> exists|e: (u32, Seq<char>)|
            lru_contents(*old(c)).contains_key(e) && e != k@ && e == lru_order(*old(c)).last()
                && lru_contents(*final(c)) == lru_contents(*old(c)).remove(e).insert(k@, v@)
                && lru_order(*final(c)) == seq![k@] + lru_order(*old(c)).drop_last(),
{
    c.put(k, v);
}

/// Whether `i` is the position of the first '.' in `s`.
pub open spec fn is_first_dot(s: Seq<char>, i: int) -> bool {
    &&& 0 <= i < s.len()
    &&& s[i] == '.'
    &&& forall|j: int| 0 <= j < i ==> s[j] != '.'
}

/// Position of the first '.' in `s`, if any.
fn first_dot(s: &str) -> (r: Option<usize>)
    ensures
        r is None <==> !s@.contains('.'),
        r matches Some(i) ==> is_first_dot(s@, i as int),
{
    let n = s.unicode_len();
    let mut i: usize = 0;
    while i < n
        invariant
            n == s@.len(),
            i <= n,
            forall|j: int| 0 <= j < i ==> s@[j] != '.',
        decreases n - i,
    {
        if s.get_char(i) == '.' {
            return Some(i);
        }
        i = i + 1;
    }
    None
}

/// The format of a key text that names none.
pub open spec fn default_ext() -> Seq<char> {
    "txt"@
}

/// What parsing the key text `s` gives: identifier value and format.
pub open spec fn parse_key(s: Seq<char>) -> Result<(u32, Seq<char>), Error> {
    if s.contains('.') {
        let i = choose|i: int| is_first_dot(s, i);
        match parse_id(s.take(i)) {
            Ok(n) => Ok((n, s.skip(i + 1))),
            Err(e) => Err(e),
        }
    } else {
        match parse_id(s) {
            Ok(n) => Ok((n, default_ext())),
            Err(e) => Err(e),
        }
    }
}

/// Names one rendered view: an entry and an output format.
#[derive(Debug, Clone, PartialEq, Eq, Hash)]
pub struct CacheKey {
    pub id: Id,
    pub ext: String,
}

impl View for CacheKey {
    type V = (u32, Seq<char>);

    open spec fn view(&self) -> (u32, Seq<char>) {
        (self.id.n, self.ext@)
    }
}

impl CacheKey {
    /// The text form of the identifier.
    pub fn id(&self) -> (r: String)
        ensures
            r@ == crate::id::encode_id(self.id.n),
    {
        self.id.to_string()
    }

    /// Parses `"<id>"` or `"<id>.<ext>"`; the format defaults to `txt`.
    pub fn from_str(value: &str) -> (r: Result<CacheKey, Error>)
        ensures
            r matches Ok(k) ==> parse_key(value@) == Ok::<(u32, Seq<char>), Error>(k@),
            r matches Err(e) ==> parse_key(value@) == Err::<(u32, Seq<char>), Error>(e),
    {
        match first_dot(value) {
            None => {
                let id = Id::parse(value)?;
                let ext = String::from_str("txt");
                proof {
                    reveal_strlit("txt");
                }
                Ok(CacheKey { id, ext })
            },
            Some(i) => {
                let n = value.unicode_len();
                let head = value.substring_char(0, i);
                let tail = value.substring_char(i + 1, n);
                proof {
                    let j = choose|j: int| is_first_dot(value@, j);
                    assert(i == j);
                    assert(head@ =~= value@.take(i as int));
                    assert(tail@ =~= value@.skip(i + 1));
                }
                let id = Id::parse(head)?;
                let ext = String::from_str(tail);
                Ok(CacheKey { id, ext })
            },
        }
    }
}

/// A bounded least-recently-used cache of rendered views.
pub struct Cache {
    lru: LruCache<(u32, String), String>,
}

impl View for Cache {
    type V = Map<(u32, Seq<char>), Seq<char>>;

    closed spec fn view(&self) -> Map<(u32, Seq<char>), Seq<char>> {
        lru_contents(self.lru)
    }
}

impl Cache {
    /// The number of views the cache holds at most.
    pub closed spec fn capacity(&self) -> nat {
        lru_capacity(self.lru)
    }

    /// Keys of the views held, most recently used first.
    pub closed spec fn recency(&self) -> Seq<(u32, Seq<char>)> {
        lru_order(self.lru)
    }

    /// The cache holds finitely many views, no more than its capacity.
    pub open spec fn wf(&self) -> bool {
        &&& self@.dom().finite()
        &&& self@.len() <= self.capacity()
        &&& self.capacity() > 0
    }

    /// An empty cache for at most `cap` views.
    pub fn new(cap: usize) -> (r: Cache)
        requires
            cap > 0,
        ensures
            r.wf(),
            r@ == Views::empty(),
            r.capacity() == cap,
            r.recency().len() == 0,
    {
        Cache { lru: lru_new(cap) }
    }

    /// The view stored under `key`, marking it most recently used.
    pub fn get(&mut self, key: &CacheKey) -> (r: Option<String>)
        ensures
            final(self)@ == old(self)@,
            final(self).capacity() == old(self).capacity(),
            r is Some <==> old(self)@.contains_key(key@),
            r matches Some(v) ==> v@ == old(self)@[key@],
            r is Some ==> final(self).recency() == touched(old(self).recency(), key@),
            r is None ==> final(self).recency() == old(self).recency(),
    {
        let k = (key.id.n, key.ext.clone());
        lru_get(&mut self.lru, &k)
    }

    /// The view stored under `key`, leaving the recency order alone.
    pub fn peek(&self, key: &CacheKey) -> (r: Option<String>)
        ensures
            r is Some <==> self@.contains_key(key@),
            r matches Some(v) ==> v@ == self@[key@],
    {
        let k = (key.id.n, key.ext.clone());
        lru_peek(&self.lru, &k)
    }

    /// Stores `html` under `key`; a full cache drops one other view to make room.
    pub fn put(&mut self, key: &CacheKey, html: String)
        requires
            old(self).wf(),
        ensures
            final(self).wf(),
            final(self).capacity() == old(self).capacity(),
            final(self)@.contains_key(key@),
            final(self)@[key@] == html@,
            forall|k: (u32, Seq<char>)|
                #[trigger] final(self)@.contains_key(k) && k != key@ ==> old(self)@.contains_key(k)
                    && final(self)@[k] == old(self)@[k],
            old(self)@.contains_key(key@) || old(self)@.len() < old(self).capacity()
                ==> final(self)@ == old(self)@.insert(key@, html@) && final(self).recency() == touched(
                old(self).recency(),
                key@,
            ),
            !old(self)@.contains_key(key@) && old(self)@.len() >= old(self).capacity() ==> final(self)@
                == old(self)@.remove(old(self).recency().last()).insert(key@, html@)
                && final(self).recency() == seq![key@] + old(self).recency().drop_last(),
            old(self)@.contains_key(key@) ==> final(self)@.len() == old(self)@.len(),
            !old(self)@.contains_key(key@) ==> final(self)@.len() == if old(self)@.len()
                < old(self).capacity() {
                old(self)@.len() + 1
            } else {
                old(self)@.len()
            },
    {
        let k = (key.id.n, key.ext.clone());
        lru_put(&mut self.lru, k, html);
        proof {
            if !old(self)@.contains_key(key@) && old(self)@.len() >= old(self).capacity() {
                let e = choose|e: (u32, Seq<char>)|
                    old(self)@.contains_key(e) && e != key@ && self@ == old(self)@.remove(e).insert(
                        key@,
                        html@,
                    );
                assert(old(self)@.remove(e).len() == old(self)@.len() - 1);
            }
        }
    }
}

} // verus!
