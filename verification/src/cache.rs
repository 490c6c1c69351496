//! DraftCache: a TTL-backed key/value store of priced-but-unconfirmed
//! itineraries, keyed by a generated identifier.
//!
//! [`DraftCache`] is the verified model of the backing store's contract:
//! an atomic insert-if-absent, an expiry attached in the same logical
//! step, and lookups that treat expired keys as absent.  The network
//! backend speaks the same protocol; the reply-classification functions
//! at the bottom of this module make the same decisions for it.

use vstd::prelude::*;
use vstd::pervasive::VecAdditionalExecFns;

use crate::types::Itinerary;

verus! {

/// How long a draft itinerary stays alive after it is stored, in
/// milliseconds (120 s).
pub const DRAFT_TTL_MS: i64 = 120_000;

/// How many generated identifiers a put tries before giving up.
pub const MAX_PUT_ATTEMPTS: usize = 3;

/// Errors of cache operations.
#[derive(Debug, Clone, Copy, PartialEq, Eq, Structural)]
pub enum CacheError {
    /// Could not create pool
    CouldNotCreatePool,
    /// Pool was not available
    PoolUnavailable,
    /// Could not build configuration for cache.
    CouldNotConfigure,
    /// Could not connect to the cache.
    CouldNotConnect,
    /// Key was not found
    NotFound,
    /// The operation on the cache failed.
    OperationFailed,
    /// Invalid Value Retrieved
    InvalidValue,
    /// Unexpected Response
    Unexpected,
    /// KeyCollision
    KeyCollision,
}

impl CacheError {
    /// The text of the error.
    pub open spec fn text_spec(self) -> Seq<char> {
        match self {
            CacheError::CouldNotCreatePool => "Could not create pool."@,
            CacheError::PoolUnavailable => "Pool is unavailable."@,
            CacheError::CouldNotConfigure => "Could not configure cache."@,
            CacheError::CouldNotConnect => "Could not connect to cache."@,
            CacheError::NotFound => "Key was not found."@,
            CacheError::OperationFailed => "Cache operation failed."@,
            CacheError::InvalidValue => "Invalid value retrieved."@,
            CacheError::Unexpected => "Unexpected response."@,
            CacheError::KeyCollision => "Key collision."@,
        }
    }

    /// A human-readable description of the error.
    pub fn to_text(&self) -> (r: String)
        ensures
            r@ == self.text_spec(),
    {
        match self {
            CacheError::CouldNotCreatePool => "Could not create pool.".to_owned(),
            CacheError::PoolUnavailable => "Pool is unavailable.".to_owned(),
            CacheError::CouldNotConfigure => "Could not configure cache.".to_owned(),
            CacheError::CouldNotConnect => "Could not connect to cache.".to_owned(),
            CacheError::NotFound => "Key was not found.".to_owned(),
            CacheError::OperationFailed => "Cache operation failed.".to_owned(),
            CacheError::InvalidValue => "Invalid value retrieved.".to_owned(),
            CacheError::Unexpected => "Unexpected response.".to_owned(),
            CacheError::KeyCollision => "Key collision.".to_owned(),
        }
    }
}

/// Relies on uuid::Uuid::new_v4: a freshly generated random identifier.
/// Nothing is promised of the value; callers treat collisions as possible.
#[verifier::external_body]
pub fn new_draft_id() -> (r: String) {
    uuid::Uuid::new_v4().to_string()
}

/// One stored draft: its key, its itinerary, and the instant it expires
/// (`None` until an expiry has been attached).
#[derive(Debug)]
pub struct CacheEntry {
    /// The key the draft is stored under
    pub key: String,
    /// The stored itinerary
    pub value: Itinerary,
    /// When the entry expires, milliseconds since the Unix epoch
    pub expiry_ms: Option<i64>,
}

/// Whether an entry is still alive at clock reading `now_ms`.
pub open spec fn entry_live(e: CacheEntry, now_ms: int) -> bool {
    match e.expiry_ms {
        None => true,
        Some(t) => now_ms < t,
    }
}

/// The first entry of `s` stored under key `k`, if any.
pub open spec fn lookup(s: Seq<CacheEntry>, k: Seq<char>) -> Option<CacheEntry>
    decreases s.len(),
{
    if s.len() == 0 {
        None
    } else if s[0].key@ == k {
        Some(s[0])
    } else {
        lookup(s.skip(1), k)
    }
}

proof fn lemma_lookup_absent(s: Seq<CacheEntry>, k: Seq<char>)
    ensures
        lookup(s, k) is None <==> (forall|i: int| 0 <= i < s.len() ==> s[i].key@ != k),
    decreases s.len(),
{
    if s.len() > 0 {
        lemma_lookup_absent(s.skip(1), k);
        if lookup(s, k) is None {
            assert forall|i: int| 0 <= i < s.len() implies s[i].key@ != k by {
                if i > 0 {
                    assert(s.skip(1)[i - 1] == s[i]);
                }
            }
        } else {
            if s[0].key@ == k {
                assert(s[0].key@ == k);
            } else {
                let j = choose|j: int| 0 <= j < s.skip(1).len() && s.skip(1)[j].key@ == k;
                assert(s.skip(1)[j] == s[j + 1]);
            }
        }
    }
}

proof fn lemma_lookup_found(s: Seq<CacheEntry>, k: Seq<char>, i: int)
    requires
        0 <= i < s.len(),
        s[i].key@ == k,
        forall|j: int| 0 <= j < i ==> s[j].key@ != k,
    ensures
        lookup(s, k) == Some(s[i]),
    decreases s.len(),
{
    if i > 0 {
        assert(s.skip(1)[i - 1] == s[i]);
        assert(forall|j: int| 0 <= j < s.skip(1).len() ==> s.skip(1)[j] == s[j + 1]);
        lemma_lookup_found(s.skip(1), k, i - 1);
    }
}

proof fn lemma_lookup_push(s: Seq<CacheEntry>, e: CacheEntry, k: Seq<char>)
    ensures
        lookup(s.push(e), k) == (match lookup(s, k) {
            Some(x) => Some(x),
            None => if e.key@ == k {
                Some(e)
            } else {
                None::<CacheEntry>
            },
        }),
    decreases s.len(),
{
    if s.len() == 0 {
        assert(s.push(e)[0] == e);
        assert(s.push(e).skip(1) =~= Seq::<CacheEntry>::empty());
    } else {
        assert(s.push(e)[0] == s[0]);
        assert(s.push(e).skip(1) =~= s.skip(1).push(e));
        lemma_lookup_push(s.skip(1), e, k);
    }
}

proof fn lemma_lookup_update(s: Seq<CacheEntry>, i: int, e: CacheEntry, k: Seq<char>)
    requires
        0 <= i < s.len(),
        e.key@ == s[i].key@,
        forall|j: int| 0 <= j < s.len() && j != i ==> s[j].key@ != s[i].key@,
    ensures
        lookup(s.update(i, e), k) == if k == s[i].key@ {
            Some(e)
        } else {
            lookup(s, k)
        },
    decreases s.len(),
{
    if i == 0 {
        assert(s.update(0, e)[0] == e);
        assert(s.update(0, e).skip(1) =~= s.skip(1));
    } else {
        assert(s.update(i, e)[0] == s[0]);
        assert(s.update(i, e).skip(1) =~= s.skip(1).update(i - 1, e));
        assert(forall|j: int| 0 <= j < s.skip(1).len() ==> s.skip(1)[j] == s[j + 1]);
        lemma_lookup_update(s.skip(1), i - 1, e, k);
    }
}

/// The store of draft itineraries.
pub struct DraftCache {
    entries: Vec<CacheEntry>,
}

impl View for DraftCache {
    type V = Seq<CacheEntry>;

    closed spec fn view(&self) -> Seq<CacheEntry> {
        self.entries@
    }
}

impl DraftCache {
    /// Every key is stored at most once.
    pub open spec fn wf(self) -> bool {
        forall|i: int, j: int| 0 <= i < j < self@.len() ==> self@[i].key@ != self@[j].key@
    }

    /// The entry stored under key `k`, if any (live or expired).
    pub open spec fn stored_entry(self, k: Seq<char>) -> Option<CacheEntry> {
        lookup(self@, k)
    }

    /// Whether some entry (live or expired) is stored under key `k`.
    pub open spec fn has_key(self, k: Seq<char>) -> bool {
        self.stored_entry(k) is Some
    }

    /// Whether a live draft is stored under key `k` at clock reading `now_ms`.
    pub open spec fn has_live(self, k: Seq<char>, now_ms: int) -> bool {
        match self.stored_entry(k) {
            Some(e) => entry_live(e, now_ms),
            None => false,
        }
    }

    /// The itinerary stored under key `k`.
    pub open spec fn stored_value(self, k: Seq<char>) -> Itinerary
        recommends
            self.has_key(k),
    {
        self.stored_entry(k)->Some_0.value
    }

    /// The expiry attached to the entry under key `k`.
    pub open spec fn stored_expiry(self, k: Seq<char>) -> Option<i64>
        recommends
            self.has_key(k),
    {
        self.stored_entry(k)->Some_0.expiry_ms
    }

    /// Every key but `k` is stored exactly as before.
    pub open spec fn unchanged_except(pre: DraftCache, post: DraftCache, k: Seq<char>) -> bool {
        forall|k2: Seq<char>| k2 != k ==> post.stored_entry(k2) == pre.stored_entry(k2)
    }

    /// An empty cache.
    pub fn new() -> (r: Self)
        ensures
            r.wf(),
            r@.len() == 0,
    {
        DraftCache { entries: Vec::new() }
    }

    /// The index of the entry stored under `key`, if any.
    fn find_index(&self, key: &String) -> (r: Option<usize>)
        ensures
            match r {
                Some(i) => i < self@.len() && self@[i as int].key@ == key@
                    && self.stored_entry(key@) == Some(self@[i as int]),
                None => !self.has_key(key@),
            },
    {
        let n: usize = self.entries.len();
        let mut i: usize = 0;
        while i < n
            invariant
                n == self@.len(),
                i <= n,
                forall|j: int| 0 <= j < i ==> self@[j].key@ != key@,
            decreases n - i,
        {
            if self.entries[i].key.eq(key) {
                proof {
                    lemma_lookup_found(self@, key@, i as int);
                }
                return Some(i);
            }
            i += 1;
        }
        proof {
            lemma_lookup_absent(self@, key@);
        }
        None
    }

    /// Atomic insert-if-absent: stores `value` under `key` unless a live
    /// draft already sits there.  An expired entry under the same key is
    /// overwritten, as the backing store would have dropped it.  On
    /// collision the value is handed back unchanged.
    pub fn insert_if_absent(&mut self, key: String, value: Itinerary, now_ms: i64) -> (r: Option<
        Itinerary,
    >)
        requires
            old(self).wf(),
        ensures
            final(self).wf(),
            r is Some <==> old(self).has_live(key@, now_ms as int),
            match r {
                Some(v) => v == value && *final(self) == *old(self),
                None => ({
                    &&& final(self).stored_entry(key@) == Some(
                        (CacheEntry { key: key, value: value, expiry_ms: None::<i64> }),
                    )
                    &&& DraftCache::unchanged_except(*old(self), *final(self), key@)
                }),
            },
    {
        let ghost pre = self@;
        match self.find_index(&key) {
            Some(i) => {
                let live: bool = match self.entries[i].expiry_ms {
                    None => true,
                    Some(t) => now_ms < t,
                };
                if live {
                    Some(value)
                } else {
                    let e = CacheEntry { key, value, expiry_ms: None };
                    proof {
                        assert forall|k2: Seq<char>|
                            k2 != pre[i as int].key@ implies lookup(pre.update(i as int, e), k2)
                            == lookup(pre, k2) by {
                            lemma_lookup_update(pre, i as int, e, k2);
                        }
                        lemma_lookup_update(pre, i as int, e, pre[i as int].key@);
                    }
                    self.entries.set(i, e);
                    proof {
                        assert forall|a: int, b: int|
                            0 <= a < b < self@.len() implies self@[a].key@ != self@[b].key@ by {
                            assert(pre[a].key@ != pre[b].key@);
                        }
                    }
                    None
                }
            },
            None => {
                let e = CacheEntry { key, value, expiry_ms: None };
                proof {
                    lemma_lookup_absent(pre, e.key@);
                    assert forall|k2: Seq<char>| k2 != e.key@ implies lookup(pre.push(e), k2)
                        == lookup(pre, k2) by {
                        lemma_lookup_push(pre, e, k2);
                    }
                    lemma_lookup_push(pre, e, e.key@);
                }
                self.entries.push(e);
                proof {
                    assert forall|a: int, b: int|
                        0 <= a < b < self@.len() implies self@[a].key@ != self@[b].key@ by {
                        if b < pre.len() {
                            assert(pre[a].key@ != pre[b].key@);
                        } else {
                            assert(self@[b] == e);
                            assert(pre[a].key@ != e.key@);
                        }
                    }
                }
                None
            },
        }
    }

    /// Attaches an expiry instant to the entry under `key`, if one is
    /// stored; reports whether the key was found.
    pub fn set_expiry(&mut self, key: &String, expiry_ms: i64) -> (r: bool)
        requires
            old(self).wf(),
        ensures
            final(self).wf(),
            r == old(self).has_key(key@),
            r ==> ({
                &&& final(self).stored_entry(key@) == Some(
                    (CacheEntry {
                        key: old(self).stored_entry(key@)->Some_0.key,
                        value: old(self).stored_entry(key@)->Some_0.value,
                        expiry_ms: Some(expiry_ms),
                    }),
                )
                &&& DraftCache::unchanged_except(*old(self), *final(self), key@)
            }),
            !r ==> *final(self) == *old(self),
    {
        let ghost pre = self@;
        match self.find_index(key) {
            Some(i) => {
                let mut taken = CacheEntry {
                    key: String::new(),
                    value: Itinerary::default(),
                    expiry_ms: None,
                };
                self.entries.set_and_swap(i, &mut taken);
                taken.expiry_ms = Some(expiry_ms);
                let ghost e = taken;
                proof {
                    assert(e == (CacheEntry {
                        key: pre[i as int].key,
                        value: pre[i as int].value,
                        expiry_ms: Some(expiry_ms),
                    }));
                    assert forall|k2: Seq<char>|
                        k2 != pre[i as int].key@ implies lookup(pre.update(i as int, e), k2)
                        == lookup(pre, k2) by {
                        lemma_lookup_update(pre, i as int, e, k2);
                    }
                    lemma_lookup_update(pre, i as int, e, pre[i as int].key@);
                }
                self.entries.set(i, taken);
                proof {
                    assert(self@ =~= pre.update(i as int, e));
                    assert forall|a: int, b: int|
                        0 <= a < b < self@.len() implies self@[a].key@ != self@[b].key@ by {
                        assert(pre[a].key@ != pre[b].key@);
                    }
                }
                true
            },
            None => false,
        }
    }

    /// Looks up the draft stored under `itinerary_id`.  Returns
    /// `NotFound` when the key is absent or the draft has expired.
    pub fn get_itinerary<'a>(&'a self, itinerary_id: &String, now_ms: i64) -> (r: Result<
        &'a Itinerary,
        CacheError,
    >)
        ensures
            r is Ok <==> self.has_live(itinerary_id@, now_ms as int),
            match r {
                Ok(v) => *v == self.stored_value(itinerary_id@),
                Err(e) => e == CacheError::NotFound,
            },
    {
        match self.find_index(itinerary_id) {
            Some(i) => {
                let live: bool = match self.entries[i].expiry_ms {
                    None => true,
                    Some(t) => now_ms < t,
                };
                if live {
                    Ok(&self.entries[i].value)
                } else {
                    Err(CacheError::NotFound)
                }
            },
            None => Err(CacheError::NotFound),
        }
    }

    /// The first attempt index at or after `i` (within the retry bound)
    /// whose candidate id does not collide with a live draft, or
    /// `MAX_PUT_ATTEMPTS` when every attempt collides.
    pub open spec fn first_free_from(self, ids: Seq<String>, now_ms: int, i: int) -> int
        decreases MAX_PUT_ATTEMPTS as int - i,
    {
        if i < 0 || i >= MAX_PUT_ATTEMPTS as int {
            MAX_PUT_ATTEMPTS as int
        } else if !self.has_live(ids[i]@, now_ms) {
            i
        } else {
            self.first_free_from(ids, now_ms, i + 1)
        }
    }

    /// Stores a draft under the first non-colliding candidate id, trying
    /// at most [`MAX_PUT_ATTEMPTS`] of them in order; the expiry is
    /// attached in the same logical step.  When every candidate collides
    /// with a live draft the put fails with `OperationFailed` and the
    /// store is untouched — never a silent overwrite.
    pub fn put_with_ids(
        &mut self,
        itinerary: Itinerary,
        candidate_ids: &Vec<String>,
        now_ms: i64,
    ) -> (r: Result<String, CacheError>)
        requires
            old(self).wf(),
            candidate_ids@.len() >= MAX_PUT_ATTEMPTS,
            now_ms <= i64::MAX - DRAFT_TTL_MS,
        ensures
            final(self).wf(),
            ({
                let j = old(self).first_free_from(candidate_ids@, now_ms as int, 0);
                match r {
                    Ok(id) => {
                        &&& j < MAX_PUT_ATTEMPTS
                        &&& id@ == candidate_ids@[j]@
                        &&& final(self).has_live(id@, now_ms as int)
                        &&& final(self).stored_value(id@) == itinerary
                        &&& final(self).stored_expiry(id@) == Some((now_ms + DRAFT_TTL_MS) as i64)
                        &&& DraftCache::unchanged_except(*old(self), *final(self), id@)
                    },
                    Err(e) => {
                        &&& j == MAX_PUT_ATTEMPTS
                        &&& e == CacheError::OperationFailed
                        &&& *final(self) == *old(self)
                    },
                }
            }),
    {
        let mut i: usize = 0;
        let mut value = itinerary;
        while i < MAX_PUT_ATTEMPTS
            invariant
                i <= MAX_PUT_ATTEMPTS,
                *self == *old(self),
                value == itinerary,
                candidate_ids@.len() >= MAX_PUT_ATTEMPTS,
                now_ms <= i64::MAX - DRAFT_TTL_MS,
                old(self).wf(),
                old(self).first_free_from(candidate_ids@, now_ms as int, 0) == old(
                    self,
                ).first_free_from(candidate_ids@, now_ms as int, i as int),
            decreases MAX_PUT_ATTEMPTS - i,
        {
            let key = candidate_ids[i].clone();
            match self.insert_if_absent(key, value, now_ms) {
                None => {
                    let id = candidate_ids[i].clone();
                    let expiry: i64 = now_ms + DRAFT_TTL_MS;
                    let attached = self.set_expiry(&id, expiry);
                    assert(attached);
                    return Ok(id);
                },
                Some(v) => {
                    value = v;
                    i += 1;
                },
            }
        }
        Err(CacheError::OperationFailed)
    }

    /// Stores a draft under a freshly generated random id, retrying on
    /// collision up to [`MAX_PUT_ATTEMPTS`] times.  Whatever ids the
    /// generator produced: a successful put stored exactly this
    /// itinerary under the returned id with a fresh expiry and touched
    /// no other key; a failed put is `OperationFailed` and stored
    /// nothing, and can happen at all only when some key already held
    /// a live draft — on a cache with no live drafts the put succeeds.
    pub fn put(&mut self, itinerary: Itinerary, now_ms: i64) -> (r: Result<String, CacheError>)
        requires
            old(self).wf(),
            now_ms <= i64::MAX - DRAFT_TTL_MS,
        ensures
            final(self).wf(),
            (forall|k: Seq<char>| !old(self).has_live(k, now_ms as int)) ==> r is Ok,
            match r {
                Ok(id) => {
                    &&& final(self).has_live(id@, now_ms as int)
                    &&& final(self).stored_value(id@) == itinerary
                    &&& final(self).stored_expiry(id@) == Some((now_ms + DRAFT_TTL_MS) as i64)
                    &&& DraftCache::unchanged_except(*old(self), *final(self), id@)
                },
                Err(e) => {
                    &&& e == CacheError::OperationFailed
                    &&& *final(self) == *old(self)
                },
            },
    {
        let mut candidate_ids: Vec<String> = Vec::new();
        candidate_ids.push(new_draft_id());
        candidate_ids.push(new_draft_id());
        candidate_ids.push(new_draft_id());
        self.put_with_ids(itinerary, &candidate_ids, now_ms)
    }

    /// Stores a draft under a caller-chosen id: one insert-if-absent
    /// attempt, with the expiry attached in the same logical step.  A
    /// live draft under the same id is a `KeyCollision` and the store is
    /// untouched.
    pub fn store_itinerary(
        &mut self,
        itinerary_id: String,
        itinerary: Itinerary,
        now_ms: i64,
    ) -> (r: Result<(), CacheError>)
        requires
            old(self).wf(),
            now_ms <= i64::MAX - DRAFT_TTL_MS,
        ensures
            final(self).wf(),
            r is Ok <==> !old(self).has_live(itinerary_id@, now_ms as int),
            match r {
                Ok(u) => ({
                    &&& final(self).has_live(itinerary_id@, now_ms as int)
                    &&& final(self).stored_value(itinerary_id@) == itinerary
                    &&& final(self).stored_expiry(itinerary_id@) == Some(
                        (now_ms + DRAFT_TTL_MS) as i64,
                    )
                    &&& DraftCache::unchanged_except(*old(self), *final(self), itinerary_id@)
                }),
                Err(e) => e == CacheError::KeyCollision && *final(self) == *old(self),
            },
    {
        let key_for_expiry = itinerary_id.clone();
        match self.insert_if_absent(itinerary_id, itinerary, now_ms) {
            None => {
                let expiry: i64 = now_ms + DRAFT_TTL_MS;
                let attached = self.set_expiry(&key_for_expiry, expiry);
                assert(attached);
                Ok(())
            },
            Some(_) => Err(CacheError::KeyCollision),
        }
    }
}

/// Idempotent draft lookup: what a lookup returns is a function of the
/// cache state, the key and the clock alone, so two lookups of the same
/// unexpired draft, with no store in between, return the same itinerary.
pub proof fn lemma_get_idempotent(
    cache: DraftCache,
    id: Seq<char>,
    now_ms: int,
    first: Itinerary,
    second: Itinerary,
)
    requires
        cache.has_live(id, now_ms),
        first == cache.stored_value(id),
        second == cache.stored_value(id),
    ensures
        first == second,
{
}

/// Collision bound: when the first `MAX_PUT_ATTEMPTS - 1` candidate ids
/// collide with live drafts and the last one does not, the put picks the
/// last candidate; when all of them collide, the attempt index reaches
/// the bound, and `put_with_ids` then fails with `OperationFailed`
/// leaving the store unchanged.
pub proof fn lemma_put_collision_bound(cache: DraftCache, ids: Seq<String>, now_ms: int)
    requires
        ids.len() >= MAX_PUT_ATTEMPTS,
    ensures
        ((forall|j: int|
            0 <= j < MAX_PUT_ATTEMPTS - 1 ==> #[trigger] cache.has_live(ids[j]@, now_ms))
            && !cache.has_live(ids[MAX_PUT_ATTEMPTS - 1]@, now_ms)) ==> cache.first_free_from(
            ids,
            now_ms,
            0,
        ) == MAX_PUT_ATTEMPTS - 1,
        (forall|j: int| 0 <= j < MAX_PUT_ATTEMPTS ==> #[trigger] cache.has_live(ids[j]@, now_ms))
            ==> cache.first_free_from(ids, now_ms, 0) == MAX_PUT_ATTEMPTS,
{
    assert(cache.first_free_from(ids, now_ms, 0) == if !cache.has_live(ids[0]@, now_ms) {
        0int
    } else {
        cache.first_free_from(ids, now_ms, 1)
    });
    assert(cache.first_free_from(ids, now_ms, 1) == if !cache.has_live(ids[1]@, now_ms) {
        1int
    } else {
        cache.first_free_from(ids, now_ms, 2)
    });
    assert(cache.first_free_from(ids, now_ms, 2) == if !cache.has_live(ids[2]@, now_ms) {
        2int
    } else {
        cache.first_free_from(ids, now_ms, 3)
    });
    assert(cache.first_free_from(ids, now_ms, 3) == MAX_PUT_ATTEMPTS);
}

/// The backing store's reply to one command, reduced to what the
/// decisions below read.
#[derive(Debug)]
pub enum StoreReply {
    /// The key was absent
    Nil,
    /// An integer reply
    Int(i64),
    /// A bulk payload
    Data(Vec<u8>),
    /// Any other reply shape
    Other,
}

/// The verdict on the backing store's reply to the insert-if-absent
/// command.
pub open spec fn insert_reply_spec(reply: Result<StoreReply, ()>) -> Result<(), CacheError> {
    match reply {
        Err(_) => Err(CacheError::OperationFailed),
        Ok(rep) => match rep {
            StoreReply::Int(v) => if v == 1 {
                Ok(())
            } else if v == 0 {
                Err(CacheError::KeyCollision)
            } else {
                Err(CacheError::Unexpected)
            },
            _ => Err(CacheError::Unexpected),
        },
    }
}

/// Decision on the backing store's reply to the insert-if-absent command:
/// a transport error is `OperationFailed`, integer 1 is a successful
/// insert, integer 0 is a key collision, anything else is `Unexpected`.
pub fn interpret_insert_reply(reply: Result<StoreReply, ()>) -> (r: Result<(), CacheError>)
    ensures
        r == insert_reply_spec(reply),
{
    match reply {
        Err(_) => Err(CacheError::OperationFailed),
        Ok(StoreReply::Int(v)) => {
            if v == 1 {
                Ok(())
            } else if v == 0 {
                Err(CacheError::KeyCollision)
            } else {
                Err(CacheError::Unexpected)
            }
        },
        Ok(_) => Err(CacheError::Unexpected),
    }
}

/// The verdict on the backing store's reply to the attach-expiry command.
pub open spec fn expire_reply_spec(reply: Result<StoreReply, ()>) -> Result<(), CacheError> {
    match reply {
        Err(_) => Err(CacheError::OperationFailed),
        Ok(rep) => match rep {
            StoreReply::Int(v) => if v == 1 {
                Ok(())
            } else {
                Err(CacheError::Unexpected)
            },
            _ => Err(CacheError::Unexpected),
        },
    }
}

/// Decision on the backing store's reply to the attach-expiry command: a
/// transport error is `OperationFailed`, integer 1 is success, anything
/// else is `Unexpected`.  Either failure fails the whole put, even
/// though the record was inserted: callers must treat a failed put as
/// "no draft was durably stored".
pub fn interpret_expire_reply(reply: Result<StoreReply, ()>) -> (r: Result<(), CacheError>)
    ensures
        r == expire_reply_spec(reply),
{
    match reply {
        Err(_) => Err(CacheError::OperationFailed),
        Ok(StoreReply::Int(v)) => {
            if v == 1 {
                Ok(())
            } else {
                Err(CacheError::Unexpected)
            }
        },
        Ok(_) => Err(CacheError::Unexpected),
    }
}

/// Decision on the backing store's reply to a draft fetch: a transport
/// error is `OperationFailed`, an absent (or expired) key is `NotFound`,
/// a bulk payload is handed on for decoding, and any other reply shape
/// is `InvalidValue`.
pub fn classify_fetch_reply(reply: Result<StoreReply, ()>) -> (r: Result<Vec<u8>, CacheError>)
    ensures
        match reply {
            Err(_) => r == Err::<Vec<u8>, CacheError>(CacheError::OperationFailed),
            Ok(rep) => match rep {
                StoreReply::Nil => r == Err::<Vec<u8>, CacheError>(CacheError::NotFound),
                StoreReply::Data(d) => r == Ok::<Vec<u8>, CacheError>(d),
                _ => r == Err::<Vec<u8>, CacheError>(CacheError::InvalidValue),
            },
        },
{
    match reply {
        Err(_) => Err(CacheError::OperationFailed),
        Ok(StoreReply::Nil) => Err(CacheError::NotFound),
        Ok(StoreReply::Data(d)) => Ok(d),
        Ok(_) => Err(CacheError::InvalidValue),
    }
}

/// Decision on the decoded payload of a fetched draft: bytes that failed
/// to deserialize are `InvalidValue`, not `NotFound` — distinct failure
/// causes a caller can branch on.
pub fn classify_decoded_draft(decoded: Option<Itinerary>) -> (r: Result<Itinerary, CacheError>)
    ensures
        match decoded {
            Some(itinerary) => r == Ok::<Itinerary, CacheError>(itinerary),
            None => r == Err::<Itinerary, CacheError>(CacheError::InvalidValue),
        },
{
    match decoded {
        Some(itinerary) => Ok(itinerary),
        None => Err(CacheError::InvalidValue),
    }
}

} // verus!
