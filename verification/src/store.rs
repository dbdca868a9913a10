//! The key-value store the service relies on, and an in-memory stand-in.
//!
//! The service needs three things of a store, each keyed by a short code:
//! whether a key is bound, a write that binds a key for a limited time
//! unless it is bound already, and a read. [`StoreView`] says what these
//! mean; [`MemoryStore`] does them in memory, with a clock that the caller
//! moves.

use vstd::prelude::*;

verus! {

/// A stored value and the moment at which it expires.
pub struct Binding {
    pub value: Seq<char>,
    pub expires_at: int,
}

/// The state of a store: what each key is bound to, the time, and whether
/// the store can be reached.
pub struct StoreView {
    pub bindings: Map<Seq<char>, Binding>,
    pub now: int,
    pub online: bool,
}

impl StoreView {
    /// Whether `key` is bound and has not expired.
    pub open spec fn live(self, key: Seq<char>) -> bool {
        self.bindings.contains_key(key) && self.bindings[key].expires_at > self.now
    }

    /// The value that `key` is bound to, unless it is unbound or expired.
    pub open spec fn lookup(self, key: Seq<char>) -> Option<Seq<char>> {
        if self.live(key) {
            Some(self.bindings[key].value)
        } else {
            None
        }
    }

    /// The store after `key` is bound to `value` for `ttl` seconds.
    pub open spec fn bind(self, key: Seq<char>, value: Seq<char>, ttl: int) -> StoreView {
        StoreView {
            bindings: self.bindings.insert(key, Binding { value, expires_at: self.now + ttl }),
            ..self
        }
    }

    /// The store once `seconds` more have passed.
    pub open spec fn advance(self, seconds: int) -> StoreView {
        StoreView { now: self.now + seconds, ..self }
    }
}

/// The store could not be reached, or reported a failure.
#[derive(Clone, Copy, Debug, PartialEq, Eq)]
pub struct StoreFailure {}

/// One entry of a [`MemoryStore`].
struct Entry {
    key: String,
    value: String,
    expires_at: u128,
}

impl Entry {
    spec fn binding(self) -> Binding {
        Binding { value: self.value@, expires_at: self.expires_at as int }
    }
}

/// What a list of entries binds: of two entries with one key the later
/// counts.
spec fn bindings_of(entries: Seq<Entry>) -> Map<Seq<char>, Binding>
    decreases entries.len(),
{
    if entries.len() == 0 {
        Map::empty()
    } else {
        bindings_of(entries.drop_last()).insert(entries.last().key@, entries.last().binding())
    }
}

/// A key that no entry from `from` on has is bound by the entries before
/// `from` alone.
proof fn lemma_bindings_tail(entries: Seq<Entry>, key: Seq<char>, from: int)
    requires
        0 <= from <= entries.len(),
        forall|j: int| from <= j < entries.len() ==> (#[trigger] entries[j]).key@ != key,
    ensures
        bindings_of(entries).contains_key(key) == bindings_of(entries.take(from)).contains_key(key),
        bindings_of(entries).contains_key(key) ==> bindings_of(entries)[key] == bindings_of(
            entries.take(from),
        )[key],
    decreases entries.len(),
{
    if from == entries.len() {
        assert(entries.take(from) =~= entries);
    } else {
        lemma_bindings_tail(entries.drop_last(), key, from);
        assert(entries.drop_last().take(from) =~= entries.take(from));
    }
}

/// An in-memory store with a clock. Time passes only through
/// [`MemoryStore::advance`], and the store can be taken offline to see how
/// its callers deal with failure.
pub struct MemoryStore {
    entries: Vec<Entry>,
    now: u64,
    online: bool,
}

impl View for MemoryStore {
    type V = StoreView;

    closed spec fn view(&self) -> StoreView {
        StoreView { bindings: bindings_of(self.entries@), now: self.now as int, online: self.online }
    }
}

impl MemoryStore {
    /// An empty store at time zero, online.
    pub fn new() -> (s: MemoryStore)
        ensures
            s@ == (StoreView { bindings: Map::empty(), now: 0, online: true }),
    {
        MemoryStore { entries: Vec::new(), now: 0, online: true }
    }

    /// Index of the entry that counts for `key`, if any entry has it.
    fn find(&self, key: &String) -> (r: Option<usize>)
        ensures
            match r {
                Some(i) => i < self.entries@.len() && self.entries@[i as int].key@ == key@
                    && bindings_of(self.entries@).contains_key(key@) && bindings_of(
                    self.entries@,
                )[key@] == self.entries@[i as int].binding(),
                None => !bindings_of(self.entries@).contains_key(key@),
            },
    {
        let mut i: usize = self.entries.len();
        while i > 0
            invariant
                i <= self.entries@.len(),
                forall|j: int| i <= j < self.entries@.len() ==> (#[trigger] self.entries@[j]).key@ != key@,
            decreases i,
        {
            i -= 1;
            if self.entries[i].key == *key {
                proof {
                    lemma_bindings_tail(self.entries@, key@, i + 1);
                    assert(self.entries@.take(i + 1).drop_last() =~= self.entries@.take(i as int));
                }
                return Some(i);
            }
        }
        proof {
            lemma_bindings_tail(self.entries@, key@, 0);
        }
        None
    }

    /// Whether `key` is bound and unexpired. Fails when the store is offline.
    pub fn contains(&self, key: &str) -> (r: Result<bool, StoreFailure>)
        ensures
            self@.online ==> r == Ok::<bool, StoreFailure>(self@.live(key@)),
            !self@.online ==> r is Err,
    {
        if !self.online {
            return Err(StoreFailure {  });
        }
        let k = key.to_owned();
        match self.find(&k) {
            Some(i) => Ok(self.entries[i].expires_at > self.now as u128),
            None => Ok(false),
        }
    }

    /// The value bound to `key`, if it is bound and unexpired. Fails when
    /// the store is offline. The store is left as it is.
    pub fn get(&self, key: &str) -> (r: Result<Option<String>, StoreFailure>)
        ensures
            !self@.online ==> r is Err,
            self@.online ==> r is Ok,
            r matches Ok(Some(v)) ==> self@.lookup(key@) == Some(v@),
            r matches Ok(None) ==> self@.lookup(key@) is None,
    {
        if !self.online {
            return Err(StoreFailure {  });
        }
        let k = key.to_owned();
        match self.find(&k) {
            Some(i) => {
                if self.entries[i].expires_at > self.now as u128 {
                    Ok(Some(self.entries[i].value.clone()))
                } else {
                    Ok(None)
                }
            },
            None => Ok(None),
        }
    }

    /// Binds `key` to `value` for `ttl_seconds`, unless `key` is bound and
    /// unexpired: then nothing changes and the answer is `false`. Fails,
    /// and changes nothing, when the store is offline.
    pub fn set_if_absent_with_ttl(&mut self, key: &str, value: &str, ttl_seconds: u64) -> (r: Result<
        bool,
        StoreFailure,
    >)
        ensures
            !old(self)@.online ==> r is Err && final(self)@ == old(self)@,
            old(self)@.online && old(self)@.live(key@) ==> r == Ok::<bool, StoreFailure>(false)
                && final(self)@ == old(self)@,
            old(self)@.online && !old(self)@.live(key@) ==> r == Ok::<bool, StoreFailure>(true)
                && final(self)@ == old(self)@.bind(key@, value@, ttl_seconds as int),
    {
        if !self.online {
            return Err(StoreFailure {  });
        }
        let k = key.to_owned();
        let bound = match self.find(&k) {
            Some(i) => self.entries[i].expires_at > self.now as u128,
            None => false,
        };
        if bound {
            return Ok(false);
        }
        let entry = Entry {
            key: k,
            value: value.to_owned(),
            expires_at: self.now as u128 + ttl_seconds as u128,
        };
        proof {
            assert(self.entries@.push(entry).drop_last() =~= self.entries@);
        }
        self.entries.push(entry);
        Ok(true)
    }

    /// The time on the store's clock, in seconds.
    pub fn now(&self) -> (t: u64)
        ensures
            t == self@.now,
    {
        self.now
    }

    /// Moves the clock forward by `seconds`. What is bound stays bound;
    /// whether it is still live is read against the new time.
    pub fn advance(&mut self, seconds: u64)
        requires
            old(self)@.now + seconds <= u64::MAX,
        ensures
            final(self)@ == old(self)@.advance(seconds as int),
    {
        self.now = self.now + seconds;
    }

    /// Takes the store offline or brings it back.
    pub fn set_online(&mut self, online: bool)
        ensures
            final(self)@ == (StoreView { online, ..old(self)@ }),
    {
        self.online = online;
    }
}

} // verus!
