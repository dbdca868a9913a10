//! Shortening and resolution.
//!
//! Each operation is a short exchange with the store. The functions
//! [`begin_shorten`], [`on_exists`], [`on_written`] and [`on_fetched`] hold
//! the decisions: each takes what is known so far and the store's last
//! answer, and says what to ask next or what the result is. A caller with
//! a store of its own performs the requests in between. [`shorten`] and
//! [`resolve`] run the same decisions against a [`MemoryStore`].

use crate::code::{generate, is_short_code};
use crate::config::Config;
use crate::store::{MemoryStore, StoreFailure, StoreView};
use crate::validate::{is_valid_url, validate};
use vstd::pervasive::unreached;
use vstd::prelude::*;

verus! {

/// How a shortening request ended.
#[derive(Clone, Debug, PartialEq, Eq)]
pub enum ShortenResult {
    /// The mapping was written under `short_code`.
    Created { short_code: String, long_url: String },
    /// The long URL was rejected; `reason` is the rejected text.
    InvalidInput { reason: String },
    /// The generated code was bound already. Asking again is expected to
    /// succeed.
    CollisionRetry,
    /// The store could not be reached or reported a failure.
    StoreError,
}

/// The mathematical value of a [`ShortenResult`].
pub enum ShortenOutcome {
    Created { short_code: Seq<char>, long_url: Seq<char> },
    InvalidInput { reason: Seq<char> },
    CollisionRetry,
    StoreError,
}

impl View for ShortenResult {
    type V = ShortenOutcome;

    open spec fn view(&self) -> ShortenOutcome {
        match *self {
            ShortenResult::Created { short_code, long_url } => ShortenOutcome::Created {
                short_code: short_code@,
                long_url: long_url@,
            },
            ShortenResult::InvalidInput { reason } => ShortenOutcome::InvalidInput {
                reason: reason@,
            },
            ShortenResult::CollisionRetry => ShortenOutcome::CollisionRetry,
            ShortenResult::StoreError => ShortenOutcome::StoreError,
        }
    }
}

/// How a resolution request ended.
#[derive(Clone, Debug, PartialEq, Eq)]
pub enum ResolveResult {
    /// The code is bound to `long_url`, which is a valid URL.
    Redirect { long_url: String },
    /// The code is unbound or has expired.
    NotFound,
    /// The code is bound to something that is no valid URL.
    CorruptEntry,
}

/// The mathematical value of a [`ResolveResult`].
pub enum ResolveOutcome {
    Redirect { long_url: Seq<char> },
    NotFound,
    CorruptEntry,
}

impl View for ResolveResult {
    type V = ResolveOutcome;

    open spec fn view(&self) -> ResolveOutcome {
        match *self {
            ResolveResult::Redirect { long_url } => ResolveOutcome::Redirect { long_url: long_url@ },
            ResolveResult::NotFound => ResolveOutcome::NotFound,
            ResolveResult::CorruptEntry => ResolveOutcome::CorruptEntry,
        }
    }
}

/// Where a shortening request stands: what to ask of the store next, or the
/// result.
#[derive(Clone, Debug, PartialEq, Eq)]
pub enum ShortenStep {
    /// Ask the store whether `code` is bound.
    CheckExists { code: String, long_url: String },
    /// Ask the store to bind `code` to `long_url` for `ttl_seconds`, unless
    /// it is bound.
    Write { code: String, long_url: String, ttl_seconds: u64 },
    /// Nothing more to ask.
    Done(ShortenResult),
}

/// First step of shortening: validates the long URL and, if it is valid,
/// generates a candidate code and asks whether it is bound. An invalid URL
/// ends the request before the store is asked anything.
pub fn begin_shorten(cfg: &Config, long_url: &str) -> (step: ShortenStep)
    requires
        cfg.wf(),
    ensures
        !is_valid_url(long_url@) ==> (step matches ShortenStep::Done(r) && r@ == (
        ShortenOutcome::InvalidInput { reason: long_url@ })),
        is_valid_url(long_url@) ==> (step matches ShortenStep::CheckExists { code, long_url: u }
            && u@ == long_url@ && is_short_code(code@, cfg.code_length as nat)),
{
    match validate(long_url) {
        Err(_) => ShortenStep::Done(ShortenResult::InvalidInput { reason: long_url.to_owned() }),
        Ok(_) => ShortenStep::CheckExists {
            code: generate(cfg.code_length),
            long_url: long_url.to_owned(),
        },
    }
}

/// Second step of shortening, on the store's answer to the existence
/// check: an unbound code is written with the configured time-to-live, a
/// bound one ends the request as a collision, a failure as a store error.
pub fn on_exists(
    cfg: &Config,
    code: String,
    long_url: String,
    reply: Result<bool, StoreFailure>,
) -> (step: ShortenStep)
    requires
        cfg.wf(),
    ensures
        step == (match reply {
            Ok(false) => ShortenStep::Write {
                code,
                long_url,
                ttl_seconds: cfg.default_ttl_seconds,
            },
            Ok(true) => ShortenStep::Done(ShortenResult::CollisionRetry),
            Err(_) => ShortenStep::Done(ShortenResult::StoreError),
        }),
{
    match reply {
        Ok(false) => ShortenStep::Write { code, long_url, ttl_seconds: cfg.default_ttl_seconds },
        Ok(true) => ShortenStep::Done(ShortenResult::CollisionRetry),
        Err(_) => ShortenStep::Done(ShortenResult::StoreError),
    }
}

/// Last step of shortening, on the store's answer to the conditional
/// write: `true` means the mapping is stored, `false` that the code was
/// bound in the meantime.
pub fn on_written(code: String, long_url: String, reply: Result<bool, StoreFailure>) -> (r:
    ShortenResult)
    ensures
        r == (match reply {
            Ok(true) => ShortenResult::Created { short_code: code, long_url },
            Ok(false) => ShortenResult::CollisionRetry,
            Err(_) => ShortenResult::StoreError,
        }),
{
    match reply {
        Ok(true) => ShortenResult::Created { short_code: code, long_url },
        Ok(false) => ShortenResult::CollisionRetry,
        Err(_) => ShortenResult::StoreError,
    }
}

/// Resolution, on the store's answer to the read. The stored value is
/// validated again before it is handed out: what the store holds is not
/// trusted. A failed read counts as not found.
pub fn on_fetched(reply: Result<Option<String>, StoreFailure>) -> (r: ResolveResult)
    ensures
        r == (match reply {
            Ok(Some(v)) => if is_valid_url(v@) {
                ResolveResult::Redirect { long_url: v }
            } else {
                ResolveResult::CorruptEntry
            },
            _ => ResolveResult::NotFound,
        }),
{
    match reply {
        Ok(Some(v)) => match validate(v.as_str()) {
            Ok(_) => ResolveResult::Redirect { long_url: v },
            Err(_) => ResolveResult::CorruptEntry,
        },
        _ => ResolveResult::NotFound,
    }
}

/// The result of binding `code` to `long_url` in store `s`.
pub open spec fn allocation(s: StoreView, code: Seq<char>, long_url: Seq<char>) -> ShortenOutcome {
    if !s.online {
        ShortenOutcome::StoreError
    } else if s.live(code) {
        ShortenOutcome::CollisionRetry
    } else {
        ShortenOutcome::Created { short_code: code, long_url }
    }
}

/// The store after an attempt to bind `code` to `long_url` for `ttl`
/// seconds: one new binding if the store is online and the code is free,
/// else no change.
pub open spec fn after_allocation(
    s: StoreView,
    code: Seq<char>,
    long_url: Seq<char>,
    ttl: int,
) -> StoreView {
    if s.online && !s.live(code) {
        s.bind(code, long_url, ttl)
    } else {
        s
    }
}

/// The result of resolving `code` in store `s`.
pub open spec fn resolution(s: StoreView, code: Seq<char>) -> ResolveOutcome {
    if !s.online {
        ResolveOutcome::NotFound
    } else {
        match s.lookup(code) {
            None => ResolveOutcome::NotFound,
            Some(v) => if is_valid_url(v) {
                ResolveOutcome::Redirect { long_url: v }
            } else {
                ResolveOutcome::CorruptEntry
            },
        }
    }
}

/// Binds a given candidate code to an already validated long URL: one
/// existence check and, if the code is free, one write. Never retries.
pub fn allocate(store: &mut MemoryStore, cfg: &Config, code: String, long_url: String) -> (r:
    ShortenResult)
    requires
        cfg.wf(),
    ensures
        r@ == allocation(old(store)@, code@, long_url@),
        final(store)@ == after_allocation(
            old(store)@,
            code@,
            long_url@,
            cfg.default_ttl_seconds as int,
        ),
{
    let found = store.contains(code.as_str());
    match on_exists(cfg, code, long_url, found) {
        ShortenStep::Write { code, long_url, ttl_seconds } => {
            let written = store.set_if_absent_with_ttl(
                code.as_str(),
                long_url.as_str(),
                ttl_seconds,
            );
            on_written(code, long_url, written)
        },
        ShortenStep::Done(r) => r,
        ShortenStep::CheckExists { .. } => unreached(),
    }
}

/// Shortens `long_url`: validate, generate a code, check it, write.
///
/// An invalid URL is rejected and the store is not touched. For a valid
/// one the result and the store are those of [`allocation`] and
/// [`after_allocation`] for some code of the configured length.
pub fn shorten(store: &mut MemoryStore, cfg: &Config, long_url: &str) -> (r: ShortenResult)
    requires
        cfg.wf(),
    ensures
        !is_valid_url(long_url@) ==> r@ == (ShortenOutcome::InvalidInput { reason: long_url@ })
            && final(store)@ == old(store)@,
        is_valid_url(long_url@) ==> exists|code: Seq<char>|
            #[trigger] is_short_code(code, cfg.code_length as nat) && r@ == allocation(
                old(store)@,
                code,
                long_url@,
            ) && final(store)@ == after_allocation(
                old(store)@,
                code,
                long_url@,
                cfg.default_ttl_seconds as int,
            ),
{
    match begin_shorten(cfg, long_url) {
        ShortenStep::CheckExists { code, long_url: url } => {
            let ghost c = code@;
            let r = allocate(store, cfg, code, url);
            assert(is_short_code(c, cfg.code_length as nat));
            r
        },
        ShortenStep::Done(r) => r,
        ShortenStep::Write { .. } => unreached(),
    }
}

/// Resolves `code`. The store is only read.
pub fn resolve(store: &MemoryStore, code: &str) -> (r: ResolveResult)
    ensures
        r@ == resolution(store@, code@),
{
    on_fetched(store.get(code))
}

/// A free code in a reachable store is bound by exactly one new binding:
/// the result is `Created` with that code and URL, and the store differs
/// from the one before in that binding alone.
pub proof fn free_code_is_bound_once(s: StoreView, code: Seq<char>, long_url: Seq<char>, ttl: int)
    requires
        s.online,
        !s.live(code),
    ensures
        allocation(s, code, long_url) == (ShortenOutcome::Created { short_code: code, long_url }),
        after_allocation(s, code, long_url, ttl).bindings == s.bindings.insert(
            code,
            crate::store::Binding { value: long_url, expires_at: s.now + ttl },
        ),
        after_allocation(s, code, long_url, ttl).now == s.now,
        forall|k: Seq<char>|
            k != code ==> after_allocation(s, code, long_url, ttl).lookup(k) == s.lookup(k),
{
}

/// Resolution is repeatable: as long as a code has not expired, resolving
/// it at any later moment gives what resolving it now gives. (Resolving
/// itself cannot change the store: [`resolve`] only borrows it.)
pub proof fn resolution_is_stable(s: StoreView, code: Seq<char>, elapsed: int)
    requires
        0 <= elapsed,
        s.advance(elapsed).live(code),
    ensures
        resolution(s.advance(elapsed), code) == resolution(s, code),
        s.online && is_valid_url(s.bindings[code].value) ==> resolution(s, code) == (
        ResolveOutcome::Redirect { long_url: s.bindings[code].value }),
{
}

/// Round trip: a valid URL bound under a free code resolves to itself
/// until the time-to-live has passed.
pub proof fn round_trip(
    s: StoreView,
    code: Seq<char>,
    long_url: Seq<char>,
    ttl: int,
    elapsed: int,
)
    requires
        s.online,
        !s.live(code),
        is_valid_url(long_url),
        0 <= elapsed < ttl,
    ensures
        allocation(s, code, long_url) == (ShortenOutcome::Created { short_code: code, long_url }),
        resolution(after_allocation(s, code, long_url, ttl).advance(elapsed), code) == (
        ResolveOutcome::Redirect { long_url }),
{
}

/// Expiry: once the time-to-live has passed, a code bound under it is not
/// found any more.
pub proof fn expired_code_is_not_found(
    s: StoreView,
    code: Seq<char>,
    long_url: Seq<char>,
    ttl: int,
    elapsed: int,
)
    requires
        s.online,
        !s.live(code),
        ttl <= elapsed,
    ensures
        resolution(after_allocation(s, code, long_url, ttl).advance(elapsed), code)
            == ResolveOutcome::NotFound,
{
}

/// Collision: a code that is bound and unexpired is not bound again. The
/// request ends as a collision and the store, the existing mapping
/// included, stays as it was.
pub proof fn collision_keeps_mapping(s: StoreView, code: Seq<char>, long_url: Seq<char>, ttl: int)
    requires
        s.online,
        s.live(code),
    ensures
        allocation(s, code, long_url) == ShortenOutcome::CollisionRetry,
        after_allocation(s, code, long_url, ttl) == s,
{
}

/// A code bound to something that is no valid URL resolves to
/// `CorruptEntry`, never to a redirect.
pub proof fn corrupt_entry_is_reported(s: StoreView, code: Seq<char>)
    requires
        s.online,
        (s.lookup(code) matches Some(v) && !is_valid_url(v)),
    ensures
        resolution(s, code) == ResolveOutcome::CorruptEntry,
{
}

} // verus!
