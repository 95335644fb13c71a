//! The pricing cache: where it lives, when a decoded entry is fresh or stale,
//! and what a load returns under each freshness policy.

use vstd::prelude::*;

verus! {

broadcast use vstd::string::group_string_axioms;

/// Entries older than this many seconds are stale.
pub const CACHE_TTL_SECS: u64 = 3600;

/// The path `std::path::Path::join` forms from a directory and a file name.
pub uninterp spec fn joined_path(dir: Seq<char>, file: Seq<char>) -> Seq<char>;

/// `Path::join`, with the result rendered back to a string. Its result is
/// named, not described: the rules for separators and absolute components
/// are std's.
#[verifier::external_body]
fn path_join(dir: &str, file: &str) -> (r: String)
    ensures
        r@ == joined_path(dir@, file@),
{
    std::path::Path::new(dir).join(file).to_string_lossy().into_owned()
}

/// `SystemTime::now()` as whole seconds since the Unix epoch, or `None` when
/// the clock reads before the epoch. Nothing is claimed of the value: it is
/// the machine's clock.
#[verifier::external_body]
fn system_unix_secs() -> (r: Option<u64>) {
    match std::time::SystemTime::now().duration_since(std::time::SystemTime::UNIX_EPOCH) {
        Ok(elapsed) => Some(elapsed.as_secs()),
        Err(_) => None,
    }
}

/// The path of the cache file `filename` under `cache_dir`.
pub fn get_cache_path(cache_dir: &str, filename: &str) -> (r: String)
    ensures
        r@ == joined_path(cache_dir@, filename@),
{
    path_join(cache_dir, filename)
}

/// A cached value with the time it was written.
pub struct CachedData<T> {
    pub timestamp: u64,
    pub data: T,
}

/// A decoded cache entry, by freshness.
pub enum ParsedCache<T> {
    Fresh(T),
    Stale(T),
}

/// The message for an entry written after the current clock reading.
pub open spec fn future_timestamp_message() -> Seq<char> {
    "cache timestamp is later than the current system clock"@
}

/// How an entry written at `timestamp` reads at `now`: refused if written in
/// the future, stale once more than `CACHE_TTL_SECS` old, else fresh.
pub open spec fn classified<T>(cached: CachedData<T>, now: u64) -> Result<ParsedCache<T>, Seq<char>> {
    if cached.timestamp > now {
        Err(future_timestamp_message())
    } else if now - cached.timestamp > CACHE_TTL_SECS {
        Ok(ParsedCache::Stale(cached.data))
    } else {
        Ok(ParsedCache::Fresh(cached.data))
    }
}

/// The view of a classification result, with the message as characters.
pub open spec fn result_view<T>(r: Result<ParsedCache<T>, String>) -> Result<ParsedCache<T>, Seq<char>> {
    match r {
        Ok(p) => Ok(p),
        Err(e) => Err(e@),
    }
}

/// Classifies a decoded entry at `now`.
pub fn classify_cache<T>(cached: CachedData<T>, now: u64) -> (r: Result<ParsedCache<T>, String>)
    ensures
        result_view(r) == classified(cached, now),
{
    let ghost c = cached;
    let CachedData { timestamp, data } = cached;
    if timestamp > now {
        let msg = "cache timestamp is later than the current system clock";
        proof {
            reveal_strlit("cache timestamp is later than the current system clock");
        }
        return Err(msg.to_string());
    }
    if now - timestamp > CACHE_TTL_SECS {
        Ok(ParsedCache::Stale(data))
    } else {
        Ok(ParsedCache::Fresh(data))
    }
}

/// The message for a clock that reads before the Unix epoch.
pub open spec fn clock_before_epoch_message() -> Seq<char> {
    "the system clock reads before the Unix epoch"@
}

/// How an entry reads by the clock reading `clock` (`None` when the clock
/// reads before the epoch).
pub open spec fn classified_by_clock<T>(cached: CachedData<T>, clock: Option<u64>) -> Result<ParsedCache<T>, Seq<char>> {
    match clock {
        Some(now) => classified(cached, now),
        None => Err(clock_before_epoch_message()),
    }
}

/// Classifies a decoded entry against the system clock: the result is the
/// classification at the clock's reading, or the clock's error when it reads
/// before the epoch. What the clock reads is not known, so the contract says
/// that some reading gives the result.
pub fn parse_cache<T>(cached: CachedData<T>) -> (r: Result<ParsedCache<T>, String>)
    ensures
        exists|clock: Option<u64>| result_view(r) == classified_by_clock(cached, clock),
        r is Ok ==> exists|now: u64| result_view(r) == classified(cached, now),
{
    match system_unix_secs() {
        Some(now) => {
            let r = classify_cache(cached, now);
            assert(result_view(r) == classified_by_clock(cached, Some(now)));
            r
        },
        None => {
            proof {
                reveal_strlit("the system clock reads before the Unix epoch");
            }
            let r = Err("the system clock reads before the Unix epoch".to_string());
            assert(result_view::<T>(r) == classified_by_clock(cached, None));
            r
        },
    }
}

/// What a load returns: fresh entries always, stale ones only when
/// `allow_stale`, refused ones never.
pub open spec fn selected<T>(parsed: Result<ParsedCache<T>, String>, allow_stale: bool) -> Option<T> {
    match parsed {
        Ok(ParsedCache::Fresh(data)) => Some(data),
        Ok(ParsedCache::Stale(data)) => if allow_stale { Some(data) } else { None },
        Err(_) => None,
    }
}

/// Applies the freshness policy to a parse result.
pub fn load_cache_with_policy<T>(parsed: Result<ParsedCache<T>, String>, allow_stale: bool) -> (r: Option<T>)
    ensures
        r == selected(parsed, allow_stale),
{
    match parsed {
        Ok(ParsedCache::Fresh(data)) => Some(data),
        Ok(ParsedCache::Stale(data)) => if allow_stale { Some(data) } else { None },
        Err(_) => None,
    }
}

/// The entry a save writes: `data` stamped with the clock's seconds since the
/// epoch, or 0 when the clock reads before it.
pub fn stamp_cache<T>(data: T) -> (r: CachedData<T>)
    ensures
        r.data == data,
{
    let timestamp = match system_unix_secs() {
        Some(now) => now,
        None => 0,
    };
    CachedData { timestamp, data }
}

/// A fresh entry is returned under both policies; a stale one only when the
/// caller accepts any age; one written in the future under neither.
pub proof fn law_freshness_policy<T>(cached: CachedData<T>, now: u64)
    ensures
        cached.timestamp <= now && now - cached.timestamp <= CACHE_TTL_SECS ==> {
            &&& classified(cached, now) == Ok::<ParsedCache<T>, Seq<char>>(ParsedCache::Fresh(cached.data))
        },
        cached.timestamp <= now && now - cached.timestamp > CACHE_TTL_SECS ==> {
            &&& classified(cached, now) == Ok::<ParsedCache<T>, Seq<char>>(ParsedCache::Stale(cached.data))
        },
        cached.timestamp > now ==> classified(cached, now) is Err,
        forall|p: Result<ParsedCache<T>, String>| #[trigger] selected(p, false) is Some ==> selected(p, true) == selected(p, false),
{
}

/// Read by any clock reading at or after the entry's timestamp, an entry is
/// never refused: it is stale once more than `CACHE_TTL_SECS` old and fresh
/// before, with its data kept. Only a reading before the timestamp or before
/// the epoch refuses it, each with its own message.
pub proof fn law_entries_read_by_the_clock<T>(cached: CachedData<T>, clock: Option<u64>)
    ensures
        classified_by_clock(cached, clock) is Err <==> match clock {
            Some(now) => cached.timestamp > now,
            None => true,
        },
        clock matches Some(now) && cached.timestamp <= now && now - cached.timestamp > CACHE_TTL_SECS
            ==> classified_by_clock(cached, clock) == Ok::<ParsedCache<T>, Seq<char>>(ParsedCache::Stale(cached.data)),
        clock matches Some(now) && cached.timestamp <= now && now - cached.timestamp <= CACHE_TTL_SECS
            ==> classified_by_clock(cached, clock) == Ok::<ParsedCache<T>, Seq<char>>(ParsedCache::Fresh(cached.data)),
        clock matches Some(now) && cached.timestamp > now
            ==> classified_by_clock(cached, clock) == Err::<ParsedCache<T>, Seq<char>>(future_timestamp_message()),
        clock is None ==> classified_by_clock(cached, clock) == Err::<ParsedCache<T>, Seq<char>>(clock_before_epoch_message()),
        clock_before_epoch_message() != future_timestamp_message(),
{
    reveal_strlit("the system clock reads before the Unix epoch");
    reveal_strlit("cache timestamp is later than the current system clock");
    assert(clock_before_epoch_message()[0] != future_timestamp_message()[0]);
}

} // verus!
