//! What to make of the cache: which failures of it are borne, and when what it
//! holds is too old. The cache is a convenience, not a source of truth, so most
//! of its failures only mean going on without it.

use vstd::prelude::*;
use crate::data::CachedData;

verus! {

/// The kinds of failure of the file system that are told apart.
#[derive(Debug, Clone, Copy, PartialEq, Eq, Structural)]
pub enum IoKind {
    NotFound,
    PermissionDenied,
    /// Another process holds the lock on the file.
    WouldBlock,
    Other,
    /// Any kind that is not expected of a cache file.
    Unexpected,
}

/// Why an access to the cache file failed.
#[derive(Debug, Clone, Copy, PartialEq, Eq, Structural)]
pub enum CacheFailure {
    /// The file system refused.
    Io(IoKind),
    /// What the file holds, or is to hold, is no cached series.
    Json,
    /// Anything else.
    Unknown,
}

/// What is done to the cache file.
#[derive(Debug, Clone, Copy, PartialEq, Eq, Structural)]
pub enum Access {
    Read,
    Write,
    Remove,
}

/// Why no use can be made of the cache.
#[derive(Debug, Clone, Copy, PartialEq, Eq, Structural)]
pub enum CacheError {
    /// The cache was to be used whatever its age, and holds nothing.
    NoCachedData,
    /// The age after which the cache is stale is beyond what ages are
    /// compared with.
    StaleAfterOutOfRange,
}

/// A length of time: whole seconds, and the nanoseconds beyond them.
#[derive(Debug, Clone, Copy, PartialEq, Eq, Structural)]
pub struct Span {
    pub secs: u64,
    pub nanos: u32,
}

/// The longest span that ages are compared with, in whole seconds and in the
/// nanoseconds beyond them: as many milliseconds as an `i64` counts.
pub const LONGEST_SPAN_SECS: u64 = 9_223_372_036_854_775;

pub const LONGEST_SPAN_NANOS: u32 = 807_000_000;

pub const NANOS_PER_SEC: u32 = 1_000_000_000;

impl Span {
    pub open spec fn total_nanos(self) -> int {
        self.secs * 1_000_000_000 + self.nanos
    }

    /// That the span is one that ages are compared with.
    pub open spec fn in_range(self) -> bool {
        self.nanos < 1_000_000_000 && self.total_nanos() <= 9_223_372_036_854_775 * 1_000_000_000
            + 807_000_000
    }
}

/// That a failure of an access only means going on without the cache. A
/// missing file is no loss when reading or removing; a file that is locked or
/// out of bounds is left alone; a file that holds something else is passed
/// over. What is not expected of a cache file is not borne.
pub open spec fn tolerated(access: Access, failure: CacheFailure) -> bool {
    match failure {
        CacheFailure::Io(IoKind::NotFound) => access != Access::Write,
        CacheFailure::Io(IoKind::PermissionDenied) => true,
        CacheFailure::Io(IoKind::WouldBlock) => true,
        CacheFailure::Io(IoKind::Other) => true,
        CacheFailure::Io(IoKind::Unexpected) => false,
        CacheFailure::Json => access != Access::Remove,
        CacheFailure::Unknown => false,
    }
}

pub fn is_tolerated(access: Access, failure: CacheFailure) -> (soft: bool)
    ensures
        soft == tolerated(access, failure),
{
    match failure {
        CacheFailure::Io(kind) => match kind {
            IoKind::NotFound => match access {
                Access::Write => false,
                _ => true,
            },
            IoKind::PermissionDenied => true,
            IoKind::WouldBlock => true,
            IoKind::Other => true,
            IoKind::Unexpected => false,
        },
        CacheFailure::Json => match access {
            Access::Remove => false,
            _ => true,
        },
        CacheFailure::Unknown => false,
    }
}

/// What reading the cache comes to: what was read, nothing where the failure
/// is borne, the failure where it is not.
pub fn get_cached<T>(outcome: Result<T, CacheFailure>) -> (res: Result<Option<T>, CacheFailure>)
    ensures
        res == match outcome {
            Ok(cached) => Ok::<Option<T>, CacheFailure>(Some(cached)),
            Err(failure) => if tolerated(Access::Read, failure) {
                Ok::<Option<T>, CacheFailure>(None)
            } else {
                Err::<Option<T>, CacheFailure>(failure)
            },
        },
{
    match outcome {
        Ok(cached) => Ok(Some(cached)),
        Err(failure) => if is_tolerated(Access::Read, failure) {
            Ok(None)
        } else {
            Err(failure)
        },
    }
}

/// As `get_cached`, for a reader that hands out the place of the cache file
/// beside what it holds: the place is dropped.
pub fn get_cached_data<P, T>(outcome: Result<(P, T), CacheFailure>) -> (res: Result<
    Option<T>,
    CacheFailure,
>)
    ensures
        res == match outcome {
            Ok(found) => Ok::<Option<T>, CacheFailure>(Some(found.1)),
            Err(failure) => if tolerated(Access::Read, failure) {
                Ok::<Option<T>, CacheFailure>(None)
            } else {
                Err::<Option<T>, CacheFailure>(failure)
            },
        },
{
    match get_cached(outcome) {
        Ok(Some(found)) => Ok(Some(found.1)),
        Ok(None) => Ok(None),
        Err(failure) => Err(failure),
    }
}

/// What writing the cache comes to: a failure that is borne is no failure.
pub fn store_data(outcome: Result<(), CacheFailure>) -> (res: Result<(), CacheFailure>)
    ensures
        res == match outcome {
            Ok(_) => Ok::<(), CacheFailure>(()),
            Err(failure) => if tolerated(Access::Write, failure) {
                Ok::<(), CacheFailure>(())
            } else {
                Err::<(), CacheFailure>(failure)
            },
        },
{
    match outcome {
        Ok(_) => Ok(()),
        Err(failure) => if is_tolerated(Access::Write, failure) {
            Ok(())
        } else {
            Err(failure)
        },
    }
}

/// What removing the cache comes to: a failure that is borne is no failure.
pub fn remove_cache(outcome: Result<(), CacheFailure>) -> (res: Result<(), CacheFailure>)
    ensures
        res == match outcome {
            Ok(_) => Ok::<(), CacheFailure>(()),
            Err(failure) => if tolerated(Access::Remove, failure) {
                Ok::<(), CacheFailure>(())
            } else {
                Err::<(), CacheFailure>(failure)
            },
        },
{
    match outcome {
        Ok(_) => Ok(()),
        Err(failure) => if is_tolerated(Access::Remove, failure) {
            Ok(())
        } else {
            Err(failure)
        },
    }
}

/// The age of something created at the second `created_at`, at the moment
/// `now_nanos` nanoseconds into the second `now_secs`, in nanoseconds.
/// Negative where the clock has gone back since.
pub open spec fn age_nanos(created_at: i64, now_secs: i64, now_nanos: u32) -> int {
    (now_secs - created_at) * 1_000_000_000 + now_nanos
}

/// Whether a cache of that age is stale: it is once its age has reached
/// `stale_after`.
pub open spec fn stale(created_at: i64, now_secs: i64, now_nanos: u32, stale_after: Span) -> bool {
    age_nanos(created_at, now_secs, now_nanos) >= stale_after.total_nanos()
}

/// Decides whether the cache is too old to be used. Seconds are counted from
/// 1970-01-01T00:00:00Z.
pub fn cache_is_stale(created_at: i64, now_secs: i64, now_nanos: u32, stale_after: Span) -> (res:
    Result<bool, CacheError>)
    ensures
        res == if stale_after.in_range() {
            Ok::<bool, CacheError>(stale(created_at, now_secs, now_nanos, stale_after))
        } else {
            Err::<bool, CacheError>(CacheError::StaleAfterOutOfRange)
        },
{
    if stale_after.nanos >= NANOS_PER_SEC || stale_after.secs > LONGEST_SPAN_SECS || (
    stale_after.secs == LONGEST_SPAN_SECS && stale_after.nanos > LONGEST_SPAN_NANOS) {
        return Err(CacheError::StaleAfterOutOfRange);
    }
    let elapsed: i128 = (now_secs as i128) - (created_at as i128);
    let age: i128 = elapsed * 1_000_000_000 + (now_nanos as i128);
    let limit: i128 = (stale_after.secs as i128) * 1_000_000_000 + (stale_after.nanos as i128);
    Ok(age >= limit)
}

/// What is to be had from the cache under the user's wishes and the cache's
/// age.
pub open spec fn current_of(
    ignore_cache: bool,
    force_cache: bool,
    cached: Option<CachedData>,
    now_secs: i64,
    now_nanos: u32,
    stale_after: Span,
) -> Result<Option<CachedData>, CacheError> {
    if ignore_cache {
        Ok(None)
    } else {
        match cached {
            None => if force_cache {
                Err(CacheError::NoCachedData)
            } else {
                Ok(None)
            },
            Some(data) => if !stale_after.in_range() {
                Err(CacheError::StaleAfterOutOfRange)
            } else if stale(data.created_at, now_secs, now_nanos, stale_after) {
                Ok(None)
            } else {
                Ok(Some(data))
            },
        }
    }
}

/// Insists on cached data where the user has asked for nothing else.
pub fn data_from_cache<T>(force: bool, cached: Option<T>) -> (res: Result<Option<T>, CacheError>)
    ensures
        res == if force && cached is None {
            Err::<Option<T>, CacheError>(CacheError::NoCachedData)
        } else {
            Ok::<Option<T>, CacheError>(cached)
        },
{
    if force && cached.is_none() {
        return Err(CacheError::NoCachedData);
    }
    Ok(cached)
}

/// Hands on what the cache holds if it is to be used and is not stale. With
/// `ignore_cache` nothing is used; with `force_cache` an empty cache is an
/// error.
pub fn cached_data_if_current(
    ignore_cache: bool,
    force_cache: bool,
    cached: Option<CachedData>,
    now_secs: i64,
    now_nanos: u32,
    stale_after: Span,
) -> (res: Result<Option<CachedData>, CacheError>)
    ensures
        res == current_of(ignore_cache, force_cache, cached, now_secs, now_nanos, stale_after),
{
    if ignore_cache {
        return Ok(None);
    }
    let data = match data_from_cache(force_cache, cached) {
        Ok(data) => data,
        Err(e) => {
            return Err(e);
        },
    };
    match data {
        Some(data) => match cache_is_stale(data.created_at, now_secs, now_nanos, stale_after) {
            Ok(true) => Ok(None),
            Ok(false) => Ok(Some(data)),
            Err(e) => Err(e),
        },
        None => Ok(None),
    }
}

} // verus!
