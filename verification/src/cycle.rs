//! The update loop's state machine.
//!
//! One cycle walks the phases `Polling → {Unchanged | Fetching → (maybe
//! Downloading → Storing) → Applying} → Scheduling → Sleeping`, forever.
//! The driver performs whatever the current phase asks for — an HTTP GET, a
//! directory listing, a file write, a subprocess run, a sleep — and hands
//! the outcome to the matching step function here, which decides the next
//! phase, updates the cycle state, and names the failure to log, if any.
//!
//! No failure of a step ends the loop: a failed cycle keeps the last applied
//! digest (so the next cycle retries the same content) and a failed interval
//! fetch keeps the last known-good delay.

use vstd::prelude::*;

use crate::cache::cache_name;
use crate::cache::find_wallpaper_path;
use crate::cache::stem_of;
use crate::error::Error;
use crate::remote::extension_from_content_type;
use crate::remote::is_success_status;
use crate::remote::status_is_success;
use crate::remote::subtype_of;
use crate::schedule::delay_until_next_update;
use crate::schedule::parse_u64_spec;

verus! {

/// The agent's only state across cycles: the digest most recently applied
/// with success (empty before the first), and the delay to fall back on when
/// interval retrieval fails.
pub struct CycleState {
    pub last_digest: String,
    pub last_delay_s: u64,
}

impl CycleState {
    /// The computed delay is always strictly positive.
    pub open spec fn wf(&self) -> bool {
        1 <= self.last_delay_s
    }

    /// The state before any cycle has run: no wallpaper applied yet, and a
    /// short five-second fallback delay.
    pub fn new() -> (st: CycleState)
        ensures
            st.wf(),
            st.last_digest@ == Seq::<char>::empty(),
            st.last_delay_s == 5,
    {
        let st = CycleState { last_digest: String::new(), last_delay_s: 5 };
        st
    }
}

/// Where a cycle stands, and so what the driver must do next.
#[derive(Debug, PartialEq, Eq)]
pub enum Phase {
    /// GET the digest endpoint.
    Polling,
    /// The digest changed: list the cache directory.
    Fetching { digest: String },
    /// Not cached: GET the wallpaper endpoint.
    Downloading { digest: String },
    /// Downloaded: write the body's bytes under `file_name` in the cache
    /// directory.
    Storing { digest: String, file_name: String },
    /// Run the setter commands on the cached file.
    Applying { digest: String, file_name: String },
    /// GET the interval endpoint.
    Scheduling,
    /// Sleep this many seconds, then start the next cycle at `Polling`.
    Sleeping { delay_s: u64 },
}

/// What came back from a GET whose body is text: a transport error (the
/// server was unreachable), or a response with its status and body.
#[derive(Debug, PartialEq, Eq)]
pub enum HttpText {
    Transport { message: String },
    Response { status: u16, body: String },
}

/// What came back from the wallpaper GET: a transport error, or a response
/// with its status and `Content-Type` header (`None` when absent or
/// unreadable).  The body's bytes stay with the driver; the machine only
/// names the file they go to.
#[derive(Debug, PartialEq, Eq)]
pub enum DownloadEvent {
    Transport { message: String },
    Response { status: u16, content_type: Option<String> },
}

/// What a cycle does with a digest response: treat the cycle as failed, skip
/// the fetch-and-apply path, or fetch the changed wallpaper.
#[derive(Debug, PartialEq, Eq, Structural)]
pub enum DigestDecision {
    /// A transport error or non-success status: fail the cycle.
    Refused,
    /// The digest equals the last applied one: nothing to do.
    Unchanged,
    /// A new digest: fetch and apply it.
    Changed,
}

/// The decision a successful digest GET leads to.
pub open spec fn digest_decision(last_digest: Seq<char>, status: u16, body: Seq<char>) -> DigestDecision {
    if !is_success_status(status) {
        DigestDecision::Refused
    } else if body == last_digest {
        DigestDecision::Unchanged
    } else {
        DigestDecision::Changed
    }
}

/// The digest recorded after the apply step: the new digest when the apply
/// succeeded, the old one otherwise (so a failed apply is retried).
pub open spec fn applied_digest(old_digest: Seq<char>, digest: Seq<char>, ok: bool) -> Seq<char> {
    if ok {
        digest
    } else {
        old_digest
    }
}

/// Law: when the service reports the digest recorded as last applied, the
/// cycle's decision is `Unchanged`: it proceeds straight to scheduling, so
/// no download and no setter subprocess runs.
pub proof fn lemma_unchanged_digest_skips_cycle(last_digest: Seq<char>, status: u16, body: Seq<char>)
    requires
        is_success_status(status),
        body == last_digest,
    ensures
        digest_decision(last_digest, status, body) == DigestDecision::Unchanged,
{
}

/// Law (two consecutive cycles): a digest applied with success is exactly
/// what the next cycle compares against, so when the service reports the
/// same digest again, the next cycle's decision is `Unchanged` — no second
/// download, no second apply — whatever was recorded before.
pub proof fn lemma_applied_digest_not_refetched(old_digest: Seq<char>, d: Seq<char>, status: u16)
    requires
        is_success_status(status),
    ensures
        digest_decision(applied_digest(old_digest, d, true), status, d)
            == DigestDecision::Unchanged,
{
}

/// Step out of `Polling`: reads the digest response.
///
/// A transport error or non-success status fails the cycle (straight to
/// `Scheduling`, with the failure to log); a digest equal to the last
/// applied one goes to `Scheduling` with nothing to log; a new digest moves
/// to `Fetching`.
pub fn on_digest_response(st: &CycleState, resp: HttpText) -> (r: (Phase, Option<Error>))
    ensures
        match resp {
            HttpText::Transport { message } => r.0 == Phase::Scheduling && r.1 == Some(
                Error::TransportFailure(message),
            ),
            HttpText::Response { status, body } => {
                match digest_decision(st.last_digest@, status, body@) {
                    DigestDecision::Refused => r.0 == Phase::Scheduling && (r.1 matches Some(e)
                        && e is ProtocolFailure),
                    DigestDecision::Unchanged => r == (Phase::Scheduling, None::<Error>),
                    DigestDecision::Changed => r == (
                        Phase::Fetching { digest: body },
                        None::<Error>,
                    ),
                }
            },
        },
{
    match resp {
        HttpText::Transport { message } => (
            Phase::Scheduling,
            Some(Error::TransportFailure(message)),
        ),
        HttpText::Response { status, body } => {
            if !status_is_success(status) {
                return (
                    Phase::Scheduling,
                    Some(
                        Error::ProtocolFailure(
                            String::from_str("the digest request returned a non-success status"),
                        ),
                    ),
                );
            }
            if body.eq(&st.last_digest) {
                (Phase::Scheduling, None)
            } else {
                (Phase::Fetching { digest: body }, None)
            }
        },
    }
}

/// Step out of `Fetching`: reads the cache directory listing.
///
/// A listing failure fails the cycle with `CacheListFailure`.  When some
/// entry's stem is the digest, the first such entry is applied as it is —
/// no download; otherwise the cycle moves on to `Downloading`.
pub fn on_cache_listing(digest: String, listing: Result<Vec<String>, String>, cache_path: &str) -> (r:
    (Phase, Option<Error>))
    ensures
        match listing {
            Err(m) => r.0 == Phase::Scheduling && (r.1 matches Some(
                Error::CacheListFailure { path, message },
            ) && path@ == cache_path@ && message@ == m@),
            Ok(entries) => {
                if exists|k: int|
                    0 <= k < entries@.len() && stem_of(#[trigger] entries@[k]@) == digest@ {
                    &&& r.1 is None
                    &&& r.0 matches Phase::Applying { digest: d, file_name: f } && d@ == digest@
                        && (exists|i: int|
                        {
                            &&& 0 <= i < entries@.len()
                            &&& f@ == #[trigger] entries@[i]@
                            &&& stem_of(entries@[i]@) == digest@
                            &&& forall|k: int|
                                0 <= k < i ==> stem_of(#[trigger] entries@[k]@) != digest@
                        })
                } else {
                    r == (Phase::Downloading { digest }, None::<Error>)
                }
            },
        },
{
    let mut entries = match listing {
        Err(m) => {
            return (
                Phase::Scheduling,
                Some(Error::CacheListFailure { path: cache_path.to_owned(), message: m }),
            );
        },
        Ok(entries) => entries,
    };
    match find_wallpaper_path(&entries, digest.as_str()) {
        Some(i) => {
            let file_name = entries.remove(i);
            (Phase::Applying { digest, file_name }, None)
        },
        None => (Phase::Downloading { digest }, None),
    }
}

/// Step out of `Downloading`: reads the wallpaper response's status and
/// `Content-Type`.
///
/// A transport error, a non-success status, or a missing or malformed
/// content type fails the cycle; otherwise the cycle moves to `Storing`
/// under the name `<digest>.<subtype>`.
pub fn on_wallpaper_response(digest: String, resp: DownloadEvent) -> (r: (Phase, Option<Error>))
    ensures
        match resp {
            DownloadEvent::Transport { message } => r.0 == Phase::Scheduling && r.1 == Some(
                Error::TransportFailure(message),
            ),
            DownloadEvent::Response { status, content_type } => {
                if !is_success_status(status) {
                    r.0 == Phase::Scheduling && (r.1 matches Some(e) && e is ProtocolFailure)
                } else {
                    match content_type {
                        Some(ct) => match subtype_of(ct@) {
                            Some(sub) => if sub.len() > 0 {
                                &&& r.1 is None
                                &&& r.0 matches Phase::Storing { digest: d, file_name: f } && d@
                                    == digest@ && f@ == cache_name(digest@, sub)
                            } else {
                                r.0 == Phase::Scheduling && (r.1 matches Some(e)
                                    && e is ProtocolFailure)
                            },
                            None => r.0 == Phase::Scheduling && (r.1 matches Some(e)
                                && e is ProtocolFailure),
                        },
                        None => r.0 == Phase::Scheduling && (r.1 matches Some(e)
                            && e is ProtocolFailure),
                    }
                }
            },
        },
{
    match resp {
        DownloadEvent::Transport { message } => (
            Phase::Scheduling,
            Some(Error::TransportFailure(message)),
        ),
        DownloadEvent::Response { status, content_type } => {
            if !status_is_success(status) {
                return (
                    Phase::Scheduling,
                    Some(
                        Error::ProtocolFailure(
                            String::from_str(
                                "the wallpaper request returned a non-success status",
                            ),
                        ),
                    ),
                );
            }
            match extension_from_content_type(content_type.as_ref()) {
                Ok(ext) => {
                    let file_name = crate::cache::wallpaper_file_name(digest.as_str(), ext.as_str());
                    (Phase::Storing { digest, file_name }, None)
                },
                Err(e) => (Phase::Scheduling, Some(e)),
            }
        },
    }
}

/// Step out of `Storing`: reads the file write's outcome.
///
/// A write failure fails the cycle with `CacheWriteFailure`; a stored file
/// moves the cycle to `Applying`.
pub fn on_store_result(
    digest: String,
    file_name: String,
    written: Result<(), String>,
    file_path: &str,
) -> (r: (Phase, Option<Error>))
    ensures
        match written {
            Err(m) => r.0 == Phase::Scheduling && (r.1 matches Some(
                Error::CacheWriteFailure { path, message },
            ) && path@ == file_path@ && message@ == m@),
            Ok(u) => r == (Phase::Applying { digest, file_name }, None::<Error>),
        },
{
    match written {
        Err(m) => (
            Phase::Scheduling,
            Some(Error::CacheWriteFailure { path: file_path.to_owned(), message: m }),
        ),
        Ok(()) => (Phase::Applying { digest, file_name }, None),
    }
}

/// Step out of `Applying`: reads the outcome of the setter run.
///
/// Only here, and only on success, does `last_digest` advance: a failed
/// apply keeps the old digest, so the next cycle retries the same content
/// without re-downloading it.
pub fn on_apply_result(st: &mut CycleState, digest: String, applied: Result<(), Error>) -> (r: (
    Phase,
    Option<Error>,
))
    requires
        old(st).wf(),
    ensures
        final(st).wf(),
        final(st).last_delay_s == old(st).last_delay_s,
        r.0 == Phase::Scheduling,
        final(st).last_digest@ == applied_digest(old(st).last_digest@, digest@, applied is Ok),
        match applied {
            Ok(u) => final(st).last_digest@ == digest@ && r.1 is None,
            Err(e) => final(st).last_digest == old(st).last_digest && r.1 == Some(e),
        },
{
    match applied {
        Ok(()) => {
            st.last_digest = digest;
            (Phase::Scheduling, None)
        },
        Err(e) => (Phase::Scheduling, Some(e)),
    }
}

/// Step out of `Scheduling`: reads the interval response and computes the
/// delay to the next aligned wake-up.
///
/// On a transport error, or a body that is not a positive base-10 integer,
/// the last known-good delay is kept (and the failure reported); otherwise
/// the delay to one second past the next interval boundary becomes the new
/// fallback.  Either way the cycle ends at `Sleeping` with a strictly
/// positive delay, and the last applied digest is untouched.
pub fn on_interval_response(st: &mut CycleState, resp: HttpText) -> (r: (Phase, Option<Error>))
    requires
        old(st).wf(),
    ensures
        final(st).wf(),
        final(st).last_digest == old(st).last_digest,
        r.0 == (Phase::Sleeping { delay_s: final(st).last_delay_s }),
        match resp {
            HttpText::Transport { message } => final(st).last_delay_s == old(st).last_delay_s
                && r.1 == Some(Error::TransportFailure(message)),
            HttpText::Response { status, body } => {
                if parse_u64_spec(body@) is None || parse_u64_spec(body@) == Some(0u64) {
                    final(st).last_delay_s == old(st).last_delay_s && r.1 == Some(
                        Error::InvalidInterval,
                    )
                } else {
                    r.1 is None && 2 <= final(st).last_delay_s <= parse_u64_spec(body@)->Some_0
                        + 1
                }
            },
        },
{
    match resp {
        HttpText::Transport { message } => {
            let delay_s = st.last_delay_s;
            (Phase::Sleeping { delay_s }, Some(Error::TransportFailure(message)))
        },
        HttpText::Response { status: _, body } => {
            match delay_until_next_update(body.as_str()) {
                Ok(delay_s) => {
                    st.last_delay_s = delay_s;
                    (Phase::Sleeping { delay_s }, None)
                },
                Err(e) => {
                    let delay_s = st.last_delay_s;
                    (Phase::Sleeping { delay_s }, Some(e))
                },
            }
        },
    }
}

} // verus!
