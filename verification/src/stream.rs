//! Stream locations and quality fallback.
//!
//! A stream-location response nominally succeeds even when the URL is
//! unusable for the requested quality; a non-empty restriction list marks
//! that case.  Fallback walks the fixed quality order from the preferred
//! position downward, returns the first unrestricted location, aborts on
//! a rejected secret, and treats any other failure as transient for that
//! quality alone.

use vstd::prelude::*;

use crate::error::ApiError;
use crate::quality::fallback_order_spec;
use crate::quality::Quality;

verus! {

/// A protected media location returned by the streaming endpoint.
///
/// `sampling_rate_hz` holds the sampling rate in hertz; `restrictions`
/// non-empty marks the URL as unusable for the requested quality even
/// though the request nominally succeeded.
#[derive(Debug, Clone)]
pub struct StreamUrl {
    pub url: String,
    pub format_id: u32,
    pub mime_type: String,
    pub sampling_rate_hz: u64,
    pub bit_depth: Option<u32>,
    pub track_id: u64,
    pub restrictions: Vec<String>,
}

impl StreamUrl {
    /// Is this location unusable for the requested quality?
    pub fn has_restrictions(&self) -> (r: bool)
        ensures
            r == (self.restrictions@.len() > 0),
    {
        self.restrictions.len() > 0
    }
}

/// Assemble a `StreamUrl` from the optional fields of a nominally
/// successful response, applying the defaults the client guarantees:
/// empty text for absent strings, zero for absent numbers, and numeric
/// ids truncated to their field width.
pub fn stream_url_from_fields(
    track_id: u64,
    url: Option<String>,
    format_id: Option<u64>,
    mime_type: Option<String>,
    sampling_rate_hz: Option<u64>,
    bit_depth: Option<u64>,
    restrictions: Vec<String>,
) -> (r: StreamUrl)
    ensures
        r.track_id == track_id,
        url matches Some(u) ==> r.url@ == u@,
        url is None ==> r.url@ == Seq::<char>::empty(),
        format_id matches Some(f) ==> r.format_id == f as u32,
        format_id is None ==> r.format_id == 0,
        mime_type matches Some(m) ==> r.mime_type@ == m@,
        mime_type is None ==> r.mime_type@ == Seq::<char>::empty(),
        sampling_rate_hz matches Some(s) ==> r.sampling_rate_hz == s,
        sampling_rate_hz is None ==> r.sampling_rate_hz == 0,
        bit_depth matches Some(b) ==> r.bit_depth == Some(b as u32),
        bit_depth is None ==> r.bit_depth is None,
        r.restrictions@ == restrictions@,
{
    let url_v = match url {
        Some(u) => u,
        None => String::new(),
    };
    let format_v: u32 = match format_id {
        Some(f) => #[verifier::truncate] (f as u32),
        None => 0,
    };
    let mime_v = match mime_type {
        Some(m) => m,
        None => String::new(),
    };
    let rate_v: u64 = match sampling_rate_hz {
        Some(s) => s,
        None => 0,
    };
    let depth_v: Option<u32> = match bit_depth {
        Some(b) => Some(#[verifier::truncate] (b as u32)),
        None => None,
    };
    StreamUrl {
        url: url_v,
        format_id: format_v,
        mime_type: mime_v,
        sampling_rate_hz: rate_v,
        bit_depth: depth_v,
        track_id,
        restrictions,
    }
}

/// How one stream-location request ended, as the caller observed it.
#[derive(Debug, Clone)]
pub enum StreamAttempt {
    /// The endpoint answered with a location (possibly restricted).
    Delivered(StreamUrl),
    /// The endpoint rejected the signing secret.
    SecretRejected,
    /// Any other failure, transient for this quality alone.
    Failed,
}

/// What the fallback walk returns given the attempt outcomes from
/// position `k` on: the first unrestricted delivery wins, a rejected
/// secret aborts everything, and exhaustion means no quality is
/// available.
pub open spec fn resolve_spec(attempts: Seq<StreamAttempt>, k: int) -> Result<
    StreamUrl,
    ApiError,
>
    decreases attempts.len() - k,
{
    if !(0 <= k < attempts.len()) {
        Err(ApiError::NoQualityAvailable)
    } else {
        match attempts[k] {
            StreamAttempt::Delivered(u) => if u.restrictions@.len() == 0 {
                Ok(u)
            } else {
                resolve_spec(attempts, k + 1)
            },
            StreamAttempt::SecretRejected => Err(ApiError::InvalidAppSecret),
            StreamAttempt::Failed => resolve_spec(attempts, k + 1),
        }
    }
}

/// The position in the fallback order at which the walk for `preferred`
/// starts; every quality occurs in the order, so this is its index.
pub open spec fn start_index_spec(preferred: Quality) -> int {
    match preferred {
        Quality::HiRes192 => 0,
        Quality::HiRes96 => 1,
        Quality::Cd => 2,
        Quality::Mp3 => 3,
    }
}

/// The position of `preferred` in the fixed fallback order.
pub fn fallback_start_index(preferred: Quality) -> (r: usize)
    ensures
        r == start_index_spec(preferred),
        0 <= r < fallback_order_spec().len(),
        fallback_order_spec()[r as int] == preferred,
{
    match preferred {
        Quality::HiRes192 => 0,
        Quality::HiRes96 => 1,
        Quality::Cd => 2,
        Quality::Mp3 => 3,
    }
}

/// The qualities the fallback walk will try for `preferred`: the fixed
/// order from `preferred`'s position to the end, never wrapping around
/// to higher qualities.
pub fn plan_qualities(preferred: Quality) -> (r: Vec<Quality>)
    ensures
        r@ == fallback_order_spec().skip(start_index_spec(preferred)),
{
    let order = Quality::fallback_order();
    let start = fallback_start_index(preferred);
    let mut out: Vec<Quality> = Vec::new();
    let mut k: usize = start;
    let n = order.len();
    while k < n
        invariant
            start <= k <= n == order@.len(),
            order@ == fallback_order_spec(),
            start == start_index_spec(preferred),
            out@ =~= order@.subrange(start as int, k as int),
        decreases n - k,
    {
        out.push(order[k]);
        k = k + 1;
    }
    proof {
        assert(out@ =~= fallback_order_spec().skip(start_index_spec(preferred)));
    }
    out
}

/// What the walk does after one attempt.
#[derive(Debug, Clone)]
pub enum FallbackDecision {
    /// Return this location now (first fit, not best fit).
    Accept(StreamUrl),
    /// Abort the whole walk and propagate this error unchanged.
    Abort(ApiError),
    /// Move on to the next lower quality.
    TryNext,
}

/// Decide what one attempt outcome means for the walk: an unrestricted
/// delivery is accepted, a rejected secret aborts (retrying at lower
/// fidelity cannot help), anything else moves on.
pub fn fallback_decision(attempt: StreamAttempt) -> (r: FallbackDecision)
    ensures
        attempt matches StreamAttempt::Delivered(u) ==> (u.restrictions@.len() == 0 ==> (r matches
            FallbackDecision::Accept(x) && x == u)),
        attempt matches StreamAttempt::Delivered(u) ==> (u.restrictions@.len() > 0
            ==> r is TryNext),
        attempt is SecretRejected ==> (r matches FallbackDecision::Abort(e) && e
            == ApiError::InvalidAppSecret),
        attempt is Failed ==> r is TryNext,
        r matches FallbackDecision::Accept(x) ==> (attempt matches StreamAttempt::Delivered(u) && x
            == u && u.restrictions@.len() == 0),
        r matches FallbackDecision::Abort(e) ==> attempt is SecretRejected && e
            == ApiError::InvalidAppSecret,
        r is TryNext ==> (attempt is Failed || (attempt matches StreamAttempt::Delivered(u)
            && u.restrictions@.len() > 0)),
{
    match attempt {
        StreamAttempt::Delivered(u) => {
            if u.restrictions.len() == 0 {
                FallbackDecision::Accept(u)
            } else {
                FallbackDecision::TryNext
            }
        },
        StreamAttempt::SecretRejected => FallbackDecision::Abort(ApiError::InvalidAppSecret),
        StreamAttempt::Failed => FallbackDecision::TryNext,
    }
}

/// Run the whole fallback walk over the attempt outcomes for the tried
/// qualities, in order: exactly the result `resolve_spec` describes.
#[verifier::loop_isolation(false)]
pub fn resolve_fallback(attempts: Vec<StreamAttempt>) -> (r: Result<StreamUrl, ApiError>)
    ensures
        r == resolve_spec(attempts@, 0),
{
    let ghost orig = attempts@;
    let mut rest = attempts;
    while rest.len() > 0
        invariant
            rest@.len() <= orig.len(),
            rest@ =~= orig.skip(orig.len() - rest@.len()),
            resolve_spec(orig, 0) == resolve_spec(orig, orig.len() - rest@.len()),
        decreases rest@.len(),
    {
        let ghost k = orig.len() - rest@.len();
        let a = rest.remove(0);
        proof {
            assert(a == orig[k]);
            assert(rest@ =~= orig.skip(k + 1));
        }
        match fallback_decision(a) {
            FallbackDecision::Accept(u) => {
                return Ok(u);
            },
            FallbackDecision::Abort(e) => {
                proof {
                    assert(e == ApiError::InvalidAppSecret);
                }
                return Err(e);
            },
            FallbackDecision::TryNext => {
            },
        }
    }
    Err(ApiError::NoQualityAvailable)
}

/// A rejected secret stops the walk: whenever some attempt rejects the
/// secret and every earlier attempt neither delivered an unrestricted
/// location nor rejected the secret, the walk's result is
/// `InvalidAppSecret`, whatever the attempts after it hold.
pub proof fn lemma_secret_rejection_aborts(attempts: Seq<StreamAttempt>, i: int, k: int)
    requires
        0 <= i <= k < attempts.len(),
        attempts[k] is SecretRejected,
        forall|j: int|
            i <= j < k ==> (attempts[j] is Failed || (#[trigger] attempts[j] matches
                StreamAttempt::Delivered(u) && u.restrictions@.len() > 0)),
    ensures
        resolve_spec(attempts, i) == Err::<StreamUrl, ApiError>(ApiError::InvalidAppSecret),
    decreases k - i,
{
    if i < k {
        lemma_secret_rejection_aborts(attempts, i + 1, k);
    }
}

} // verus!
