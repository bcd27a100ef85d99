//! The chaos the mock bank injects: which requests are spared, and how long
//! the others are held back before they are served (or failed at random).
use vstd::prelude::*;
use rand::Rng;
use crate::text::{starts_with, str_eq};

verus! {

/// Requests to these paths are never disturbed: the chaos settings
/// themselves and the API documentation.
pub open spec fn chaos_exempt(path: Seq<char>) -> bool {
    path == "/api/v1/chaos"@ || "/docs"@.is_prefix_of(path) || "/api-docs"@.is_prefix_of(path)
}

/// What to do with a request before serving it.
pub enum ChaosStep {
    /// Serve it at once.
    PassThrough,
    /// Hold it back this long, then serve it or fail it at random.
    Disturb { delay_ms: u64 },
}

/// Whether requests to `path` are spared.
pub fn is_chaos_exempt(path: &str) -> (r: bool)
    ensures
        r == chaos_exempt(path@),
{
    str_eq(path, "/api/v1/chaos") || starts_with(path, "/docs") || starts_with(path, "/api-docs")
}

/// Calls `rand::thread_rng().gen_range(low..=high)`. Trusted to return a
/// number between `low` and `high` inclusive, as the documentation of
/// `Rng::gen_range` promises; it panics on an empty range, which the
/// precondition rules out. Nothing else is claimed of the number drawn.
#[verifier::external_body]
fn random_between(low: u64, high: u64) -> (r: u64)
    requires
        low <= high,
    ensures
        low <= r <= high,
{
    rand::thread_rng().gen_range(low..=high)
}

/// Decides how to treat a request to `path`: spared paths and a disabled
/// chaos pass through; otherwise the request is held back for a random
/// latency between the configured bounds.
pub fn plan_chaos(path: &str, enabled: bool, min_latency_ms: u64, max_latency_ms: u64) -> (r:
    ChaosStep)
    requires
        enabled && !chaos_exempt(path@) ==> min_latency_ms <= max_latency_ms,
    ensures
        match r {
            ChaosStep::PassThrough => chaos_exempt(path@) || !enabled,
            ChaosStep::Disturb { delay_ms } => !chaos_exempt(path@) && enabled && min_latency_ms
                <= delay_ms <= max_latency_ms,
        },
{
    if is_chaos_exempt(path) {
        return ChaosStep::PassThrough;
    }
    if !enabled {
        return ChaosStep::PassThrough;
    }
    let delay_ms = random_between(min_latency_ms, max_latency_ms);
    ChaosStep::Disturb { delay_ms }
}

} // verus!
