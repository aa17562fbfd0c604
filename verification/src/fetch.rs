//! The artifact fetch phase: cached files are trusted and skipped, a
//! download is retried a bounded number of times with a fixed delay, an
//! unsupported target is a non-error skip, and exhausted retries escalate
//! to a fatal `DownloadFailed`.

use vstd::prelude::*;
use crate::error::{ApiFault, Error};
use crate::expand::PairView;
use crate::ident::{PackageIdent, PkgTarget};
use crate::task::{artifact_path_view, DownloadTask};

verus! {

/// The depot's answer to one artifact fetch attempt.
#[derive(Debug, PartialEq, Eq)]
pub enum FetchResponse {
    /// The artifact file was written into the artifacts directory.
    Written,
    /// The depot does not serve this platform/architecture; no file was
    /// written. This is a deliberate soft failure, distinct from an error.
    UnsupportedTarget,
    /// Any other depot failure; a candidate for a retry.
    Fault(ApiFault),
}

/// How one expanded pair ended the fetch phase.
#[derive(Debug, Clone, Copy, PartialEq, Eq)]
pub enum ItemStatus {
    /// The cached file was used; no network call was made.
    Cached,
    /// The artifact was downloaded.
    Downloaded,
    /// The target is unsupported; no file exists and none is expected.
    SkippedUnsupported,
}

/// Whether the item ended with its artifact on disk; only such items go
/// through the key phase, and only they count into the final tally.
pub open spec fn artifact_present(s: ItemStatus) -> bool {
    !(s is SkippedUnsupported)
}

pub fn needs_key_phase(status: &ItemStatus) -> (r: bool)
    ensures
        r == artifact_present(*status),
{
    match status {
        ItemStatus::SkippedUnsupported => false,
        _ => true,
    }
}

/// Whether the fetch phase touches the network for one pair.
#[derive(Debug, PartialEq, Eq)]
pub enum FetchPlan {
    /// A file already sits at the pair's cache path; trust it, skip the
    /// network entirely.
    UseCached,
    /// Nothing is cached; download with bounded retry.
    Download,
}

pub open spec fn fetch_plan_spec(cached: bool) -> FetchPlan {
    if cached {
        FetchPlan::UseCached
    } else {
        FetchPlan::Download
    }
}

/// Progress of the bounded retry around one artifact download.
#[derive(Debug, Clone, Copy, PartialEq, Eq)]
pub struct RetryState {
    /// Attempts already made (and failed).
    pub attempts_made: u64,
}

/// What the retry policy asks for after one attempt's response.
#[derive(Debug, PartialEq, Eq)]
pub enum FetchStep {
    /// The item is done with this status; no further attempt.
    Complete(ItemStatus),
    /// Wait `wait_ms` milliseconds, then attempt again.
    RetryAfter { wait_ms: u64, state: RetryState },
    /// Every attempt failed; the run aborts with this error.
    Escalate(Error),
}

impl DownloadTask {
    /// Decides whether a pair's artifact is downloaded at all: a file at
    /// the deterministic cache path is trusted as-is, with no network call.
    pub fn get_downloaded_archive(&self, cached: bool) -> (r: FetchPlan)
        ensures
            r == fetch_plan_spec(cached),
    {
        if cached {
            FetchPlan::UseCached
        } else {
            FetchPlan::Download
        }
    }

    /// The retry policy's answer to the response of attempt
    /// `state.attempts_made + 1`.
    pub open spec fn fetch_step_spec(
        self,
        ident: PackageIdent,
        target: PkgTarget,
        state: RetryState,
        response: FetchResponse,
    ) -> FetchStep {
        match response {
            FetchResponse::Written => FetchStep::Complete(ItemStatus::Downloaded),
            FetchResponse::UnsupportedTarget => FetchStep::Complete(ItemStatus::SkippedUnsupported),
            FetchResponse::Fault(f) => if state.attempts_made + 1 < self.retries {
                FetchStep::RetryAfter {
                    wait_ms: self.retry_wait_ms,
                    state: RetryState { attempts_made: (state.attempts_made + 1) as u64 },
                }
            } else {
                FetchStep::Escalate(
                    Error::DownloadFailed {
                        ident,
                        target,
                        attempts: self.retries,
                        last: f,
                    },
                )
            },
        }
    }

    /// Feeds one attempt's response to the retry policy. A download
    /// completes the item; an unsupported target completes it as a
    /// non-error skip; a failure is retried after the configured delay
    /// until the configured attempt count is exhausted, then escalates to
    /// `DownloadFailed` carrying the pair, the attempt count and the last
    /// failure.
    pub fn fetch_artifact(
        &self,
        ident: &PackageIdent,
        target: &PkgTarget,
        state: RetryState,
        response: FetchResponse,
    ) -> (r: FetchStep)
        requires
            self.wf(),
            state.attempts_made < self.retries,
        ensures
            r == self.fetch_step_spec(*ident, *target, state, response),
    {
        match response {
            FetchResponse::Written => FetchStep::Complete(ItemStatus::Downloaded),
            FetchResponse::UnsupportedTarget => FetchStep::Complete(ItemStatus::SkippedUnsupported),
            FetchResponse::Fault(f) => {
                let next = state.attempts_made + 1;
                if next < self.retries {
                    FetchStep::RetryAfter {
                        wait_ms: self.retry_wait_ms,
                        state: RetryState { attempts_made: next },
                    }
                } else {
                    FetchStep::Escalate(
                        Error::DownloadFailed {
                            ident: ident.duplicate(),
                            target: target.duplicate(),
                            attempts: self.retries,
                            last: f,
                        },
                    )
                }
            },
        }
    }
}

/// The retry policy run from `state` against a sequence of attempt
/// responses, one per attempt actually made.
pub open spec fn retry_trace(
    task: DownloadTask,
    ident: PackageIdent,
    target: PkgTarget,
    state: RetryState,
    responses: Seq<FetchResponse>,
) -> FetchStep
    recommends
        responses.len() >= 1,
    decreases responses.len(),
{
    let step = task.fetch_step_spec(ident, target, state, responses[0]);
    match step {
        FetchStep::RetryAfter { wait_ms, state: next } => if responses.len() > 1 {
            retry_trace(task, ident, target, next, responses.drop_first())
        } else {
            step
        },
        _ => step,
    }
}

/// Retry bound, reached: a fetch that fails on every attempt makes
/// exactly the configured number of attempts — here, the remaining
/// `task.retries - state.attempts_made` of them — and then escalates to
/// `DownloadFailed` carrying the full attempt count and the last failure.
pub proof fn lemma_retry_bound(
    task: DownloadTask,
    ident: PackageIdent,
    target: PkgTarget,
    state: RetryState,
    responses: Seq<FetchResponse>,
)
    requires
        task.wf(),
        state.attempts_made + responses.len() == task.retries,
        responses.len() >= 1,
        forall|k: int| 0 <= k < responses.len() ==> responses[k] is Fault,
    ensures
        responses.last() matches FetchResponse::Fault(f) && retry_trace(
            task,
            ident,
            target,
            state,
            responses,
        ) == FetchStep::Escalate(
            Error::DownloadFailed { ident, target, attempts: task.retries, last: f },
        ),
    decreases responses.len(),
{
    assert(responses[0] is Fault);
    if responses.len() == 1 {
        assert(responses.last() == responses[0]);
    } else {
        let next = RetryState { attempts_made: (state.attempts_made + 1) as u64 };
        lemma_retry_bound(task, ident, target, next, responses.drop_first());
        assert(responses.drop_first().last() == responses.last());
    }
}

/// Retry bound, not yet reached: while failures have not exhausted the
/// attempt count, the policy always asks for another attempt after the
/// configured delay — it never gives up early and never completes.
pub proof fn lemma_retry_continues_below_bound(
    task: DownloadTask,
    ident: PackageIdent,
    target: PkgTarget,
    state: RetryState,
    responses: Seq<FetchResponse>,
)
    requires
        task.wf(),
        state.attempts_made + responses.len() < task.retries,
        responses.len() >= 1,
        forall|k: int| 0 <= k < responses.len() ==> responses[k] is Fault,
    ensures
        retry_trace(task, ident, target, state, responses) == (FetchStep::RetryAfter {
            wait_ms: task.retry_wait_ms,
            state: RetryState { attempts_made: (state.attempts_made + responses.len()) as u64 },
        }),
    decreases responses.len(),
{
    assert(responses[0] is Fault);
    if responses.len() > 1 {
        let next = RetryState { attempts_made: (state.attempts_made + 1) as u64 };
        lemma_retry_continues_below_bound(task, ident, target, next, responses.drop_first());
    }
}

/// Whether a pair's artifact must be downloaded, given the set of file
/// paths present under the download root.
pub open spec fn needs_download(present: Set<Seq<char>>, root: Seq<char>, pr: PairView) -> bool {
    !present.contains(artifact_path_view(root, pr.ident, pr.target))
}

/// Idempotence of the fetch phase: when the download root already caches
/// every artifact of the expansion set — as it does after a completed run
/// with the same inputs and the same root — every pair's cache probe
/// answers "present" and no pair is fetched over the network again.
pub proof fn lemma_second_run_fetches_nothing(
    present: Set<Seq<char>>,
    root: Seq<char>,
    pairs: Set<PairView>,
)
    requires
        forall|pr: PairView| #[trigger]
            pairs.contains(pr) ==> present.contains(
                artifact_path_view(root, pr.ident, pr.target),
            ),
    ensures
        forall|pr: PairView| #[trigger]
            pairs.contains(pr) ==> fetch_plan_spec(!needs_download(present, root, pr))
                == FetchPlan::UseCached,
{
}

} // verus!
