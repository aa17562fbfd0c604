//! The download orchestrator: a strictly phased state machine,
//! `Init -> DirsVerified -> Downloading* -> Done`, where any phase's fatal
//! error moves straight to `Failed`. There is no partial-success terminal
//! state, and a failed run offers no further action.

use vstd::prelude::*;
use crate::dirs::{dir_check_spec, probe_ok, DirProbe};
use crate::error::{ApiFault, Error};
use crate::expand::{expansion_of, ExpansionSet, ResolvedPackage};
use crate::fetch::{artifact_present, needs_key_phase, ItemStatus};
use crate::ident::PackageIdent;
use crate::task::DownloadTask;

verus! {

/// The depot status for "no matching release in this channel".
pub const STATUS_NOT_FOUND: u16 = 404;

/// The depot's answer to resolving one identifier: the latest matching
/// release with its transitive dependencies, or a fault.
#[derive(Debug, PartialEq, Eq)]
pub enum ResolveResponse {
    Resolved(ResolvedPackage),
    Fault(ApiFault),
}

impl DownloadTask {
    /// The depot's resolution answer as a result, faults passed through.
    pub fn fetch_latest_package_in_channel_for(&self, response: ResolveResponse) -> (r: Result<
        ResolvedPackage,
        ApiFault,
    >)
        ensures
            r == (match response {
                ResolveResponse::Resolved(p) => Ok::<ResolvedPackage, ApiFault>(p),
                ResolveResponse::Fault(f) => Err(f),
            }),
    {
        match response {
            ResolveResponse::Resolved(p) => Ok(p),
            ResolveResponse::Fault(f) => Err(f),
        }
    }

    /// How one identifier's resolution answer enters the run: a not-found
    /// fault is fatal as `PackageNotFound` — the run synchronizes with the
    /// depot and never falls back to anything local — and any other fault
    /// is fatal as `ApiError`.
    pub open spec fn determine_latest_spec(
        self,
        ident: PackageIdent,
        response: ResolveResponse,
    ) -> Result<ResolvedPackage, Error> {
        match response {
            ResolveResponse::Resolved(p) => Ok(p),
            ResolveResponse::Fault(f) => if f.status == STATUS_NOT_FOUND {
                Err(
                    Error::PackageNotFound {
                        ident,
                        target: self.target,
                        channel: self.channel,
                    },
                )
            } else {
                Err(Error::ApiError(f))
            },
        }
    }

    /// Folds the depot's answer for `ident` into the run (see
    /// `determine_latest_spec`).
    pub fn determine_latest_from_ident(&self, ident: &PackageIdent, response: ResolveResponse) -> (r:
        Result<ResolvedPackage, Error>)
        ensures
            r == self.determine_latest_spec(*ident, response),
    {
        match self.fetch_latest_package_in_channel_for(response) {
            Ok(p) => Ok(p),
            Err(f) => if f.status == STATUS_NOT_FOUND {
                Err(
                    Error::PackageNotFound {
                        ident: ident.duplicate(),
                        target: self.target.duplicate(),
                        channel: self.channel.clone(),
                    },
                )
            } else {
                Err(Error::ApiError(f))
            },
        }
    }

    /// The whole resolution phase: the resolved packages in input order if
    /// every identifier resolved, else the first failure, which aborts the
    /// run.
    pub open spec fn resolve_all_spec(
        self,
        idents: Seq<PackageIdent>,
        responses: Seq<ResolveResponse>,
    ) -> Result<Seq<ResolvedPackage>, Error>
        recommends
            idents.len() == responses.len(),
        decreases responses.len(),
    {
        if responses.len() == 0 {
            Ok(Seq::empty())
        } else {
            match self.determine_latest_spec(idents[0], responses[0]) {
                Err(e) => Err(e),
                Ok(p) => match self.resolve_all_spec(idents.drop_first(), responses.drop_first()) {
                    Err(e) => Err(e),
                    Ok(ps) => Ok(Seq::empty().push(p) + ps),
                },
            }
        }
    }

    /// Resolves the run's identifiers from their depot answers, one answer
    /// per input identifier, failing fast on the first fatal answer.
    pub fn expand_responses(&self, responses: Vec<ResolveResponse>) -> (r: Result<
        Vec<ResolvedPackage>,
        Error,
    >)
        requires
            responses@.len() == self.idents@.len(),
        ensures
            r matches Ok(pkgs) ==> self.resolve_all_spec(self.idents@, responses@) == Ok::<
                Seq<ResolvedPackage>,
                Error,
            >(pkgs@),
            r matches Err(e) ==> self.resolve_all_spec(self.idents@, responses@) == Err::<
                Seq<ResolvedPackage>,
                Error,
            >(e),
    {
        let ghost all = responses@;
        let mut rs = responses;
        let mut out: Vec<ResolvedPackage> = Vec::new();
        let mut i: usize = 0;
        let n = self.idents.len();
        proof {
            assert(self.idents@.skip(0) =~= self.idents@);
            assert(all.skip(0) =~= all);
            match self.resolve_all_spec(self.idents@, all) {
                Ok(res) => {
                    assert(Seq::<ResolvedPackage>::empty() + res =~= res);
                },
                Err(_) => {},
            }
        }
        while i < n
            invariant
                0 <= i <= n,
                n == self.idents@.len(),
                all == responses@,
                all.len() == n,
                rs@ == all.skip(i as int),
                match self.resolve_all_spec(self.idents@.skip(i as int), all.skip(i as int)) {
                    Ok(res) => self.resolve_all_spec(self.idents@, all) == Ok::<
                        Seq<ResolvedPackage>,
                        Error,
                    >(out@ + res),
                    Err(e) => self.resolve_all_spec(self.idents@, all) == Err::<
                        Seq<ResolvedPackage>,
                        Error,
                    >(e),
                },
            decreases n - i,
        {
            let response = rs.remove(0);
            let outcome = self.determine_latest_from_ident(&self.idents[i], response);
            proof {
                assert(self.idents@.skip(i as int)[0] == self.idents@[i as int]);
                assert(all.skip(i as int)[0] == all[i as int]);
                assert(self.idents@.skip(i as int).drop_first() =~= self.idents@.skip(i + 1));
                assert(all.skip(i as int).drop_first() =~= all.skip(i + 1));
            }
            match outcome {
                Ok(p) => {
                    let ghost pv = p;
                    let ghost out_before = out@;
                    out.push(p);
                    proof {
                        match self.resolve_all_spec(self.idents@.skip(i + 1), all.skip(i + 1)) {
                            Ok(res) => {
                                assert(self.resolve_all_spec(
                                    self.idents@.skip(i as int),
                                    all.skip(i as int),
                                ) == Ok::<Seq<ResolvedPackage>, Error>(
                                    Seq::empty().push(pv) + res,
                                ));
                                assert(out_before + (Seq::empty().push(pv) + res) =~= out@ + res);
                            },
                            Err(_) => {},
                        }
                    }
                },
                Err(e) => {
                    return Err(e);
                },
            }
            i += 1;
        }
        proof {
            assert(self.idents@.skip(n as int).len() == 0);
            assert(all.skip(n as int).len() == 0);
            assert(self.resolve_all_spec(self.idents@.skip(n as int), all.skip(n as int)) == Ok::<
                Seq<ResolvedPackage>,
                Error,
            >(Seq::empty()));
            assert(out@ + Seq::<ResolvedPackage>::empty() =~= out@);
        }
        Ok(out)
    }
}

/// One run's phase, as the orchestrator sees it.
#[derive(Debug, PartialEq, Eq)]
pub enum RunState {
    /// Inputs accepted; the download tree is not yet checked.
    Init,
    /// The download tree exists and is writable; no network touched yet.
    DirsVerified,
    /// The expansion set is built; members before `next` are done, of
    /// which `present` ended with their artifact on disk.
    Downloading { set: ExpansionSet, next: usize, present: usize },
    /// Every member is done; `count` artifacts of the set are on disk.
    Done { count: usize },
    /// The first fatal condition; the run stops here, with no
    /// partial-success result.
    Failed(Error),
}

/// Internal consistency of a state.
pub open spec fn state_wf(s: RunState) -> bool {
    match s {
        RunState::Downloading { set, next, present } => set.wf() && next < set.spec_len()
            && present <= next,
        _ => true,
    }
}

/// What the orchestrator asks the surrounding process to do next.
#[derive(Debug, PartialEq, Eq)]
pub enum RunAction {
    /// Create the download root and its `artifacts` and `keys`
    /// subdirectories and probe all three. No network is touched.
    PrepareDirs,
    /// Resolve every input identifier against the depot.
    ResolveIdents,
    /// Run the fetch/verify flow for the set member at `index`.
    ProcessItem { index: usize },
}

/// What the surrounding process reports back to the orchestrator.
#[derive(Debug, PartialEq, Eq)]
pub enum RunEvent {
    /// The download directories were created and probed.
    DirsProbed(Vec<DirProbe>),
    /// The resolution phase's outcome (`expand_responses`).
    Resolved(Result<Vec<ResolvedPackage>, Error>),
    /// One set member finished its fetch/verify flow.
    ItemDone(Result<ItemStatus, Error>),
}

/// The state after the directory probes come in.
pub open spec fn dirs_step_spec(probes: Seq<DirProbe>) -> RunState {
    match dir_check_spec(probes) {
        Ok(_) => RunState::DirsVerified,
        Err(e) => RunState::Failed(e),
    }
}

/// Whether an event is the one its state awaits; any other pairing is
/// ignored and leaves the state unchanged.
pub open spec fn event_fits(s: RunState, e: RunEvent) -> bool {
    ||| (s is Init && e is DirsProbed)
    ||| (s is DirsVerified && e is Resolved)
    ||| (s is Downloading && e is ItemDone)
}

/// The action a state awaits; a finished or failed run awaits none, so in
/// particular a failed run never reaches the network again.
pub open spec fn next_action_spec(s: RunState) -> Option<RunAction> {
    match s {
        RunState::Init => Some(RunAction::PrepareDirs),
        RunState::DirsVerified => Some(RunAction::ResolveIdents),
        RunState::Downloading { set, next, present } => Some(RunAction::ProcessItem { index: next }),
        RunState::Done { .. } => None,
        RunState::Failed(_) => None,
    }
}

impl DownloadTask {
    /// Pre-flight: a run given no input identifiers fails immediately with
    /// `NoInputIdentifiers`; everything else starts at `Init`.
    pub open spec fn start_state_spec(self) -> RunState {
        if self.idents@.len() == 0 {
            RunState::Failed(Error::NoInputIdentifiers)
        } else {
            RunState::Init
        }
    }

    pub fn start_state(&self) -> (r: RunState)
        ensures
            r == self.start_state_spec(),
            state_wf(r),
    {
        if self.idents.len() == 0 {
            RunState::Failed(Error::NoInputIdentifiers)
        } else {
            RunState::Init
        }
    }

    pub fn next_action(&self, state: &RunState) -> (r: Option<RunAction>)
        ensures
            r == next_action_spec(*state),
    {
        match state {
            RunState::Init => Some(RunAction::PrepareDirs),
            RunState::DirsVerified => Some(RunAction::ResolveIdents),
            RunState::Downloading { set: _, next, present: _ } => Some(
                RunAction::ProcessItem { index: *next },
            ),
            RunState::Done { .. } => None,
            RunState::Failed(_) => None,
        }
    }

    /// Advances the run by one event. Fatal outcomes move to `Failed` from
    /// wherever they occur; an event a state does not await is ignored.
    pub fn step(&self, state: RunState, event: RunEvent) -> (r: RunState)
        requires
            state_wf(state),
        ensures
            state_wf(r),
            !event_fits(state, event) ==> r == state,
            state is Init ==> (event matches RunEvent::DirsProbed(probes) ==> r == dirs_step_spec(
                probes@,
            )),
            state is DirsVerified ==> (event matches RunEvent::Resolved(outcome) ==> (match outcome {
                Ok(pkgs) => ({
                    let pairs = expansion_of(
                        pkgs@.map_values(|p: ResolvedPackage| p@),
                        self.target@,
                    );
                    if pairs.len() == 0 {
                        r == (RunState::Done { count: 0 })
                    } else {
                        r matches RunState::Downloading { set: s2, next: n2, present: p2 } && n2
                            == 0 && p2 == 0 && s2.wf() && s2@ == pairs && s2.spec_len()
                            == pairs.len()
                    }
                }),
                Err(e) => r == RunState::Failed(e),
            })),
            state matches RunState::Downloading { set: s0, next: n0, present: p0 } ==> (
            event matches RunEvent::ItemDone(outcome) ==> (match outcome {
                Ok(status) => ({
                    let done = p0 + (if artifact_present(status) {
                        1int
                    } else {
                        0int
                    });
                    if n0 + 1 == s0.spec_len() {
                        r == (RunState::Done { count: done as usize })
                    } else {
                        r matches RunState::Downloading { set: s2, next: n2, present: p2 } && s2
                            == s0 && n2 == n0 + 1 && p2 == done
                    }
                }),
                Err(e) => r == RunState::Failed(e),
            })),
    {
        match (state, event) {
            (RunState::Init, RunEvent::DirsProbed(probes)) => {
                match self.verify_and_prepare_download_directory(&probes) {
                    Ok(_) => RunState::DirsVerified,
                    Err(e) => RunState::Failed(e),
                }
            },
            (RunState::DirsVerified, RunEvent::Resolved(outcome)) => {
                match outcome {
                    Ok(pkgs) => {
                        let set = self.expand_sources(&pkgs);
                        proof {
                            set.lemma_no_double_count();
                        }
                        if set.len() == 0 {
                            RunState::Done { count: 0 }
                        } else {
                            RunState::Downloading { set, next: 0, present: 0 }
                        }
                    },
                    Err(e) => RunState::Failed(e),
                }
            },
            (RunState::Downloading { set, next, present }, RunEvent::ItemDone(outcome)) => {
                match outcome {
                    Ok(status) => {
                        let len = set.len();
                        proof {
                            assert(next < set.spec_len() && present <= next);
                        }
                        let done = if needs_key_phase(&status) {
                            present + 1
                        } else {
                            present
                        };
                        let n2 = next + 1;
                        if n2 == len {
                            RunState::Done { count: done }
                        } else {
                            RunState::Downloading { set, next: n2, present: done }
                        }
                    },
                    Err(e) => RunState::Failed(e),
                }
            },
            (s, _) => s,
        }
    }
}

/// An empty input identifier list fails the run immediately with
/// `NoInputIdentifiers`: the start state is already `Failed`, and a failed
/// run is offered no action — no directory is created and the depot is
/// never contacted.
pub proof fn lemma_no_inputs_no_work(task: DownloadTask)
    requires
        task.idents@.len() == 0,
    ensures
        task.start_state_spec() == RunState::Failed(Error::NoInputIdentifiers),
        next_action_spec(task.start_state_spec()) is None,
{
}

/// A download tree with an unusable directory — read-only, say — fails
/// the run with `PermissionFailed` at the directory step, whose own action
/// touches no network; the failed run is offered no further action, so no
/// network call is ever attempted.
pub proof fn lemma_permission_failure_stops_run(probes: Seq<DirProbe>)
    requires
        exists|k: int| 0 <= k < probes.len() && !probe_ok(#[trigger] probes[k]),
    ensures
        dirs_step_spec(probes) matches RunState::Failed(e) && e matches Error::PermissionFailed(_),
        next_action_spec(dirs_step_spec(probes)) is None,
{
    crate::dirs::lemma_bad_directory_fails_with_permission(probes);
}

} // verus!
