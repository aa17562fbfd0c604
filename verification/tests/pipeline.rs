use pkg_download::dirs::DirProbe;
use pkg_download::error::{mk_perm_error, ApiFault, Error};
use pkg_download::expand::ResolvedPackage;
use pkg_download::fetch::{FetchPlan, FetchResponse, FetchStep, ItemStatus, RetryState};
use pkg_download::ident::{PackageIdent, PkgTarget};
use pkg_download::keys::{
    fetch_origin_key, signer_read_outcome, verify_outcome, KeyFetchResponse, SignerReadResponse,
    VerifyResponse,
};
use pkg_download::machine::{ResolveResponse, RunAction, RunEvent, RunState};
use pkg_download::task::{DownloadTask, RETRIES, RETRY_WAIT_MS};

fn ident(origin: &str, name: &str) -> PackageIdent {
    PackageIdent {
        origin: origin.to_string(),
        name: name.to_string(),
        version: Some("1.0".to_string()),
        release: Some("20200101000000".to_string()),
    }
}

fn linux_target() -> PkgTarget {
    PkgTarget { architecture: "x86_64".to_string(), platform: "linux".to_string() }
}

fn task_for(idents: Vec<PackageIdent>, verify: bool) -> DownloadTask {
    DownloadTask {
        idents,
        target: linux_target(),
        url: "https://depot.example".to_string(),
        channel: "stable".to_string(),
        token: Some("SECRET-REDACTED".to_string()),
        download_path: "/tmp/dl".to_string(),
        verify,
        retries: RETRIES,
        retry_wait_ms: RETRY_WAIT_MS,
    }
}

fn good_probe(path: &str) -> DirProbe {
    DirProbe { path: path.to_string(), created: true, is_dir: true, readonly: false }
}

fn fault(status: u16, message: &str) -> ApiFault {
    ApiFault { status, message: message.to_string() }
}

#[test]
fn empty_input_fails_immediately_with_no_input_identifiers() {
    let t = task_for(vec![], true);
    let state = t.start_state();
    assert_eq!(state, RunState::Failed(Error::NoInputIdentifiers));
    // A failed run is offered no action: no directory is created and the
    // depot is never contacted.
    assert_eq!(t.next_action(&state), None);
}

#[test]
fn nonempty_input_starts_with_directory_preparation() {
    let t = task_for(vec![ident("core", "redis")], true);
    let state = t.start_state();
    assert_eq!(state, RunState::Init);
    assert_eq!(t.next_action(&state), Some(RunAction::PrepareDirs));
}

#[test]
fn readonly_directory_fails_with_permission_before_any_network_action() {
    let t = task_for(vec![ident("core", "redis")], false);
    let probes = vec![
        good_probe("/tmp/dl"),
        DirProbe { path: "/tmp/dl/keys".to_string(), created: true, is_dir: true, readonly: true },
        good_probe("/tmp/dl/artifacts"),
    ];
    let state = t.step(RunState::Init, RunEvent::DirsProbed(probes));
    assert_eq!(state, RunState::Failed(Error::PermissionFailed("/tmp/dl/keys".to_string())));
    assert_eq!(t.next_action(&state), None);
}

#[test]
fn uncreatable_directory_fails_with_its_path() {
    let t = task_for(vec![ident("core", "redis")], false);
    let probes = vec![
        DirProbe { path: "/tmp/dl".to_string(), created: false, is_dir: false, readonly: false },
        good_probe("/tmp/dl/keys"),
        good_probe("/tmp/dl/artifacts"),
    ];
    let outcome = t.verify_and_prepare_download_directory(&probes);
    assert_eq!(outcome, Err(Error::PermissionFailed("/tmp/dl".to_string())));
}

#[test]
fn usable_directories_pass_the_precondition() {
    let t = task_for(vec![ident("core", "redis")], false);
    let probes =
        vec![good_probe("/tmp/dl"), good_probe("/tmp/dl/keys"), good_probe("/tmp/dl/artifacts")];
    assert_eq!(t.verify_and_prepare_download_directory(&probes), Ok(()));
    let state = t.step(RunState::Init, RunEvent::DirsProbed(probes));
    assert_eq!(state, RunState::DirsVerified);
    assert_eq!(t.next_action(&state), Some(RunAction::ResolveIdents));
}

#[test]
fn mk_perm_error_wraps_the_message() {
    assert_eq!(mk_perm_error("/x".to_string()), Error::PermissionFailed("/x".to_string()));
}

#[test]
fn fetch_latest_package_in_channel_for_passes_faults_through() {
    let t = task_for(vec![ident("core", "redis")], false);
    let p = ResolvedPackage { ident: ident("core", "redis"), tdeps: vec![] };
    assert!(t.fetch_latest_package_in_channel_for(ResolveResponse::Resolved(p)).is_ok());
    assert_eq!(
        t.fetch_latest_package_in_channel_for(ResolveResponse::Fault(fault(500, "boom"))),
        Err(fault(500, "boom"))
    );
}

#[test]
fn not_found_resolution_is_fatal_package_not_found() {
    let t = task_for(vec![ident("core", "redis")], false);
    let i = ident("core", "redis");
    let outcome = t.determine_latest_from_ident(&i, ResolveResponse::Fault(fault(404, "no")));
    assert_eq!(
        outcome,
        Err(Error::PackageNotFound {
            ident: ident("core", "redis"),
            target: linux_target(),
            channel: "stable".to_string(),
        })
    );
}

#[test]
fn other_resolution_faults_are_fatal_api_errors() {
    let t = task_for(vec![ident("core", "redis")], false);
    let i = ident("core", "redis");
    let outcome = t.determine_latest_from_ident(&i, ResolveResponse::Fault(fault(503, "down")));
    assert_eq!(outcome, Err(Error::ApiError(fault(503, "down"))));
}

#[test]
fn expand_responses_fails_fast_on_the_first_fault() {
    let t = task_for(vec![ident("core", "a"), ident("core", "b")], false);
    let responses = vec![
        ResolveResponse::Resolved(ResolvedPackage { ident: ident("core", "a"), tdeps: vec![] }),
        ResolveResponse::Fault(fault(404, "no")),
    ];
    let outcome = t.expand_responses(responses);
    assert_eq!(
        outcome,
        Err(Error::PackageNotFound {
            ident: ident("core", "b"),
            target: linux_target(),
            channel: "stable".to_string(),
        })
    );
}

#[test]
fn expand_responses_keeps_input_order_on_success() {
    let t = task_for(vec![ident("core", "a"), ident("core", "b")], false);
    let responses = vec![
        ResolveResponse::Resolved(ResolvedPackage { ident: ident("core", "a"), tdeps: vec![] }),
        ResolveResponse::Resolved(ResolvedPackage {
            ident: ident("core", "b"),
            tdeps: vec![ident("core", "a")],
        }),
    ];
    let pkgs = t.expand_responses(responses).unwrap();
    assert_eq!(pkgs.len(), 2);
    assert!(pkgs[0].ident.equals(&ident("core", "a")));
    assert!(pkgs[1].ident.equals(&ident("core", "b")));
    assert_eq!(pkgs[1].tdeps.len(), 1);
}

#[test]
fn cached_artifact_skips_the_network() {
    let t = task_for(vec![ident("core", "redis")], false);
    assert_eq!(t.get_downloaded_archive(true), FetchPlan::UseCached);
    assert_eq!(t.get_downloaded_archive(false), FetchPlan::Download);
}

#[test]
fn retry_makes_exactly_the_configured_attempts_then_escalates() {
    let t = task_for(vec![ident("core", "redis")], false);
    let i = ident("core", "redis");
    let tgt = linux_target();
    let mut state = RetryState { attempts_made: 0 };
    let mut attempts = 0u64;
    loop {
        attempts += 1;
        match t.fetch_artifact(&i, &tgt, state, FetchResponse::Fault(fault(500, "flaky"))) {
            FetchStep::RetryAfter { wait_ms, state: next } => {
                assert_eq!(wait_ms, RETRY_WAIT_MS);
                assert_eq!(next.attempts_made, attempts);
                state = next;
            }
            FetchStep::Escalate(e) => {
                assert_eq!(attempts, RETRIES);
                assert_eq!(
                    e,
                    Error::DownloadFailed {
                        ident: ident("core", "redis"),
                        target: linux_target(),
                        attempts: RETRIES,
                        last: fault(500, "flaky"),
                    }
                );
                break;
            }
            FetchStep::Complete(_) => panic!("a failing fetch never completes"),
        }
    }
    assert_eq!(attempts, 5);
}

#[test]
fn successful_attempt_completes_the_download() {
    let t = task_for(vec![ident("core", "redis")], false);
    let i = ident("core", "redis");
    let step =
        t.fetch_artifact(&i, &linux_target(), RetryState { attempts_made: 2 }, FetchResponse::Written);
    assert_eq!(step, FetchStep::Complete(ItemStatus::Downloaded));
}

#[test]
fn unsupported_target_is_a_non_error_skip() {
    let t = task_for(vec![ident("core", "redis")], false);
    let i = ident("core", "redis");
    let step = t.fetch_artifact(
        &i,
        &linux_target(),
        RetryState { attempts_made: 0 },
        FetchResponse::UnsupportedTarget,
    );
    // A successful outcome without a file, not an error.
    assert_eq!(step, FetchStep::Complete(ItemStatus::SkippedUnsupported));
}

#[test]
fn key_is_fetched_exactly_when_absent_even_without_verify() {
    let unverified = task_for(vec![ident("core", "redis")], false);
    let plan = unverified.fetch_keys_and_verify_artifact(false);
    assert!(plan.fetch_key);
    assert!(!plan.run_verify);
    let plan = unverified.fetch_keys_and_verify_artifact(true);
    assert!(!plan.fetch_key);
    assert!(!plan.run_verify);
    let verified = task_for(vec![ident("core", "redis")], true);
    let plan = verified.fetch_keys_and_verify_artifact(false);
    assert!(plan.fetch_key);
    assert!(plan.run_verify);
}

#[test]
fn key_fetch_faults_propagate_as_api_errors() {
    assert_eq!(fetch_origin_key(KeyFetchResponse::Stored), Ok(()));
    assert_eq!(
        fetch_origin_key(KeyFetchResponse::Fault(fault(502, "gone"))),
        Err(Error::ApiError(fault(502, "gone")))
    );
}

#[test]
fn unreadable_artifact_header_is_fatal() {
    assert_eq!(
        signer_read_outcome(SignerReadResponse::Signer("core-20180119235913".to_string())),
        Ok("core-20180119235913".to_string())
    );
    assert_eq!(
        signer_read_outcome(SignerReadResponse::ParseFault("bad header".to_string())),
        Err(Error::ArtifactParse("bad header".to_string()))
    );
}

#[test]
fn bad_signature_is_fatal_verification_failed() {
    assert_eq!(verify_outcome(VerifyResponse::Verified), Ok(()));
    assert_eq!(
        verify_outcome(VerifyResponse::Fault("hash mismatch".to_string())),
        Err(Error::VerificationFailed("hash mismatch".to_string()))
    );
}

#[test]
fn run_walks_its_phases_and_counts_present_artifacts() {
    let t = task_for(vec![ident("demo", "a"), ident("demo", "b")], false);
    let mut state = t.start_state();
    assert_eq!(state, RunState::Init);
    let probes =
        vec![good_probe("/tmp/dl"), good_probe("/tmp/dl/keys"), good_probe("/tmp/dl/artifacts")];
    state = t.step(state, RunEvent::DirsProbed(probes));
    assert_eq!(state, RunState::DirsVerified);
    let responses = vec![
        ResolveResponse::Resolved(ResolvedPackage { ident: ident("demo", "a"), tdeps: vec![] }),
        ResolveResponse::Resolved(ResolvedPackage {
            ident: ident("demo", "b"),
            tdeps: vec![ident("demo", "a")],
        }),
    ];
    let resolved = t.expand_responses(responses);
    state = t.step(state, RunEvent::Resolved(resolved));
    // B's dependency on A overlaps with A itself: two distinct pairs.
    match &state {
        RunState::Downloading { next, present, .. } => {
            assert_eq!(*next, 0);
            assert_eq!(*present, 0);
        }
        other => panic!("expected a downloading state, got {:?}", other),
    }
    assert_eq!(t.next_action(&state), Some(RunAction::ProcessItem { index: 0 }));
    // One artifact downloads; the other is an unsupported-target skip, and
    // the run continues past it.
    state = t.step(state, RunEvent::ItemDone(Ok(ItemStatus::Downloaded)));
    assert_eq!(t.next_action(&state), Some(RunAction::ProcessItem { index: 1 }));
    state = t.step(state, RunEvent::ItemDone(Ok(ItemStatus::SkippedUnsupported)));
    // Skips do not count into the artifacts present.
    assert_eq!(state, RunState::Done { count: 1 });
    assert_eq!(t.next_action(&state), None);
}

#[test]
fn cached_items_count_like_downloads() {
    let t = task_for(vec![ident("demo", "a")], false);
    let responses = vec![ResolveResponse::Resolved(ResolvedPackage {
        ident: ident("demo", "a"),
        tdeps: vec![],
    })];
    let resolved = t.expand_responses(responses);
    let mut state = t.step(RunState::DirsVerified, RunEvent::Resolved(resolved));
    state = t.step(state, RunEvent::ItemDone(Ok(ItemStatus::Cached)));
    assert_eq!(state, RunState::Done { count: 1 });
}

#[test]
fn item_failure_aborts_the_whole_batch() {
    let t = task_for(vec![ident("demo", "a"), ident("demo", "b")], false);
    let responses = vec![
        ResolveResponse::Resolved(ResolvedPackage { ident: ident("demo", "a"), tdeps: vec![] }),
        ResolveResponse::Resolved(ResolvedPackage { ident: ident("demo", "b"), tdeps: vec![] }),
    ];
    let resolved = t.expand_responses(responses);
    let state = t.step(RunState::DirsVerified, RunEvent::Resolved(resolved));
    let failure = Error::DownloadFailed {
        ident: ident("demo", "a"),
        target: linux_target(),
        attempts: 5,
        last: fault(500, "flaky"),
    };
    let state = t.step(state, RunEvent::ItemDone(Err(failure)));
    match &state {
        RunState::Failed(Error::DownloadFailed { attempts, .. }) => assert_eq!(*attempts, 5),
        other => panic!("expected a failed state, got {:?}", other),
    }
    // Fail-fast: the second, still-pending item is never processed.
    assert_eq!(t.next_action(&state), None);
}

#[test]
fn resolution_failure_aborts_the_run() {
    let t = task_for(vec![ident("demo", "a")], false);
    let state = t.step(
        RunState::DirsVerified,
        RunEvent::Resolved(Err(Error::ApiError(fault(500, "down")))),
    );
    assert_eq!(state, RunState::Failed(Error::ApiError(fault(500, "down"))));
}

#[test]
fn an_event_a_state_does_not_await_is_ignored() {
    let t = task_for(vec![ident("demo", "a")], false);
    let state = t.step(RunState::Init, RunEvent::ItemDone(Ok(ItemStatus::Cached)));
    assert_eq!(state, RunState::Init);
    let state = t.step(
        RunState::Done { count: 3 },
        RunEvent::DirsProbed(vec![good_probe("/tmp/dl")]),
    );
    assert_eq!(state, RunState::Done { count: 3 });
}

#[test]
fn second_run_against_a_warm_cache_plans_no_downloads() {
    // Idempotence, played out: the first run downloads both artifacts; a
    // second run over the same root probes the cache and never plans a
    // network fetch.
    let t = task_for(vec![ident("demo", "a"), ident("demo", "b")], false);
    let mut cache: Vec<String> = Vec::new();
    let pairs = [ident("demo", "a"), ident("demo", "b")];
    // First run: nothing cached, everything downloaded.
    for i in &pairs {
        let path = t.downloaded_artifact_path(i, &linux_target());
        let cached = cache.contains(&path);
        assert_eq!(t.get_downloaded_archive(cached), FetchPlan::Download);
        cache.push(path);
    }
    // Second run: every probe hits, no fetch is planned.
    for i in &pairs {
        let path = t.downloaded_artifact_path(i, &linux_target());
        let cached = cache.contains(&path);
        assert_eq!(t.get_downloaded_archive(cached), FetchPlan::UseCached);
    }
}
