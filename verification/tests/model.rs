use pkg_download::error::Error;
use pkg_download::expand::{PkgEntry, ResolvedPackage};
use pkg_download::ident::{PackageIdent, PkgTarget};
use pkg_download::keys::parse_name_with_rev;
use pkg_download::task::DownloadTask;

fn ident(origin: &str, name: &str, version: &str, release: &str) -> PackageIdent {
    PackageIdent {
        origin: origin.to_string(),
        name: name.to_string(),
        version: Some(version.to_string()),
        release: Some(release.to_string()),
    }
}

fn partial_ident(origin: &str, name: &str) -> PackageIdent {
    PackageIdent { origin: origin.to_string(), name: name.to_string(), version: None, release: None }
}

fn linux_target() -> PkgTarget {
    PkgTarget { architecture: "x86_64".to_string(), platform: "linux".to_string() }
}

fn task_with(idents: Vec<PackageIdent>, verify: bool) -> DownloadTask {
    DownloadTask {
        idents,
        target: linux_target(),
        url: "https://depot.example".to_string(),
        channel: "stable".to_string(),
        token: None,
        download_path: "/tmp/dl".to_string(),
        verify,
        retries: 5,
        retry_wait_ms: 3000,
    }
}

#[test]
fn target_renders_architecture_dash_platform() {
    assert_eq!(linux_target().render(), "x86_64-linux");
}

#[test]
fn archive_name_is_fully_qualified_rendering() {
    let i = ident("core", "redis", "3.0.1", "20180119235913");
    assert_eq!(
        i.archive_name_with_target(&linux_target()),
        "core-redis-3.0.1-20180119235913-x86_64-linux.hart"
    );
}

#[test]
fn artifact_path_is_deterministic_under_artifacts_dir() {
    let t = task_with(vec![], false);
    let i = ident("core", "redis", "3.0.1", "20180119235913");
    assert_eq!(
        t.downloaded_artifact_path(&i, &linux_target()),
        "/tmp/dl/artifacts/core-redis-3.0.1-20180119235913-x86_64-linux.hart"
    );
    // The same pair maps to the same path, run after run.
    assert_eq!(
        t.downloaded_artifact_path(&i, &linux_target()),
        t.downloaded_artifact_path(&i, &linux_target())
    );
}

#[test]
fn keys_and_artifacts_dirs_sit_under_the_root() {
    let t = task_with(vec![], false);
    assert_eq!(t.path_for_keys(), "/tmp/dl/keys");
    assert_eq!(t.path_for_artifact(), "/tmp/dl/artifacts");
}

#[test]
fn key_path_names_signer_and_revision() {
    let t = task_with(vec![], false);
    assert_eq!(t.key_path("core", "20180119235913"), "/tmp/dl/keys/core-20180119235913.pub");
}

#[test]
fn ident_equality_is_structural() {
    let a = ident("core", "redis", "3.0.1", "20180119235913");
    let b = ident("core", "redis", "3.0.1", "20180119235913");
    let c = ident("core", "redis", "3.0.2", "20180119235913");
    assert!(a.equals(&b));
    assert!(!a.equals(&c));
    assert!(!a.equals(&partial_ident("core", "redis")));
    assert!(partial_ident("core", "redis").equals(&partial_ident("core", "redis")));
}

#[test]
fn fully_qualified_needs_version_and_release() {
    assert!(ident("core", "redis", "3.0.1", "20180119235913").is_fully_qualified());
    assert!(!partial_ident("core", "redis").is_fully_qualified());
    let half = PackageIdent {
        origin: "core".to_string(),
        name: "redis".to_string(),
        version: Some("3.0.1".to_string()),
        release: None,
    };
    assert!(!half.is_fully_qualified());
}

#[test]
fn parse_name_with_rev_splits_at_the_revision() {
    let r = parse_name_with_rev("core-20180119235913").unwrap();
    assert_eq!(r.0, "core");
    assert_eq!(r.1, "20180119235913");
    // Dashes in the name stay with the name.
    let r = parse_name_with_rev("my-origin-20180119235913").unwrap();
    assert_eq!(r.0, "my-origin");
    assert_eq!(r.1, "20180119235913");
}

#[test]
fn parse_name_with_rev_rejects_bad_shapes() {
    // Too short: no room for a name, a dash and 14 digits.
    assert_eq!(
        parse_name_with_rev("20180119235913"),
        Err(Error::InvalidKeyName("20180119235913".to_string()))
    );
    // No dash before the revision.
    assert_eq!(
        parse_name_with_rev("core20180119235913"),
        Err(Error::InvalidKeyName("core20180119235913".to_string()))
    );
    // A non-digit inside the revision.
    assert_eq!(
        parse_name_with_rev("core-2018011923591x"),
        Err(Error::InvalidKeyName("core-2018011923591x".to_string()))
    );
}

#[test]
fn expansion_set_never_double_counts() {
    // Overlapping transitive dependencies: B depends on A, and A is also
    // asked for directly; the expansion holds each distinct pair once.
    let a = ident("demo", "a", "1.0", "20200101000000");
    let b = ident("demo", "b", "1.0", "20200101000000");
    let t = task_with(vec![], false);
    let resolved = vec![
        ResolvedPackage { ident: a.duplicate(), tdeps: vec![] },
        ResolvedPackage { ident: b.duplicate(), tdeps: vec![a.duplicate()] },
    ];
    let set = t.expand_sources(&resolved);
    assert_eq!(set.len(), 2);
    assert!(set.contains(&a, &linux_target()));
    assert!(set.contains(&b, &linux_target()));
}

#[test]
fn expansion_unions_tdeps_of_every_input() {
    let a = ident("demo", "a", "1.0", "20200101000000");
    let b = ident("demo", "b", "1.0", "20200101000000");
    let c = ident("demo", "c", "1.0", "20200101000000");
    let d = ident("demo", "d", "1.0", "20200101000000");
    let t = task_with(vec![], false);
    let resolved = vec![
        ResolvedPackage { ident: b.duplicate(), tdeps: vec![a.duplicate(), c.duplicate()] },
        ResolvedPackage { ident: d.duplicate(), tdeps: vec![c.duplicate(), a.duplicate()] },
    ];
    let set = t.expand_sources(&resolved);
    assert_eq!(set.len(), 4);
    for i in [&a, &b, &c, &d] {
        assert!(set.contains(i, &linux_target()));
    }
    assert!(!set.contains(&ident("demo", "e", "1.0", "20200101000000"), &linux_target()));
}

#[test]
fn expansion_set_members_walkable_in_order() {
    let a = ident("demo", "a", "1.0", "20200101000000");
    let t = task_with(vec![], false);
    let resolved = vec![ResolvedPackage { ident: a.duplicate(), tdeps: vec![] }];
    let set = t.expand_sources(&resolved);
    assert_eq!(set.len(), 1);
    let entry: &PkgEntry = set.get(0);
    assert!(entry.ident.equals(&a));
    assert!(entry.target.equals(&linux_target()));
}

#[test]
fn distinct_pairs_take_distinct_paths() {
    let t = task_with(vec![], false);
    let a = ident("core", "redis", "3.0.1", "20180119235913");
    let b = ident("core", "redis", "3.0.2", "20180119235913");
    let other = PkgTarget { architecture: "aarch64".to_string(), platform: "linux".to_string() };
    let paths = [
        t.downloaded_artifact_path(&a, &linux_target()),
        t.downloaded_artifact_path(&b, &linux_target()),
        t.downloaded_artifact_path(&a, &other),
        t.downloaded_artifact_path(&b, &other),
    ];
    for (i, p) in paths.iter().enumerate() {
        for (j, q) in paths.iter().enumerate() {
            assert_eq!(p == q, i == j);
        }
    }
}

#[test]
fn duplicate_copies_every_field() {
    let a = ident("core", "redis", "3.0.1", "20180119235913");
    assert_eq!(a.duplicate(), a);
    let p = partial_ident("core", "redis");
    assert_eq!(p.duplicate(), p);
    let t = linux_target();
    assert_eq!(t.duplicate(), t);
}
