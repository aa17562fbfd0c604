//! The run configuration and the deterministic cache layout under the
//! download root.

use vstd::prelude::*;
use vstd::string::*;
use crate::ident::{
    archive_name_view, dash_free, lemma_archive_name_injective, IdentView, PackageIdent, PkgTarget,
    TargetView,
};

verus! {

/// Default number of fetch attempts for one artifact.
pub const RETRIES: u64 = 5;

/// Default fixed delay between two fetch attempts, in milliseconds.
pub const RETRY_WAIT_MS: u64 = 3000;

/// The keys directory under the download root.
pub open spec fn keys_path_view(root: Seq<char>) -> Seq<char> {
    root + "/keys"@
}

/// The artifacts directory under the download root.
pub open spec fn artifacts_path_view(root: Seq<char>) -> Seq<char> {
    root + "/artifacts"@
}

/// The cache path of the artifact for `(i, t)`: a pure function of the
/// root and the pair, which is what makes caching across runs work.
pub open spec fn artifact_path_view(root: Seq<char>, i: IdentView, t: TargetView) -> Seq<char>
    recommends
        i.fully_qualified(),
{
    artifacts_path_view(root) + "/"@ + archive_name_view(i, t)
}

/// The cache path of the public key of signer `name` at revision `rev`.
pub open spec fn key_path_view(root: Seq<char>, name: Seq<char>, rev: Seq<char>) -> Seq<char> {
    keys_path_view(root) + "/"@ + name + "-"@ + rev + ".pub"@
}

/// Under one download root, no two distinct (identifier, target) pairs
/// collide on their cache path, as long as no component before the last
/// holds the separator dash: parallel fetches never write the same file,
/// and a cached file is always the artifact of the pair that probes it.
pub proof fn lemma_artifact_path_injective(
    root: Seq<char>,
    i1: IdentView,
    t1: TargetView,
    i2: IdentView,
    t2: TargetView,
)
    requires
        i1.fully_qualified(),
        i2.fully_qualified(),
        dash_free(i1.origin),
        dash_free(i1.name),
        dash_free(i1.version.unwrap()),
        dash_free(i1.release.unwrap()),
        dash_free(t1.architecture),
        dash_free(i2.origin),
        dash_free(i2.name),
        dash_free(i2.version.unwrap()),
        dash_free(i2.release.unwrap()),
        dash_free(t2.architecture),
        artifact_path_view(root, i1, t1) == artifact_path_view(root, i2, t2),
    ensures
        i1 == i2,
        t1 == t2,
{
    let dir = artifacts_path_view(root) + "/"@;
    let n1 = archive_name_view(i1, t1);
    let n2 = archive_name_view(i2, t2);
    assert(n1 =~= (dir + n1).skip(dir.len() as int));
    assert(n2 =~= (dir + n2).skip(dir.len() as int));
    lemma_archive_name_injective(i1, t1, i2, t2);
}

/// Everything one invocation of the pipeline runs with; immutable for the
/// run's duration. The retry bounds are configuration, not constants, so
/// that zero-delay or low-attempt runs can be exercised deterministically.
#[derive(Debug)]
pub struct DownloadTask {
    /// The user-supplied, possibly partial, identifiers to download.
    pub idents: Vec<PackageIdent>,
    /// The single target of the run.
    pub target: PkgTarget,
    /// The depot the run synchronizes against.
    pub url: String,
    /// The release channel partial identifiers are resolved in.
    pub channel: String,
    /// The depot auth token, if any.
    pub token: Option<String>,
    /// The local download root; artifacts and keys are cached below it.
    pub download_path: String,
    /// Whether artifact signatures are checked after download.
    pub verify: bool,
    /// How many times one artifact fetch is attempted before the run fails.
    pub retries: u64,
    /// The fixed delay between two attempts, in milliseconds.
    pub retry_wait_ms: u64,
}

impl DownloadTask {
    /// A usable configuration attempts every fetch at least once.
    pub open spec fn wf(self) -> bool {
        self.retries >= 1
    }

    /// The directory the signing keys are cached in.
    pub fn path_for_keys(&self) -> (r: String)
        ensures
            r@ == keys_path_view(self.download_path@),
    {
        let mut s = self.download_path.clone();
        s.append("/keys");
        s
    }

    /// The directory the artifacts are cached in.
    pub fn path_for_artifact(&self) -> (r: String)
        ensures
            r@ == artifacts_path_view(self.download_path@),
    {
        let mut s = self.download_path.clone();
        s.append("/artifacts");
        s
    }

    /// The path the artifact for `(ident, target)` is cached at. The file
    /// need not exist; existence there is what the fetch phase probes.
    pub fn downloaded_artifact_path(&self, ident: &PackageIdent, target: &PkgTarget) -> (r: String)
        requires
            ident@.fully_qualified(),
        ensures
            r@ == artifact_path_view(self.download_path@, ident@, target@),
    {
        let mut s = self.path_for_artifact();
        s.append("/");
        let name = ident.archive_name_with_target(target);
        s.append(name.as_str());
        s
    }

    /// The path the public key of `name` at revision `rev` is cached at.
    pub fn key_path(&self, name: &str, rev: &str) -> (r: String)
        ensures
            r@ == key_path_view(self.download_path@, name@, rev@),
    {
        let mut s = self.path_for_keys();
        s.append("/");
        s.append(name);
        s.append("-");
        s.append(rev);
        s.append(".pub");
        s
    }
}

} // verus!
