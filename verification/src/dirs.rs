//! Directory preconditions: the download tree is created and probed before
//! any network activity, so permission problems surface early and clearly.

use vstd::prelude::*;
use crate::error::{mk_perm_error, Error};
use crate::task::DownloadTask;

verus! {

/// What the filesystem reported for one required directory after an
/// attempt to (recursively) create it and re-stat it.
#[derive(Debug, PartialEq, Eq)]
pub struct DirProbe {
    /// The directory's path.
    pub path: String,
    /// Creating the directory (or finding it already there) succeeded.
    pub created: bool,
    /// The path is a directory.
    pub is_dir: bool,
    /// The path is read-only.
    pub readonly: bool,
}

/// A directory usable for downloads: creatable, a directory, writable.
pub open spec fn probe_ok(p: DirProbe) -> bool {
    p.created && p.is_dir && !p.readonly
}

/// The outcome of the directory check: the first unusable directory fails
/// it with `PermissionFailed` carrying that directory's path.
pub open spec fn dir_check_spec(ps: Seq<DirProbe>) -> Result<(), Error>
    decreases ps.len(),
{
    if ps.len() == 0 {
        Ok(())
    } else if !probe_ok(ps[0]) {
        Err(Error::PermissionFailed(ps[0].path))
    } else {
        dir_check_spec(ps.drop_first())
    }
}

proof fn lemma_dir_check_skip(ps: Seq<DirProbe>, i: int)
    requires
        0 <= i <= ps.len(),
        forall|k: int| 0 <= k < i ==> probe_ok(#[trigger] ps[k]),
    ensures
        dir_check_spec(ps) == dir_check_spec(ps.skip(i)),
    decreases i,
{
    if i > 0 {
        assert(probe_ok(ps[0]));
        lemma_dir_check_skip(ps.drop_first(), i - 1);
        assert(ps.drop_first().skip(i - 1) =~= ps.skip(i));
    } else {
        assert(ps.skip(0) =~= ps);
    }
}

/// Directory precondition: a download tree holding an unusable directory
/// — not creatable, not a directory, or read-only — fails the check, and
/// the failure is always a `PermissionFailed`.
pub proof fn lemma_bad_directory_fails_with_permission(ps: Seq<DirProbe>)
    requires
        exists|k: int| 0 <= k < ps.len() && !probe_ok(#[trigger] ps[k]),
    ensures
        dir_check_spec(ps) matches Err(e) && e matches Error::PermissionFailed(_),
    decreases ps.len(),
{
    if probe_ok(ps[0]) {
        let k = choose|k: int| 0 <= k < ps.len() && !probe_ok(ps[k]);
        assert(!probe_ok(ps.drop_first()[k - 1]));
        lemma_bad_directory_fails_with_permission(ps.drop_first());
    }
}

impl DownloadTask {
    /// Checks the probes of the download root and its `keys` and
    /// `artifacts` subdirectories, in order; the first unusable directory
    /// fails the run with `PermissionFailed` naming its path.
    pub fn verify_and_prepare_download_directory(&self, probes: &Vec<DirProbe>) -> (r: Result<
        (),
        Error,
    >)
        ensures
            r == dir_check_spec(probes@),
    {
        let n = probes.len();
        let mut i: usize = 0;
        while i < n
            invariant
                0 <= i <= n,
                n == probes@.len(),
                forall|k: int| 0 <= k < i ==> probe_ok(#[trigger] probes@[k]),
            decreases n - i,
        {
            let p = &probes[i];
            if !p.created || !p.is_dir || p.readonly {
                proof {
                    lemma_dir_check_skip(probes@, i as int);
                    assert(probes@.skip(i as int)[0] == probes@[i as int]);
                }
                return Err(mk_perm_error(p.path.clone()));
            }
            i += 1;
        }
        proof {
            lemma_dir_check_skip(probes@, n as int);
            assert(probes@.skip(n as int).len() == 0);
        }
        Ok(())
    }
}

} // verus!
