//! Package identifiers and targets: the values the pipeline addresses
//! artifacts by.

use vstd::prelude::*;
use vstd::string::*;

verus! {

/// Mathematical image of a `PackageIdent`.
pub ghost struct IdentView {
    pub origin: Seq<char>,
    pub name: Seq<char>,
    pub version: Option<Seq<char>>,
    pub release: Option<Seq<char>>,
}

impl IdentView {
    /// An identifier addresses one immutable artifact exactly when both
    /// its version and its release are pinned.
    pub open spec fn fully_qualified(self) -> bool {
        self.version is Some && self.release is Some
    }
}

/// A package identifier: an origin and a name, optionally pinned to a
/// version and a release. Partial identifiers are resolved by the depot.
#[derive(Debug, Clone, PartialEq, Eq)]
pub struct PackageIdent {
    pub origin: String,
    pub name: String,
    pub version: Option<String>,
    pub release: Option<String>,
}

impl View for PackageIdent {
    type V = IdentView;

    open spec fn view(&self) -> IdentView {
        IdentView {
            origin: self.origin@,
            name: self.name@,
            version: match self.version {
                Option::Some(v) => Option::Some(v@),
                Option::None => Option::None,
            },
            release: match self.release {
                Option::Some(r) => Option::Some(r@),
                Option::None => Option::None,
            },
        }
    }
}

impl PackageIdent {
    pub fn is_fully_qualified(&self) -> (r: bool)
        ensures
            r == self@.fully_qualified(),
    {
        self.version.is_some() && self.release.is_some()
    }

    /// A copy equal to the original.
    pub fn duplicate(&self) -> (r: Self)
        ensures
            r == *self,
    {
        PackageIdent {
            origin: self.origin.clone(),
            name: self.name.clone(),
            version: match &self.version {
                Option::Some(v) => Option::Some(v.clone()),
                Option::None => Option::None,
            },
            release: match &self.release {
                Option::Some(r) => Option::Some(r.clone()),
                Option::None => Option::None,
            },
        }
    }

    /// Structural equality, decided field by field.
    pub fn equals(&self, other: &Self) -> (r: bool)
        ensures
            r == (self@ == other@),
    {
        let version_eq = match (&self.version, &other.version) {
            (Option::Some(a), Option::Some(b)) => *a == *b,
            (Option::None, Option::None) => true,
            _ => false,
        };
        let release_eq = match (&self.release, &other.release) {
            (Option::Some(a), Option::Some(b)) => *a == *b,
            (Option::None, Option::None) => true,
            _ => false,
        };
        let r = self.origin == other.origin && self.name == other.name && version_eq
            && release_eq;
        proof {
            if r {
                assert(self@ == other@);
            } else {
                assert(self@ != other@);
            }
        }
        r
    }
}

/// Mathematical image of a `PkgTarget`.
pub ghost struct TargetView {
    pub architecture: Seq<char>,
    pub platform: Seq<char>,
}

impl TargetView {
    /// The canonical rendering, `architecture-platform`.
    pub open spec fn render(self) -> Seq<char> {
        self.architecture + "-"@ + self.platform
    }
}

/// A platform/architecture pair; every artifact is addressed by an
/// identifier together with one of these.
#[derive(Debug, Clone, PartialEq, Eq)]
pub struct PkgTarget {
    pub architecture: String,
    pub platform: String,
}

impl View for PkgTarget {
    type V = TargetView;

    open spec fn view(&self) -> TargetView {
        TargetView { architecture: self.architecture@, platform: self.platform@ }
    }
}

impl PkgTarget {
    pub fn duplicate(&self) -> (r: Self)
        ensures
            r == *self,
    {
        PkgTarget { architecture: self.architecture.clone(), platform: self.platform.clone() }
    }

    pub fn equals(&self, other: &Self) -> (r: bool)
        ensures
            r == (self@ == other@),
    {
        let r = self.architecture == other.architecture && self.platform == other.platform;
        proof {
            if r {
                assert(self@ == other@);
            } else {
                assert(self@ != other@);
            }
        }
        r
    }

    /// Renders the target as `architecture-platform`.
    pub fn render(&self) -> (r: String)
        ensures
            r@ == self@.render(),
    {
        let mut s = self.architecture.clone();
        s.append("-");
        s.append(self.platform.as_str());
        s
    }
}

/// The archive file name for a fully qualified identifier on a target:
/// `origin-name-version-release-architecture-platform.hart`.
pub open spec fn archive_name_view(i: IdentView, t: TargetView) -> Seq<char>
    recommends
        i.fully_qualified(),
{
    i.origin + "-"@ + i.name + "-"@ + i.version.unwrap() + "-"@ + i.release.unwrap() + "-"@
        + t.render() + ".hart"@
}

/// No dash occurs in `s`; the dash is the archive name's separator.
pub open spec fn dash_free(s: Seq<char>) -> bool {
    forall|i: int| 0 <= i < s.len() ==> s[i] != '-'
}

/// Joining two pieces with a dash is injective when the left pieces are
/// dash-free: the separator after them is the first dash of the whole.
proof fn lemma_dash_join_injective(a: Seq<char>, x: Seq<char>, b: Seq<char>, y: Seq<char>)
    requires
        dash_free(a),
        dash_free(b),
        a + "-"@ + x == b + "-"@ + y,
    ensures
        a == b,
        x == y,
{
    reveal_strlit("-");
    let sep = "-"@;
    assert(sep.len() == 1);
    let l = a + sep + x;
    let r = b + sep + y;
    assert(l.len() == r.len());
    if a.len() < b.len() {
        assert(l[a.len() as int] == sep[0]);
        assert(r[a.len() as int] == b[a.len() as int]);
        assert(false);
    }
    if b.len() < a.len() {
        assert(r[b.len() as int] == sep[0]);
        assert(l[b.len() as int] == a[b.len() as int]);
        assert(false);
    }
    assert(a =~= l.take(a.len() as int));
    assert(b =~= r.take(b.len() as int));
    assert(x =~= l.skip(a.len() as int + 1));
    assert(y =~= r.skip(b.len() as int + 1));
}

/// A shared suffix cancels on the right.
proof fn lemma_suffix_cancel(x: Seq<char>, y: Seq<char>, s: Seq<char>)
    requires
        x + s == y + s,
    ensures
        x == y,
{
    assert((x + s).len() == (y + s).len());
    assert(x =~= (x + s).take(x.len() as int));
    assert(y =~= (y + s).take(y.len() as int));
}

/// No two distinct (identifier, target) pairs collide on an archive name,
/// provided no component before the last smuggles in the separator dash;
/// this determinism is what makes caching across runs correct.
#[verifier::rlimit(60)]
pub proof fn lemma_archive_name_injective(
    i1: IdentView,
    t1: TargetView,
    i2: IdentView,
    t2: TargetView,
)
    requires
        i1.fully_qualified(),
        i2.fully_qualified(),
        dash_free(i1.origin),
        dash_free(i1.name),
        dash_free(i1.version.unwrap()),
        dash_free(i1.release.unwrap()),
        dash_free(t1.architecture),
        dash_free(i2.origin),
        dash_free(i2.name),
        dash_free(i2.version.unwrap()),
        dash_free(i2.release.unwrap()),
        dash_free(t2.architecture),
        archive_name_view(i1, t1) == archive_name_view(i2, t2),
    ensures
        i1 == i2,
        t1 == t2,
{
    let sep = "-"@;
    let suffix = ".hart"@;
    let v1 = i1.version.unwrap();
    let r1 = i1.release.unwrap();
    let v2 = i2.version.unwrap();
    let r2 = i2.release.unwrap();
    let x1 = i1.name + sep + v1 + sep + r1 + sep + t1.architecture + sep + (t1.platform + suffix);
    let x2 = i2.name + sep + v2 + sep + r2 + sep + t2.architecture + sep + (t2.platform + suffix);
    assert(archive_name_view(i1, t1) =~= i1.origin + sep + x1);
    assert(archive_name_view(i2, t2) =~= i2.origin + sep + x2);
    lemma_dash_join_injective(i1.origin, x1, i2.origin, x2);
    let y1 = v1 + sep + r1 + sep + t1.architecture + sep + (t1.platform + suffix);
    let y2 = v2 + sep + r2 + sep + t2.architecture + sep + (t2.platform + suffix);
    assert(x1 =~= i1.name + sep + y1);
    assert(x2 =~= i2.name + sep + y2);
    lemma_dash_join_injective(i1.name, y1, i2.name, y2);
    let z1 = r1 + sep + t1.architecture + sep + (t1.platform + suffix);
    let z2 = r2 + sep + t2.architecture + sep + (t2.platform + suffix);
    assert(y1 =~= v1 + sep + z1);
    assert(y2 =~= v2 + sep + z2);
    lemma_dash_join_injective(v1, z1, v2, z2);
    let w1 = t1.architecture + sep + (t1.platform + suffix);
    let w2 = t2.architecture + sep + (t2.platform + suffix);
    assert(z1 =~= r1 + sep + w1);
    assert(z2 =~= r2 + sep + w2);
    lemma_dash_join_injective(r1, w1, r2, w2);
    lemma_dash_join_injective(
        t1.architecture,
        t1.platform + suffix,
        t2.architecture,
        t2.platform + suffix,
    );
    lemma_suffix_cancel(t1.platform, t2.platform, suffix);
    assert(i1.version == i2.version);
    assert(i1.release == i2.release);
}

impl PackageIdent {
    /// The archive name this identifier is stored under for `target`.
    /// Only a fully qualified identifier names an archive.
    pub fn archive_name_with_target(&self, target: &PkgTarget) -> (r: String)
        requires
            self@.fully_qualified(),
        ensures
            r@ == archive_name_view(self@, target@),
    {
        let mut s = self.origin.clone();
        s.append("-");
        s.append(self.name.as_str());
        s.append("-");
        match &self.version {
            Option::Some(v) => s.append(v.as_str()),
            Option::None => unreached(),
        }
        s.append("-");
        match &self.release {
            Option::Some(rel) => s.append(rel.as_str()),
            Option::None => unreached(),
        }
        s.append("-");
        let t = target.render();
        s.append(t.as_str());
        s.append(".hart");
        s
    }
}

} // verus!
