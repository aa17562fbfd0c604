//! Dependency-set expansion: the union, over every input identifier, of
//! its resolved identifier and all of its transitive dependencies, each
//! paired with the run's target, deduplicated.

use vstd::prelude::*;
use vstd::seq_lib::*;
use crate::ident::{IdentView, PackageIdent, PkgTarget, TargetView};
use crate::task::DownloadTask;

verus! {

/// What the depot answers for one input identifier: the fully qualified
/// identifier it resolved to and that package's transitive runtime
/// dependencies.
#[derive(Debug, PartialEq, Eq)]
pub struct ResolvedPackage {
    pub ident: PackageIdent,
    pub tdeps: Vec<PackageIdent>,
}

/// Mathematical image of a `ResolvedPackage`.
pub ghost struct ResolvedView {
    pub ident: IdentView,
    pub tdeps: Seq<IdentView>,
}

impl View for ResolvedPackage {
    type V = ResolvedView;

    open spec fn view(&self) -> ResolvedView {
        ResolvedView {
            ident: self.ident@,
            tdeps: self.tdeps@.map_values(|p: PackageIdent| p@),
        }
    }
}

/// Mathematical image of one artifact address: an identifier together
/// with a target.
pub ghost struct PairView {
    pub ident: IdentView,
    pub target: TargetView,
}

/// One artifact address in the expansion set.
#[derive(Debug, PartialEq, Eq)]
pub struct PkgEntry {
    pub ident: PackageIdent,
    pub target: PkgTarget,
}

impl View for PkgEntry {
    type V = PairView;

    open spec fn view(&self) -> PairView {
        PairView { ident: self.ident@, target: self.target@ }
    }
}

/// The pairs one resolved package contributes: its own identifier and
/// each of its transitive dependencies, all on target `t`.
pub open spec fn package_pairs(p: ResolvedView, t: TargetView) -> Set<PairView> {
    Set::new(|pr: PairView| pr.target == t && (pr.ident == p.ident || p.tdeps.contains(pr.ident)))
}

/// The full expansion of a sequence of resolved packages: the union of
/// every package's contribution.
pub open spec fn expansion_of(ps: Seq<ResolvedView>, t: TargetView) -> Set<PairView>
    decreases ps.len(),
{
    if ps.len() == 0 {
        Set::empty()
    } else {
        expansion_of(ps.drop_last(), t) + package_pairs(ps.last(), t)
    }
}

/// The pairs contributed by the first `j` transitive dependencies of one
/// package; a stepping stone for the expansion loop.
pub open spec fn tdeps_pairs(p: ResolvedView, t: TargetView, j: int) -> Set<PairView> {
    Set::new(|pr: PairView| pr.target == t && p.tdeps.take(j).contains(pr.ident))
}

/// A deduplicated set of (identifier, target) pairs. Uniqueness is the
/// only invariant; insertion order carries no meaning.
#[derive(Debug, PartialEq, Eq)]
pub struct ExpansionSet {
    items: Vec<PkgEntry>,
}

impl View for ExpansionSet {
    type V = Set<PairView>;

    closed spec fn view(&self) -> Set<PairView> {
        self.seq_view().to_set()
    }
}

impl ExpansionSet {
    /// The members in their (meaningless) insertion order.
    pub closed spec fn seq_view(self) -> Seq<PairView> {
        self.items@.map_values(|e: PkgEntry| e@)
    }

    /// No pair occurs twice.
    pub closed spec fn wf(self) -> bool {
        self.seq_view().no_duplicates()
    }

    pub closed spec fn spec_len(self) -> nat {
        self.seq_view().len()
    }

    /// Never double-counted: a well-formed set is exactly as long as the
    /// set of distinct pairs it holds.
    pub proof fn lemma_no_double_count(self)
        requires
            self.wf(),
        ensures
            self.spec_len() == self@.len(),
    {
        self.seq_view().unique_seq_to_set();
    }

    pub fn new() -> (r: Self)
        ensures
            r.wf(),
            r@ == Set::<PairView>::empty(),
            r.spec_len() == 0,
    {
        let r = ExpansionSet { items: Vec::new() };
        proof {
            assert(r.seq_view() =~= Seq::<PairView>::empty());
            assert(r@ =~= Set::<PairView>::empty());
        }
        r
    }

    pub fn len(&self) -> (r: usize)
        ensures
            r == self.spec_len(),
    {
        self.items.len()
    }

    /// The `i`th member, for walking the set after it is built.
    pub fn get(&self, i: usize) -> (r: &PkgEntry)
        requires
            i < self.spec_len(),
        ensures
            r@ == self.seq_view()[i as int],
            self@.contains(r@),
    {
        let r = &self.items[i];
        proof {
            assert(self.seq_view()[i as int] == self.items@[i as int]@);
            assert(self.seq_view().contains(self.seq_view()[i as int]));
        }
        r
    }

    pub fn contains(&self, ident: &PackageIdent, target: &PkgTarget) -> (r: bool)
        ensures
            r == self@.contains(PairView { ident: ident@, target: target@ }),
    {
        let ghost pr = PairView { ident: ident@, target: target@ };
        let n = self.items.len();
        let mut i: usize = 0;
        while i < n
            invariant
                0 <= i <= n,
                n == self.items@.len(),
                pr == (PairView { ident: ident@, target: target@ }),
                forall|k: int| 0 <= k < i ==> self.seq_view()[k] != pr,
            decreases n - i,
        {
            let e = &self.items[i];
            let ident_eq = e.ident.equals(ident);
            let target_eq = e.target.equals(target);
            proof {
                assert(self.seq_view()[i as int] == e@);
            }
            if ident_eq && target_eq {
                proof {
                    assert(e@.ident == pr.ident);
                    assert(e@.target == pr.target);
                    assert(self.seq_view()[i as int] == pr);
                    assert(self.seq_view().contains(pr));
                }
                return true;
            }
            proof {
                assert(self.seq_view()[i as int] != pr);
            }
            i += 1;
        }
        proof {
            assert(!self.seq_view().contains(pr));
        }
        false
    }

    /// Adds a pair; a pair already present is not added again.
    pub fn insert(&mut self, entry: PkgEntry)
        requires
            old(self).wf(),
        ensures
            final(self).wf(),
            final(self)@ == old(self)@.insert(entry@),
            final(self).spec_len() == old(self).spec_len() + (if old(self)@.contains(entry@) {
                0int
            } else {
                1int
            }),
    {
        if self.contains(&entry.ident, &entry.target) {
            proof {
                assert(self@.insert(entry@) =~= self@);
            }
        } else {
            let ghost old_seq = self.seq_view();
            self.items.push(entry);
            proof {
                assert(self.seq_view() =~= old_seq.push(entry@));
                assert(!old_seq.contains(entry@));
                assert forall|i: int, j: int|
                    0 <= i < j < self.seq_view().len() implies self.seq_view()[i]
                    != self.seq_view()[j] by {
                    if j < old_seq.len() {
                        assert(old_seq[i] != old_seq[j]);
                    } else {
                        assert(self.seq_view()[i] == old_seq[i]);
                        assert(old_seq.contains(old_seq[i]));
                    }
                }
                assert(self@ =~= old_seq.to_set().insert(entry@)) by {
                    assert forall|y: PairView| self@.contains(y) implies old_seq.to_set().insert(
                        entry@,
                    ).contains(y) by {
                        let i = choose|i: int|
                            0 <= i < self.seq_view().len() && self.seq_view()[i] == y;
                        if i < old_seq.len() {
                            assert(old_seq.contains(y));
                        }
                    }
                    assert forall|y: PairView|
                        old_seq.to_set().insert(entry@).contains(y) implies self@.contains(y) by {
                        if old_seq.contains(y) {
                            let i = choose|i: int| 0 <= i < old_seq.len() && old_seq[i] == y;
                            assert(self.seq_view()[i] == y);
                            assert(self.seq_view().contains(y));
                        } else {
                            assert(self.seq_view()[old_seq.len() as int] == entry@);
                            assert(self.seq_view().contains(entry@));
                        }
                    }
                }
            }
        }
    }
}

impl DownloadTask {
    /// Unions every resolved package's identifier and transitive
    /// dependencies, each paired with the run's target, into one
    /// deduplicated set.
    pub fn expand_sources(&self, packages: &Vec<ResolvedPackage>) -> (r: ExpansionSet)
        ensures
            r.wf(),
            r@ == expansion_of(
                packages@.map_values(|p: ResolvedPackage| p@),
                self.target@,
            ),
            r.spec_len() == r@.len(),
    {
        let ghost ps = packages@.map_values(|p: ResolvedPackage| p@);
        let ghost t = self.target@;
        let mut set = ExpansionSet::new();
        let n = packages.len();
        let mut i: usize = 0;
        while i < n
            invariant
                0 <= i <= n,
                n == packages@.len(),
                ps == packages@.map_values(|p: ResolvedPackage| p@),
                t == self.target@,
                set.wf(),
                set@ == expansion_of(ps.take(i as int), t),
            decreases n - i,
        {
            let p = &packages[i];
            let m = p.tdeps.len();
            let mut j: usize = 0;
            proof {
                assert(tdeps_pairs(p@, t, 0) =~= Set::<PairView>::empty());
                assert(set@ =~= expansion_of(ps.take(i as int), t) + tdeps_pairs(p@, t, 0));
            }
            while j < m
                invariant
                    0 <= j <= m,
                    m == p.tdeps@.len(),
                    ps == packages@.map_values(|q: ResolvedPackage| q@),
                    t == self.target@,
                    0 <= i < n,
                    n == packages@.len(),
                    p == &packages[i as int],
                    set.wf(),
                    set@ == expansion_of(ps.take(i as int), t) + tdeps_pairs(p@, t, j as int),
                decreases m - j,
            {
                let entry = PkgEntry {
                    ident: p.tdeps[j].duplicate(),
                    target: self.target.duplicate(),
                };
                let ghost ev = entry@;
                let ghost before = set@;
                set.insert(entry);
                proof {
                    let tj = p@.tdeps.take(j as int);
                    let tj1 = p@.tdeps.take(j + 1);
                    assert(tj1 =~= tj.push(p@.tdeps[j as int]));
                    assert(p@.tdeps[j as int] == ev.ident);
                    assert(ev.target == t);
                    assert(set@ =~= expansion_of(ps.take(i as int), t) + tdeps_pairs(
                        p@,
                        t,
                        j + 1,
                    )) by {
                        assert forall|y: PairView| set@.contains(y) implies (expansion_of(
                            ps.take(i as int),
                            t,
                        ) + tdeps_pairs(p@, t, j + 1)).contains(y) by {
                            if y == ev {
                                assert(tj1[j as int] == ev.ident);
                                assert(tj1.contains(ev.ident));
                                assert(tdeps_pairs(p@, t, j + 1).contains(y));
                            } else {
                                assert(before.contains(y));
                                if tdeps_pairs(p@, t, j as int).contains(y) {
                                    let k = choose|k: int| 0 <= k < tj.len() && tj[k] == y.ident;
                                    assert(tj1[k] == y.ident);
                                    assert(tj1.contains(y.ident));
                                    assert(tdeps_pairs(p@, t, j + 1).contains(y));
                                }
                            }
                        }
                        assert forall|y: PairView|
                            (expansion_of(ps.take(i as int), t) + tdeps_pairs(
                                p@,
                                t,
                                j + 1,
                            )).contains(y) implies set@.contains(y) by {
                            if tdeps_pairs(p@, t, j + 1).contains(y) {
                                let k = choose|k: int| 0 <= k < tj1.len() && tj1[k] == y.ident;
                                if k < j {
                                    assert(tj[k] == y.ident);
                                    assert(tj.contains(y.ident));
                                    assert(tdeps_pairs(p@, t, j as int).contains(y));
                                    assert(before.contains(y));
                                } else {
                                    assert(y.ident == ev.ident);
                                    assert(y == ev);
                                }
                            } else {
                                assert(before.contains(y));
                            }
                        }
                    }
                }
                j += 1;
            }
            let own = PkgEntry { ident: p.ident.duplicate(), target: self.target.duplicate() };
            let ghost ov = own@;
            let ghost before = set@;
            set.insert(own);
            proof {
                assert(p@.tdeps.take(m as int) =~= p@.tdeps);
                assert(ov.ident == p@.ident && ov.target == t);
                assert(ps.take(i + 1).drop_last() =~= ps.take(i as int));
                assert(ps.take(i + 1).last() == p@);
                assert(expansion_of(ps.take(i + 1), t) == expansion_of(ps.take(i as int), t)
                    + package_pairs(p@, t));
                assert(set@ =~= expansion_of(ps.take(i + 1), t)) by {
                    assert forall|y: PairView| set@.contains(y) implies expansion_of(
                        ps.take(i + 1),
                        t,
                    ).contains(y) by {
                        if y == ov {
                            assert(package_pairs(p@, t).contains(y));
                        } else {
                            assert(before.contains(y));
                            if tdeps_pairs(p@, t, m as int).contains(y) {
                                assert(package_pairs(p@, t).contains(y));
                            }
                        }
                    }
                    assert forall|y: PairView|
                        expansion_of(ps.take(i + 1), t).contains(y) implies set@.contains(y) by {
                        if package_pairs(p@, t).contains(y) {
                            if y.ident == p@.ident {
                                assert(y == ov);
                            } else {
                                assert(tdeps_pairs(p@, t, m as int).contains(y));
                                assert(before.contains(y));
                            }
                        }
                    }
                }
            }
            i += 1;
        }
        proof {
            assert(ps.take(n as int) =~= ps);
            set.lemma_no_double_count();
        }
        set
    }
}

} // verus!
