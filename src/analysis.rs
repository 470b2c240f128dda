//! Freshness of declared dependencies against the releases the registry has seen.
use crate::deps::{dep_entries, dep_map_get_index, dep_map_len, CrateDep, CrateDeps};
use crate::name::CrateName;
use crate::version::{cmp_versions, lemma_cmp_versions_refl, Version};
use ordermap::OrderMap;
use semver::VersionReq;
use std::cmp::Ordering;
use vstd::prelude::*;

verus! {

/// The freshness state of one dependency from the registry.
#[derive(Debug)]
pub struct AnalyzedDependency {
    /// The version requirement the manifest declares.
    pub required: VersionReq,
    /// The highest release that meets `required`, once known.
    pub latest_that_matches: Option<Version>,
    /// The highest release of the crate, once known.
    pub latest: Option<Version>,
}

/// `a` ranks above `b`, where an absent version ranks below every present one and two
/// absent ones are equal.
pub open spec fn ranks_above(a: Option<Version>, b: Option<Version>) -> bool {
    match (a, b) {
        (Some(x), Some(y)) => cmp_versions(x, y) == Ordering::Greater,
        (Some(_), None) => true,
        (None, _) => false,
    }
}

/// A dependency just declared: nothing yet known from the registry.
pub open spec fn fresh_analysis(required: VersionReq) -> AnalyzedDependency {
    AnalyzedDependency { required, latest_that_matches: None, latest: None }
}

impl AnalyzedDependency {
    /// A release exists that ranks above the best one that meets the requirement.
    pub open spec fn outdated(&self) -> bool {
        ranks_above(self.latest, self.latest_that_matches)
    }

    /// The state of a dependency on `required` before the registry is asked.
    pub fn new(required: VersionReq) -> (r: AnalyzedDependency)
        ensures
            r == fresh_analysis(required),
    {
        AnalyzedDependency { required, latest_that_matches: None, latest: None }
    }

    /// Whether the latest release ranks above the latest one that meets the requirement.
    pub fn is_outdated(&self) -> (r: bool)
        ensures
            r == self.outdated(),
    {
        match &self.latest {
            None => false,
            Some(latest) => match &self.latest_that_matches {
                None => true,
                Some(matching) => latest.is_newer_than(matching),
            },
        }
    }
}

/// The outdated predicate on each combination of known versions: with no latest release it
/// is false; with a latest release and none that meets the requirement it is true; with the
/// same version in both places it is false; with a latest release that ranks above the best
/// match it is true.
pub proof fn lemma_outdated_cases(d: AnalyzedDependency)
    ensures
        d.latest is None ==> !d.outdated(),
        d.latest is Some && d.latest_that_matches is None ==> d.outdated(),
        d.latest == d.latest_that_matches ==> !d.outdated(),
        d.latest is Some && d.latest_that_matches is Some && cmp_versions(
            d.latest.unwrap(),
            d.latest_that_matches.unwrap(),
        ) == Ordering::Greater ==> d.outdated(),
{
    if let Some(v) = d.latest {
        lemma_cmp_versions_refl(v);
    }
}

/// The entries of a map of analysed dependencies, in order: each name's text and its state.
pub uninterp spec fn analyzed_entries(m: OrderMap<CrateName, AnalyzedDependency>) -> Seq<
    (Seq<char>, AnalyzedDependency),
>;

/// Relies on `OrderMap::new`: the new map is empty.
#[verifier::external_body]
fn analyzed_map_new() -> (r: OrderMap<CrateName, AnalyzedDependency>)
    ensures
        analyzed_entries(r) == Seq::<(Seq<char>, AnalyzedDependency)>::empty(),
{
    OrderMap::new()
}

/// Relies on `OrderMap::len`: the number of entries.
#[verifier::external_body]
fn analyzed_map_len(m: &OrderMap<CrateName, AnalyzedDependency>) -> (r: usize)
    ensures
        r == analyzed_entries(*m).len(),
{
    m.len()
}

/// Relies on `OrderMap::get_index`: the entry at position `i` in insertion order, if any.
#[verifier::external_body]
fn analyzed_map_get_index(
    m: &OrderMap<CrateName, AnalyzedDependency>,
    i: usize,
) -> (r: Option<(&CrateName, &AnalyzedDependency)>)
    ensures
        i < analyzed_entries(*m).len() ==> r is Some,
        i < analyzed_entries(*m).len() ==> r.unwrap().0@ == analyzed_entries(*m)[i as int].0,
        i < analyzed_entries(*m).len() ==> *r.unwrap().1 == analyzed_entries(*m)[i as int].1,
        i >= analyzed_entries(*m).len() ==> r is None,
{
    m.get_index(i)
}

/// Relies on `OrderMap::insert`: a new key goes last, with `None` returned; for a key already
/// held, the value is replaced in place and the old one returned.
#[verifier::external_body]
fn analyzed_map_insert(
    m: &mut OrderMap<CrateName, AnalyzedDependency>,
    k: CrateName,
    v: AnalyzedDependency,
) -> (r: Option<AnalyzedDependency>)
    ensures
        (forall|j: int|
            0 <= j < analyzed_entries(*old(m)).len() ==> #[trigger] analyzed_entries(*old(m))[j].0
                != k@) ==> analyzed_entries(*final(m)) == analyzed_entries(*old(m)).push((k@, v))
            && r is None,
        forall|j: int|
            0 <= j < analyzed_entries(*old(m)).len() && #[trigger] analyzed_entries(*old(m))[j].0
                == k@ ==> analyzed_entries(*final(m)) == analyzed_entries(*old(m)).update(j, (k@, v))
                && r == Some(analyzed_entries(*old(m))[j].1),
{
    m.insert(k, v)
}

/// The analysis of one group: its external entries in order, each with a fresh state on the
/// same requirement; path entries are left out.
pub open spec fn project(s: Seq<(Seq<char>, CrateDep)>) -> Seq<(Seq<char>, AnalyzedDependency)>
    decreases s.len(),
{
    if s.len() == 0 {
        Seq::empty()
    } else {
        let rest = project(s.drop_last());
        match s.last().1 {
            CrateDep::External(req) => rest.push((s.last().0, fresh_analysis(req))),
            CrateDep::Internal(_) => rest,
        }
    }
}

/// The analysis of a group holds exactly the group's external entries, in their order and
/// with their requirements, and nothing is yet known of any of them.
pub proof fn lemma_project_keeps_external(s: Seq<(Seq<char>, CrateDep)>)
    ensures
        project(s).map_values(
            |e: (Seq<char>, AnalyzedDependency)| (e.0, CrateDep::External(e.1.required)),
        ) == s.filter(|e: (Seq<char>, CrateDep)| e.1 is External),
        forall|i: int|
            0 <= i < project(s).len() ==> (#[trigger] project(s)[i]).1.latest is None
                && project(s)[i].1.latest_that_matches is None,
    decreases s.len(),
{
    reveal(Seq::filter);
    if s.len() > 0 {
        lemma_project_keeps_external(s.drop_last());
        let strip = |e: (Seq<char>, AnalyzedDependency)| (e.0, CrateDep::External(e.1.required));
        let rest = project(s.drop_last());
        match s.last().1 {
            CrateDep::External(_) => {
                assert(project(s).map_values(strip) =~= rest.map_values(strip).push(s.last()));
            },
            CrateDep::Internal(_) => {},
        }
    } else {
        assert(project(s).map_values(
            |e: (Seq<char>, AnalyzedDependency)| (e.0, CrateDep::External(e.1.required)),
        ) =~= Seq::empty());
    }
}

/// Some entry of the group is outdated.
pub open spec fn any_outdated_in(s: Seq<(Seq<char>, AnalyzedDependency)>) -> bool {
    exists|i: int| 0 <= i < s.len() && (#[trigger] s[i]).1.outdated()
}

/// Builds the analysis of one group of declared dependencies.
fn project_group(deps: &OrderMap<CrateName, CrateDep>) -> (r: OrderMap<
    CrateName,
    AnalyzedDependency,
>)
    ensures
        analyzed_entries(r) == project(dep_entries(*deps)),
{
    let ghost s = dep_entries(*deps);
    let n = dep_map_len(deps);
    let mut out = analyzed_map_new();
    let mut i: usize = 0;
    while i < n
        invariant
            n == s.len(),
            s == dep_entries(*deps),
            0 <= i <= n,
            analyzed_entries(out) == project(s.take(i as int)),
            forall|k: int|
                0 <= k < analyzed_entries(out).len() ==> exists|j: int|
                    0 <= j < i && #[trigger] analyzed_entries(out)[k].0 == s[j].0,
        decreases n - i,
    {
        let ghost before = analyzed_entries(out);
        assert(s.take(i + 1).drop_last() =~= s.take(i as int));
        match dep_map_get_index(deps, i) {
            Some((name, dep)) => {
                match dep {
                    CrateDep::External(req) => {
                        assert forall|j: int| 0 <= j < before.len() implies #[trigger] before[j].0
                            != name@ by {
                            let w = choose|w: int| 0 <= w < i && before[j].0 == s[w].0;
                            assert(s[w].0 != name@);
                        }
                        analyzed_map_insert(
                            &mut out,
                            name.copy_name(),
                            AnalyzedDependency::new(req.clone()),
                        );
                        assert forall|k: int| 0 <= k < analyzed_entries(out).len() implies exists|
                            j: int,
                        |
                            0 <= j < i + 1 && #[trigger] analyzed_entries(out)[k].0 == s[j].0 by {
                            if k < before.len() {
                                let w = choose|w: int| 0 <= w < i && before[k].0 == s[w].0;
                                assert(analyzed_entries(out)[k].0 == s[w].0);
                            } else {
                                assert(analyzed_entries(out)[k].0 == s[i as int].0);
                            }
                        }
                    },
                    CrateDep::Internal(_) => {},
                }
            },
            None => {},
        }
        i = i + 1;
    }
    assert(s.take(n as int) =~= s);
    out
}

/// Whether some entry of one group is outdated.
fn group_any_outdated(m: &OrderMap<CrateName, AnalyzedDependency>) -> (r: bool)
    ensures
        r == any_outdated_in(analyzed_entries(*m)),
{
    let ghost s = analyzed_entries(*m);
    let n = analyzed_map_len(m);
    let mut i: usize = 0;
    while i < n
        invariant
            n == s.len(),
            s == analyzed_entries(*m),
            0 <= i <= n,
            forall|k: int| 0 <= k < i ==> !(#[trigger] s[k]).1.outdated(),
        decreases n - i,
    {
        if let Some((_, dep)) = analyzed_map_get_index(m, i) {
            if dep.is_outdated() {
                assert(s[i as int].1.outdated());
                return true;
            }
        }
        i = i + 1;
    }
    false
}

/// The freshness state of every external dependency, in the three groups of `CrateDeps`.
#[derive(Debug)]
pub struct AnalyzedDependencies {
    pub main: OrderMap<CrateName, AnalyzedDependency>,
    pub dev: OrderMap<CrateName, AnalyzedDependency>,
    pub build: OrderMap<CrateName, AnalyzedDependency>,
}

impl AnalyzedDependencies {
    /// Keeps, group by group and in order, the external dependencies, each with a fresh
    /// state on its requirement.
    pub fn new(deps: &CrateDeps) -> (r: AnalyzedDependencies)
        ensures
            analyzed_entries(r.main) == project(dep_entries(deps.main)),
            analyzed_entries(r.dev) == project(dep_entries(deps.dev)),
            analyzed_entries(r.build) == project(dep_entries(deps.build)),
    {
        AnalyzedDependencies {
            main: project_group(&deps.main),
            dev: project_group(&deps.dev),
            build: project_group(&deps.build),
        }
    }

    /// Whether any dependency, in any group, is outdated.
    pub fn any_outdated(&self) -> (r: bool)
        ensures
            r == (any_outdated_in(analyzed_entries(self.main)) || any_outdated_in(
                analyzed_entries(self.dev),
            ) || any_outdated_in(analyzed_entries(self.build))),
    {
        let main_any_outdated = group_any_outdated(&self.main);
        let dev_any_outdated = group_any_outdated(&self.dev);
        let build_any_outdated = group_any_outdated(&self.build);
        main_any_outdated || dev_any_outdated || build_any_outdated
    }
}

} // verus!
