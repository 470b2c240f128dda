//! Declared dependencies of a crate and what its manifest holds.
use crate::name::CrateName;
use crate::version::Version;
use ordermap::OrderMap;
use relative_path::RelativePathBuf;
use semver::VersionReq;
use vstd::prelude::*;

verus! {

/// A semantic-version requirement (`^1.0`, `>= 2, < 3`), carried through unread.
#[verifier::external_type_specification]
#[verifier::external_body]
pub struct ExVersionReq(semver::VersionReq);

/// A relative path to a sibling crate of the workspace, carried through unread.
#[verifier::external_type_specification]
#[verifier::external_body]
pub struct ExRelativePathBuf(relative_path::RelativePathBuf);

/// A hash map that keeps its entries in the order of insertion.
#[verifier::external_type_specification]
#[verifier::external_body]
#[verifier::reject_recursive_types(K)]
#[verifier::reject_recursive_types(V)]
#[verifier::reject_recursive_types(S)]
pub struct ExOrderMap<K, V, S>(ordermap::OrderMap<K, V, S>);

/// Relies on semver's derived `Clone for VersionReq`: the copy is the same requirement.
pub assume_specification[ <semver::VersionReq as Clone>::clone ](r: &semver::VersionReq) -> (c:
    semver::VersionReq)
    ensures
        c == *r,
;

/// Relies on relative-path's derived `Clone for RelativePathBuf`: the copy is the same path.
pub assume_specification[ <relative_path::RelativePathBuf as Clone>::clone ](
    p: &relative_path::RelativePathBuf,
) -> (c: relative_path::RelativePathBuf)
    ensures
        c == *p,
;

/// Relies on ordermap's derived `Clone for OrderMap`, which copies every entry; nothing is
/// stated of the copy.
pub assume_specification<K, V, S>[ <ordermap::OrderMap<K, V, S> as Clone>::clone ](
    m: &ordermap::OrderMap<K, V, S>,
) -> ordermap::OrderMap<K, V, S>
    where
        K: Clone,
        S: Clone,
        V: Clone,
;

/// The entries of a map of declared dependencies, in order: each name's text and its dependency.
pub uninterp spec fn dep_entries(m: OrderMap<CrateName, CrateDep>) -> Seq<(Seq<char>, CrateDep)>;

/// Relies on `OrderMap::new`: the new map is empty.
#[verifier::external_body]
fn dep_map_new() -> (r: OrderMap<CrateName, CrateDep>)
    ensures
        dep_entries(r) == Seq::<(Seq<char>, CrateDep)>::empty(),
{
    OrderMap::new()
}

/// Relies on `OrderMap::len`: the number of entries.
#[verifier::external_body]
pub(crate) fn dep_map_len(m: &OrderMap<CrateName, CrateDep>) -> (r: usize)
    ensures
        r == dep_entries(*m).len(),
{
    m.len()
}

/// Relies on `OrderMap::get_index`: the entry at position `i` in insertion order, if any;
/// its key is held by no other entry.
#[verifier::external_body]
pub(crate) fn dep_map_get_index(
    m: &OrderMap<CrateName, CrateDep>,
    i: usize,
) -> (r: Option<(&CrateName, &CrateDep)>)
    ensures
        i < dep_entries(*m).len() ==> r is Some,
        i < dep_entries(*m).len() ==> r.unwrap().0@ == dep_entries(*m)[i as int].0,
        i < dep_entries(*m).len() ==> *r.unwrap().1 == dep_entries(*m)[i as int].1,
        forall|j: int|
            0 <= j < dep_entries(*m).len() && j != i && r is Some
                ==> #[trigger] dep_entries(*m)[j].0 != r.unwrap().0@,
        i >= dep_entries(*m).len() ==> r is None,
{
    m.get_index(i)
}

/// How a dependency is found: by a version requirement on the registry, or by a path
/// inside the workspace.
#[derive(Clone, Debug, PartialEq, Eq)]
pub enum CrateDep {
    External(VersionReq),
    Internal(RelativePathBuf),
}

impl CrateDep {
    /// Whether the dependency is resolved through the registry.
    pub fn is_external(&self) -> (r: bool)
        ensures
            r == (*self is External),
    {
        match self {
            CrateDep::External(_) => true,
            CrateDep::Internal(_) => false,
        }
    }
}

/// The dependencies a crate declares, in three independent groups, each keyed by name in
/// declaration order.
#[derive(Clone, Debug)]
pub struct CrateDeps {
    pub main: OrderMap<CrateName, CrateDep>,
    pub dev: OrderMap<CrateName, CrateDep>,
    pub build: OrderMap<CrateName, CrateDep>,
}

impl Default for CrateDeps {
    /// Three empty groups.
    fn default() -> (r: CrateDeps)
        ensures
            dep_entries(r.main).len() == 0,
            dep_entries(r.dev).len() == 0,
            dep_entries(r.build).len() == 0,
    {
        CrateDeps { main: dep_map_new(), dev: dep_map_new(), build: dep_map_new() }
    }
}

/// One published release of a crate, as the registry reports it.
#[derive(Debug)]
pub struct CrateRelease {
    pub name: CrateName,
    pub version: Version,
    pub yanked: bool,
}

/// What one manifest file declares.
#[derive(Clone, Debug)]
pub enum CrateManifest {
    /// A standalone crate.
    Package(CrateName, CrateDeps),
    /// A workspace root with members and no dependencies of its own.
    Workspace { members: Vec<RelativePathBuf> },
    /// A crate that is also the root of a workspace.
    Mixed { name: CrateName, deps: CrateDeps, members: Vec<RelativePathBuf> },
}

} // verus!
