use std::borrow::Borrow;
use std::cmp::Ordering;
use std::collections::hash_map::DefaultHasher;
use std::hash::{Hash, Hasher};
use std::str::FromStr;

use crate_deps::{
    AnalyzedDependencies, AnalyzedDependency, CrateDep, CrateDeps, CrateManifest, CrateName,
    CrateRelease, Identifier, InvalidName, Version,
};
use relative_path::RelativePathBuf;
use semver::VersionReq;

fn name(s: &str) -> CrateName {
    CrateName::parse(s).unwrap()
}

fn req(s: &str) -> VersionReq {
    VersionReq::parse(s).unwrap()
}

fn hash_of(n: &CrateName) -> u64 {
    let mut h = DefaultHasher::new();
    n.hash(&mut h);
    h.finish()
}

fn analyzed(latest: Option<Version>, matching: Option<Version>) -> AnalyzedDependency {
    let mut d = AnalyzedDependency::new(req("^1.0"));
    d.latest = latest;
    d.latest_that_matches = matching;
    d
}

#[test]
fn parse_accepts_letters_digits_underscore_dash() {
    let n = CrateName::parse("serde_derive-2").unwrap();
    assert_eq!(n.as_str(), "serde_derive-2");
}

#[test]
fn parse_rejects_other_characters() {
    for bad in ["serde.derive", "a/b", "a@1"] {
        assert_eq!(
            CrateName::parse(bad),
            Err(InvalidName { input: bad.to_string() })
        );
    }
}

#[test]
fn parse_accepts_empty_name() {
    assert_eq!(CrateName::parse("").unwrap().as_str(), "");
}

#[test]
fn parse_keeps_case() {
    assert_eq!(CrateName::parse("Serde").unwrap().as_str(), "Serde");
    assert_ne!(name("Serde"), name("serde"));
}

#[test]
fn from_str_matches_parse() {
    assert_eq!(CrateName::from_str("tokio").unwrap(), name("tokio"));
    assert!(CrateName::from_str("to kio").is_err());
}

#[test]
fn names_from_same_text_are_equal_and_hash_alike() {
    let a = name("serde");
    let b = CrateName::from_str("serde").unwrap();
    let c = a.clone();
    assert_eq!(a, b);
    assert_eq!(a, c);
    assert_eq!(hash_of(&a), hash_of(&b));
    assert_eq!(hash_of(&a), hash_of(&c));
}

#[test]
fn name_views_and_conversion() {
    let n = name("rand_core");
    let s: &str = n.borrow();
    assert_eq!(s, "rand_core");
    assert_eq!(n.as_ref() as &str, "rand_core");
    let owned: String = n.into();
    assert_eq!(owned, "rand_core");
}

#[test]
fn names_order_by_text() {
    assert!(name("abc") < name("abd"));
    assert!(name("B") < name("a"));
}

#[test]
fn outdated_when_nothing_known() {
    assert!(!analyzed(None, None).is_outdated());
}

#[test]
fn outdated_when_no_release_matches() {
    assert!(analyzed(Some(Version::new(1, 0, 0)), None).is_outdated());
}

#[test]
fn not_outdated_when_latest_matches() {
    let d = analyzed(Some(Version::new(1, 0, 0)), Some(Version::new(1, 0, 0)));
    assert!(!d.is_outdated());
}

#[test]
fn outdated_when_latest_is_newer() {
    let d = analyzed(Some(Version::new(2, 0, 0)), Some(Version::new(1, 5, 0)));
    assert!(d.is_outdated());
}

#[test]
fn not_outdated_when_match_is_above_latest() {
    let d = analyzed(Some(Version::new(1, 0, 0)), Some(Version::new(1, 2, 0)));
    assert!(!d.is_outdated());
}

#[test]
fn new_analysis_has_nothing_known() {
    let d = AnalyzedDependency::new(req("^1.0"));
    assert_eq!(d.required, req("^1.0"));
    assert!(d.latest.is_none());
    assert!(d.latest_that_matches.is_none());
}

#[test]
fn version_order_follows_precedence() {
    let v = Version::new;
    assert_eq!(v(1, 2, 3).compare(&v(1, 2, 3)), Ordering::Equal);
    assert_eq!(v(2, 0, 0).compare(&v(1, 9, 9)), Ordering::Greater);
    assert_eq!(v(1, 2, 0).compare(&v(1, 10, 0)), Ordering::Less);
    assert_eq!(v(1, 0, 1).compare(&v(1, 0, 0)), Ordering::Greater);
    assert!(v(1, 0, 1).is_newer_than(&v(1, 0, 0)));
    assert!(!v(1, 0, 0).is_newer_than(&v(1, 0, 1)));
}

#[test]
fn version_pre_release_ranks_below_release() {
    let mut pre = Version::new(1, 0, 0);
    pre.pre = vec![Identifier::AlphaNumeric("alpha".to_string())];
    assert_eq!(pre.compare(&Version::new(1, 0, 0)), Ordering::Less);
    assert_eq!(Version::new(1, 0, 0).compare(&pre), Ordering::Greater);

    let mut beta = Version::new(1, 0, 0);
    beta.pre = vec![Identifier::AlphaNumeric("beta".to_string())];
    assert_eq!(pre.compare(&beta), Ordering::Less);

    let mut numeric = Version::new(1, 0, 0);
    numeric.pre = vec![Identifier::Numeric(7)];
    assert_eq!(numeric.compare(&pre), Ordering::Less);

    let mut longer = pre.clone();
    longer.pre.push(Identifier::Numeric(1));
    assert_eq!(pre.compare(&longer), Ordering::Less);
}

#[test]
fn version_build_label_is_ignored() {
    let mut built = Version::new(1, 0, 0);
    built.build = vec![Identifier::AlphaNumeric("linux".to_string())];
    assert_eq!(built.compare(&Version::new(1, 0, 0)), Ordering::Equal);
}

#[test]
fn is_external_tells_variants_apart() {
    assert!(CrateDep::External(req("^1.0")).is_external());
    assert!(!CrateDep::Internal(RelativePathBuf::from("../util")).is_external());
}

#[test]
fn default_deps_are_empty() {
    let deps = CrateDeps::default();
    assert!(deps.main.is_empty());
    assert!(deps.dev.is_empty());
    assert!(deps.build.is_empty());
}

#[test]
fn projection_keeps_external_entries_in_order() {
    let mut deps = CrateDeps::default();
    deps.main.insert(name("b"), CrateDep::External(req("^1.0")));
    deps.main.insert(name("local"), CrateDep::Internal(RelativePathBuf::from("../local")));
    deps.main.insert(name("a"), CrateDep::External(req("~2.1")));
    deps.dev.insert(name("only_path"), CrateDep::Internal(RelativePathBuf::from("x")));
    deps.build.insert(name("z"), CrateDep::External(req(">= 0.3")));
    deps.build.insert(name("cc"), CrateDep::External(req("^1.2")));

    let analyzed = AnalyzedDependencies::new(&deps);

    let main: Vec<&str> = analyzed.main.keys().map(|k| k.as_str()).collect();
    assert_eq!(main, vec!["b", "a"]);
    assert_eq!(analyzed.main.get("b").unwrap().required, req("^1.0"));
    assert_eq!(analyzed.main.get("a").unwrap().required, req("~2.1"));
    assert!(analyzed.dev.is_empty());
    let build: Vec<&str> = analyzed.build.keys().map(|k| k.as_str()).collect();
    assert_eq!(build, vec!["z", "cc"]);
    assert_eq!(analyzed.build.get("cc").unwrap().required, req("^1.2"));
    for (_, d) in analyzed.main.iter().chain(analyzed.build.iter()) {
        assert!(d.latest.is_none());
        assert!(d.latest_that_matches.is_none());
    }
}

#[test]
fn projection_keeps_same_name_in_different_groups() {
    let mut deps = CrateDeps::default();
    deps.main.insert(name("util"), CrateDep::Internal(RelativePathBuf::from("../util")));
    deps.dev.insert(name("util"), CrateDep::External(req("^0.1")));
    let analyzed = AnalyzedDependencies::new(&deps);
    assert!(analyzed.main.is_empty());
    assert_eq!(analyzed.dev.len(), 1);
    assert_eq!(analyzed.dev.get("util").unwrap().required, req("^0.1"));
}

#[test]
fn any_outdated_false_when_empty() {
    let analyzed = AnalyzedDependencies::new(&CrateDeps::default());
    assert!(!analyzed.any_outdated());
}

#[test]
fn any_outdated_true_for_one_outdated_dev_entry() {
    let mut deps = CrateDeps::default();
    deps.main.insert(name("m"), CrateDep::External(req("^1.0")));
    deps.dev.insert(name("d"), CrateDep::External(req("^1.0")));
    deps.build.insert(name("b"), CrateDep::External(req("^1.0")));
    let mut analyzed = AnalyzedDependencies::new(&deps);
    {
        let m = analyzed.main.get_mut("m").unwrap();
        m.latest = Some(Version::new(1, 1, 0));
        m.latest_that_matches = Some(Version::new(1, 1, 0));
    }
    assert!(!analyzed.any_outdated());
    {
        let d = analyzed.dev.get_mut("d").unwrap();
        d.latest = Some(Version::new(2, 0, 0));
        d.latest_that_matches = Some(Version::new(1, 4, 0));
    }
    assert!(analyzed.any_outdated());
}

#[test]
fn end_to_end_new_release_makes_dependency_outdated() {
    let mut deps = CrateDeps::default();
    deps.main.insert(name("serde"), CrateDep::External(req("^1.0")));
    deps.main.insert(
        name("workspace_util"),
        CrateDep::Internal(RelativePathBuf::from("../util")),
    );

    let mut analyzed = AnalyzedDependencies::new(&deps);
    assert_eq!(analyzed.main.len(), 1);
    {
        let serde = analyzed.main.get("serde").unwrap();
        assert_eq!(serde.required, req("^1.0"));
        assert!(serde.latest.is_none());
        assert!(serde.latest_that_matches.is_none());
        assert!(!serde.is_outdated());
    }
    assert!(analyzed.dev.is_empty());
    assert!(analyzed.build.is_empty());

    {
        let serde = analyzed.main.get_mut("serde").unwrap();
        serde.latest = Some(Version::new(1, 2, 0));
        serde.latest_that_matches = Some(Version::new(1, 2, 0));
    }
    assert!(!analyzed.main.get("serde").unwrap().is_outdated());
    assert!(!analyzed.any_outdated());

    analyzed.main.get_mut("serde").unwrap().latest = Some(Version::new(2, 0, 0));
    let serde = analyzed.main.get("serde").unwrap();
    assert!(serde.is_outdated());
    assert_eq!(serde.latest_that_matches.as_ref().unwrap().minor, 2);
    assert!(analyzed.any_outdated());
}

#[test]
fn manifest_variants_carry_their_data() {
    let mut deps = CrateDeps::default();
    deps.main.insert(name("serde"), CrateDep::External(req("^1.0")));
    let package = CrateManifest::Package(name("app"), deps.clone());
    let workspace = CrateManifest::Workspace { members: vec![RelativePathBuf::from("a")] };
    let mixed = CrateManifest::Mixed {
        name: name("root"),
        deps,
        members: vec![RelativePathBuf::from("b")],
    };
    match package {
        CrateManifest::Package(n, d) => {
            assert_eq!(n.as_str(), "app");
            assert!(AnalyzedDependencies::new(&d).main.contains_key("serde"));
        }
        _ => panic!("expected a package"),
    }
    match workspace {
        CrateManifest::Workspace { members } => assert_eq!(members.len(), 1),
        _ => panic!("expected a workspace"),
    }
    match mixed {
        CrateManifest::Mixed { name, deps, members } => {
            assert_eq!(name.as_str(), "root");
            assert_eq!(deps.main.len(), 1);
            assert_eq!(members[0].as_str(), "b");
        }
        _ => panic!("expected a mixed manifest"),
    }
}

#[test]
fn release_records_its_facts() {
    let r = CrateRelease { name: name("serde"), version: Version::new(1, 0, 0), yanked: true };
    assert_eq!(r.name.as_str(), "serde");
    assert_eq!(r.version.major, 1);
    assert!(r.yanked);
}

#[test]
fn from_str_rejects_non_ascii_and_spaces() {
    assert_eq!(
        CrateName::from_str("caf\u{e9}"),
        Err(InvalidName { input: "caf\u{e9}".to_string() })
    );
    assert!(CrateName::from_str("serde derive").is_err());
    for bad in ["serde.derive", "a/b", "a@1"] {
        assert!(CrateName::from_str(bad).is_err());
    }
}

#[test]
fn from_str_keeps_input_unchanged() {
    let n = CrateName::from_str("serde_derive-2").unwrap();
    assert_eq!(n.as_ref() as &str, "serde_derive-2");
    assert_eq!(CrateName::from_str("").unwrap().as_ref() as &str, "");
    let text: String = CrateName::from_str("Serde").unwrap().into();
    assert_eq!(text, "Serde");
}
