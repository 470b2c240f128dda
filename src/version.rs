//! Release versions and their precedence.
use std::cmp::Ordering;
use vstd::prelude::*;

verus! {

/// One dot-separated part of a pre-release or build label.
#[derive(Clone, Debug, PartialEq, Eq, Hash)]
pub enum Identifier {
    /// A part made only of digits.
    Numeric(u64),
    /// A part with letters (and possibly digits).
    AlphaNumeric(String),
}

/// A semantic version: `major.minor.patch`, with optional pre-release and build labels.
#[derive(Clone, Debug)]
pub struct Version {
    pub major: u64,
    pub minor: u64,
    pub patch: u64,
    pub pre: Vec<Identifier>,
    pub build: Vec<Identifier>,
}

/// The order of two integers.
pub open spec fn cmp_int(a: int, b: int) -> Ordering {
    if a < b {
        Ordering::Less
    } else if a > b {
        Ordering::Greater
    } else {
        Ordering::Equal
    }
}

/// Lexicographic order of two character sequences (the byte order of their UTF-8 text).
pub open spec fn cmp_chars(a: Seq<char>, b: Seq<char>) -> Ordering
    decreases a.len(),
{
    if a.len() == 0 {
        if b.len() == 0 {
            Ordering::Equal
        } else {
            Ordering::Less
        }
    } else if b.len() == 0 {
        Ordering::Greater
    } else if a[0] < b[0] {
        Ordering::Less
    } else if a[0] > b[0] {
        Ordering::Greater
    } else {
        cmp_chars(a.drop_first(), b.drop_first())
    }
}

/// Order of two identifiers: numeric ones by value, below all alphanumeric ones, which go
/// by their text.
pub open spec fn cmp_ident(a: Identifier, b: Identifier) -> Ordering {
    match (a, b) {
        (Identifier::Numeric(x), Identifier::Numeric(y)) => cmp_int(x as int, y as int),
        (Identifier::Numeric(_), Identifier::AlphaNumeric(_)) => Ordering::Less,
        (Identifier::AlphaNumeric(_), Identifier::Numeric(_)) => Ordering::Greater,
        (Identifier::AlphaNumeric(s), Identifier::AlphaNumeric(t)) => cmp_chars(s@, t@),
    }
}

/// Lexicographic order of two identifier lists; a proper prefix comes first.
pub open spec fn cmp_idents(a: Seq<Identifier>, b: Seq<Identifier>) -> Ordering
    decreases a.len(),
{
    if a.len() == 0 {
        if b.len() == 0 {
            Ordering::Equal
        } else {
            Ordering::Less
        }
    } else if b.len() == 0 {
        Ordering::Greater
    } else if cmp_ident(a[0], b[0]) != Ordering::Equal {
        cmp_ident(a[0], b[0])
    } else {
        cmp_idents(a.drop_first(), b.drop_first())
    }
}

/// Precedence of two versions: major, minor and patch in turn; then a version without a
/// pre-release label ranks above one with it, and two labels go by `cmp_idents`. Build
/// labels do not count.
pub open spec fn cmp_versions(a: Version, b: Version) -> Ordering {
    if a.major != b.major {
        cmp_int(a.major as int, b.major as int)
    } else if a.minor != b.minor {
        cmp_int(a.minor as int, b.minor as int)
    } else if a.patch != b.patch {
        cmp_int(a.patch as int, b.patch as int)
    } else if a.pre@.len() == 0 && b.pre@.len() == 0 {
        Ordering::Equal
    } else if a.pre@.len() == 0 {
        Ordering::Greater
    } else if b.pre@.len() == 0 {
        Ordering::Less
    } else {
        cmp_idents(a.pre@, b.pre@)
    }
}

/// Every character sequence is equal to itself in `cmp_chars`.
pub proof fn lemma_cmp_chars_refl(a: Seq<char>)
    ensures
        cmp_chars(a, a) == Ordering::Equal,
    decreases a.len(),
{
    if a.len() > 0 {
        lemma_cmp_chars_refl(a.drop_first());
    }
}

/// Every identifier list is equal to itself in `cmp_idents`.
pub proof fn lemma_cmp_idents_refl(a: Seq<Identifier>)
    ensures
        cmp_idents(a, a) == Ordering::Equal,
    decreases a.len(),
{
    if a.len() > 0 {
        match a[0] {
            Identifier::AlphaNumeric(t) => lemma_cmp_chars_refl(t@),
            Identifier::Numeric(_) => {},
        }
        lemma_cmp_idents_refl(a.drop_first());
    }
}

/// Every version has the same precedence as itself.
pub proof fn lemma_cmp_versions_refl(v: Version)
    ensures
        cmp_versions(v, v) == Ordering::Equal,
{
    lemma_cmp_idents_refl(v.pre@);
}

/// Relies on semver's `Ord for Version`, which compares major, minor and patch, then ranks
/// an empty pre-release list highest and otherwise compares the lists with the derived
/// `Ord` of `Vec<semver::Identifier>`; build metadata is ignored.
#[verifier::external_body]
fn semver_cmp(a: &Version, b: &Version) -> (r: Ordering)
    ensures
        r == cmp_versions(*a, *b),
{
    let ident = |i: &Identifier| match i {
        Identifier::Numeric(n) => semver::Identifier::Numeric(*n),
        Identifier::AlphaNumeric(s) => semver::Identifier::AlphaNumeric(s.clone()),
    };
    let conv = |v: &Version| semver::Version {
        major: v.major,
        minor: v.minor,
        patch: v.patch,
        pre: v.pre.iter().map(ident).collect(),
        build: v.build.iter().map(ident).collect(),
    };
    conv(a).cmp(&conv(b))
}

impl Version {
    /// The release version `major.minor.patch`, with no pre-release or build label.
    pub fn new(major: u64, minor: u64, patch: u64) -> (r: Version)
        ensures
            r.major == major,
            r.minor == minor,
            r.patch == patch,
            r.pre@.len() == 0,
            r.build@.len() == 0,
    {
        Version { major, minor, patch, pre: Vec::new(), build: Vec::new() }
    }

    /// The precedence of this version against `other`.
    pub fn compare(&self, other: &Version) -> (r: Ordering)
        ensures
            r == cmp_versions(*self, *other),
    {
        semver_cmp(self, other)
    }

    /// Whether this version has strictly higher precedence than `other`.
    pub fn is_newer_than(&self, other: &Version) -> (r: bool)
        ensures
            r == (cmp_versions(*self, *other) == Ordering::Greater),
    {
        match semver_cmp(self, other) {
            Ordering::Greater => true,
            _ => false,
        }
    }
}

} // verus!
