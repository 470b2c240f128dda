//! Validated crate names.
use std::borrow::Borrow;
use std::str::FromStr;
use vstd::prelude::*;
use vstd::std_specs::cmp::PartialEqSpec;
use vstd::std_specs::iter::IteratorSpec;

verus! {

broadcast use vstd::string::axiom_spec_iter, vstd::string::next_postcondition;

/// A character allowed in a crate name: an ASCII letter or digit, `_` or `-`.
pub open spec fn is_name_char(c: char) -> bool {
    ('a' <= c && c <= 'z') || ('A' <= c && c <= 'Z') || ('0' <= c && c <= '9') || c == '_' || c
        == '-'
}

/// A string that is a valid crate name: every character is allowed (the empty string is too).
pub open spec fn is_valid_name(s: Seq<char>) -> bool {
    forall|i: int| 0 <= i < s.len() ==> is_name_char(#[trigger] s[i])
}

/// The error returned when a crate name holds a character outside `[A-Za-z0-9_-]`.
#[derive(Clone, Debug, PartialEq, Eq)]
pub struct InvalidName {
    /// The rejected input.
    pub input: String,
}

/// The name of a crate: a string of ASCII letters, digits, `_` and `-`.
#[derive(Clone, Debug, Eq, PartialOrd, Ord, Hash)]
pub struct CrateName(String);

impl View for CrateName {
    type V = Seq<char>;

    closed spec fn view(&self) -> Seq<char> {
        self.0@
    }
}

impl CrateName {
    /// Parses a crate name: succeeds, with the input unchanged, exactly when every character
    /// is allowed.
    pub fn parse(input: &str) -> (r: Result<CrateName, InvalidName>)
        ensures
            is_valid_name(input@) <==> r is Ok,
            r matches Ok(n) ==> n@ == input@,
            r matches Err(e) ==> e.input@ == input@,
    {
        let mut chars = input.chars();
        let ghost n: int = 0;
        loop
            invariant
                0 <= n <= input@.len(),
                chars.remaining() == input@.skip(n),
                chars.obeys_prophetic_iter_laws(),
                forall|i: int| 0 <= i < n ==> is_name_char(#[trigger] input@[i]),
            decreases input@.len() - n,
        {
            match chars.next() {
                None => {
                    assert(n == input@.len()) by {
                        assert(input@.skip(n).len() == 0);
                    }
                    return Ok(CrateName(input.to_owned()));
                },
                Some(c) => {
                    assert(input@.skip(n)[0] == input@[n]);
                    let ok = ('a' <= c && c <= 'z') || ('A' <= c && c <= 'Z') || ('0' <= c && c <= '9')
                        || c == '_' || c == '-';
                    if !ok {
                        return Err(InvalidName { input: input.to_owned() });
                    }
                    proof {
                        assert(input@.skip(n).drop_first() =~= input@.skip(n + 1));
                        n = n + 1;
                    }
                },
            }
        }
    }

    /// The name as a string slice, without copying.
    pub fn as_str(&self) -> (r: &str)
        ensures
            r@ == self@,
    {
        self.0.as_str()
    }

    /// A second name equal to this one.
    pub fn copy_name(&self) -> (r: CrateName)
        ensures
            r@ == self@,
    {
        CrateName(self.0.clone())
    }
}

impl PartialEq for CrateName {
    fn eq(&self, o: &CrateName) -> (r: bool) {
        self.0 == o.0
    }
}

impl vstd::std_specs::cmp::PartialEqSpecImpl for CrateName {
    open spec fn obeys_eq_spec() -> bool {
        true
    }

    open spec fn eq_spec(&self, o: &CrateName) -> bool {
        self@ == o@
    }
}

/// Two names are equal exactly when their texts are, however each was made.
pub proof fn lemma_same_text_same_name(a: CrateName, b: CrateName)
    ensures
        a.eq_spec(&b) <==> a@ == b@,
{
}

impl From<CrateName> for String {
    fn from(n: CrateName) -> (r: String)
        ensures
            r@ == n@,
    {
        n.0
    }
}

impl vstd::std_specs::convert::FromSpecImpl<CrateName> for String {
    open spec fn obeys_from_spec() -> bool {
        true
    }

    closed spec fn from_spec(n: CrateName) -> String {
        n.0
    }
}

impl Borrow<str> for CrateName {
    fn borrow(&self) -> (r: &str)
        ensures
            <str as View>::view(r) == self@,
    {
        self.0.as_str()
    }
}

impl AsRef<str> for CrateName {
    fn as_ref(&self) -> (r: &str)
        ensures
            r@ == self@,
    {
        self.0.as_str()
    }
}

impl FromStr for CrateName {
    type Err = InvalidName;

    fn from_str(input: &str) -> (r: Result<CrateName, InvalidName>)
        ensures
            is_valid_name(input@) <==> r is Ok,
            r matches Ok(n) ==> n@ == input@,
            r matches Err(e) ==> e.input@ == input@,
    {
        CrateName::parse(input)
    }
}

} // verus!
