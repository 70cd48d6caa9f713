//! JVM class names and the conversion between their internal and binary
//! spellings.

use vstd::prelude::*;

use vstd::string::StrSliceExecFns;

use crate::descriptor::types::Type;
use crate::text::push_char;

verus! {

/// The internal spelling of a class name: every `.` replaced by `/`,
/// all other characters kept as they are.
pub open spec fn to_internal(s: Seq<char>) -> Seq<char> {
    s.map_values(|c: char| if c == '.' { '/' } else { c })
}

/// The binary spelling of a class name: every `/` replaced by `.`,
/// all other characters kept as they are.
pub open spec fn to_binary(s: Seq<char>) -> Seq<char> {
    s.map_values(|c: char| if c == '/' { '.' } else { c })
}

/// Converting a binary name to the internal spelling and back returns the
/// original name, provided the binary name contains no `/` (a `/` would be
/// conflated with a converted `.`).
pub proof fn lemma_binary_round_trip(n: Seq<char>)
    requires
        forall|i: int| 0 <= i < n.len() ==> n[i] != '/',
    ensures
        to_binary(to_internal(n)) == n,
{
    assert(to_binary(to_internal(n)) =~= n);
}

/// Converting an internal name to the binary spelling and back returns the
/// original name, provided the internal name contains no `.` (a `.` would be
/// conflated with a converted `/`).
pub proof fn lemma_internal_round_trip(s: Seq<char>)
    requires
        forall|i: int| 0 <= i < s.len() ==> s[i] != '.',
    ensures
        to_internal(to_binary(s)) == s,
{
    assert(to_internal(to_binary(s)) =~= s);
}

/// A JVM class name.
///
/// # Class name formats
///
/// Class names on the JVM typically come in three different varieties:
/// - Java names (packages and nested classes separated using `.`)
/// - Binary names used by reflection (packages separated using `.` and nested classes using `$`)
/// - Internal names in the bytecode (packages separated using `/` and nested classes using `$`)
///
/// Of these, Java names aren't dealt with here since they need actual knowledge of the bytecode
/// which isn't relevant for mappings.
///
/// Obfuscation mappings tend to use internal names, so class names are stored as internal names.
/// This struct also offers methods to convert between the two main formats.
///
/// The view of a class name is the sequence of characters of its internal
/// name. No validation of character legality occurs anywhere: malformed
/// input is preserved verbatim, never rejected.
#[derive(Debug, PartialEq, Eq, Hash)]
pub struct ClassName {
    internal_name: String,
}

impl View for ClassName {
    type V = Seq<char>;

    closed spec fn view(&self) -> Seq<char> {
        self.internal_name@
    }
}

impl Clone for ClassName {
    fn clone(&self) -> (r: Self)
        ensures
            r == *self,
    {
        ClassName { internal_name: self.internal_name.clone() }
    }
}

/// One character of a substitution: `from` becomes `to`, anything else is
/// kept.
pub open spec fn subst(from: char, to: char, c: char) -> char {
    if c == from {
        to
    } else {
        c
    }
}

/// Every occurrence of `from` in `s` replaced by `to`, all other characters
/// kept as they are.
pub open spec fn replace_seq(s: Seq<char>, from: char, to: char) -> Seq<char> {
    s.map_values(|c: char| subst(from, to, c))
}

/// Replaces every occurrence of `from` in `s` by `to`, leaving all other
/// characters unchanged.
fn replace_char(s: &str, from: char, to: char) -> (r: String)
    ensures
        r@ == replace_seq(s@, from, to),
{
    let n = s.unicode_len();
    let mut out = String::new();
    let mut i: usize = 0;
    while i < n
        invariant
            n == s@.len(),
            i <= n,
            out@ == replace_seq(s@.subrange(0, i as int), from, to),
        decreases n - i,
    {
        let c = s.get_char(i);
        if c == from {
            push_char(&mut out, to);
        } else {
            push_char(&mut out, c);
        }
        proof {
            assert(replace_seq(s@.subrange(0, i as int + 1), from, to)
                =~= replace_seq(s@.subrange(0, i as int), from, to)
                    + seq![subst(from, to, s@[i as int])]);
        }
        i = i + 1;
    }
    proof {
        assert(s@.subrange(0, n as int) =~= s@);
    }
    out
}

impl ClassName {
    /// Creates a class name from an internal name. The name is stored
    /// verbatim.
    pub fn from_internal_name(internal_name: &str) -> (r: ClassName)
        ensures
            r@ == internal_name@,
    {
        let internal_name = internal_name.to_owned();
        ClassName { internal_name }
    }

    /// Creates a class name from a binary name. Every `.` is replaced by
    /// `/` and nothing else changes.
    pub fn from_binary_name(binary_name: &str) -> (r: ClassName)
        ensures
            r@ == to_internal(binary_name@),
    {
        let internal_name = replace_char(binary_name, '.', '/');
        proof {
            assert(replace_seq(binary_name@, '.', '/') =~= to_internal(binary_name@));
        }
        ClassName { internal_name }
    }

    /// Returns the internal name of this class name.
    pub fn internal_name(&self) -> (r: &str)
        ensures
            r@ == self@,
    {
        self.internal_name.as_str()
    }

    /// Returns the binary name of this class name: every `/` of the internal
    /// name replaced by `.` and nothing else.
    pub fn binary_name(&self) -> (r: String)
        ensures
            r@ == to_binary(self@),
    {
        let r = replace_char(self.internal_name.as_str(), '/', '.');
        proof {
            assert(replace_seq(self@, '/', '.') =~= to_binary(self@));
        }
        r
    }

    /// Returns a [`Type`] representing an object type with this class name.
    pub fn to_type(&self) -> (r: Type)
        ensures
            r == Type::Object(*self),
    {
        Type::Object(self.clone())
    }
}

} // verus!
