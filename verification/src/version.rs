//! Driver and library versions, their order and their text.
use vstd::prelude::*;
use std::cmp::Ordering;
use vstd::std_specs::cmp::PartialOrdSpec;
use crate::text::{signed_decimal, signed_decimal_string};

verus! {

/// A `major.minor.patch` version as the driver reports it.
#[derive(Clone, Copy, PartialEq, Eq, Structural, Ord, Hash, Debug)]
pub struct Version {
    pub major: i32,
    pub minor: i32,
    pub patch: i32,
}

/// The order of two integers.
pub open spec fn int_order(a: i32, b: i32) -> Ordering {
    if a < b {
        Ordering::Less
    } else if a == b {
        Ordering::Equal
    } else {
        Ordering::Greater
    }
}

/// Versions are ordered by major number, then minor number, then patch number.
pub open spec fn version_order(a: Version, b: Version) -> Ordering {
    if a.major != b.major {
        int_order(a.major, b.major)
    } else if a.minor != b.minor {
        int_order(a.minor, b.minor)
    } else {
        int_order(a.patch, b.patch)
    }
}

/// The text of a version: its three numbers in decimal, separated by dots.
pub open spec fn version_text(major: int, minor: int, patch: int) -> Seq<char> {
    signed_decimal(major) + seq!['.'] + signed_decimal(minor) + seq!['.'] + signed_decimal(patch)
}

/// Compares two integers.
fn compare_i32(a: i32, b: i32) -> (r: Ordering)
    ensures
        r == int_order(a, b),
{
    if a < b {
        Ordering::Less
    } else if a == b {
        Ordering::Equal
    } else {
        Ordering::Greater
    }
}

/// Renders `major.minor.patch`.
pub(crate) fn three_part_text(major: i32, minor: i32, patch: i32) -> (s: String)
    ensures
        s@ == version_text(major as int, minor as int, patch as int),
{
    let mut s = signed_decimal_string(major as i64);
    s.append(".");
    let minor_text = signed_decimal_string(minor as i64);
    s.append(minor_text.as_str());
    s.append(".");
    let patch_text = signed_decimal_string(patch as i64);
    s.append(patch_text.as_str());
    proof {
        reveal_strlit(".");
    }
    s
}

impl Version {
    /// The version with the given numbers.
    pub fn new(major: i32, minor: i32, patch: i32) -> (v: Version)
        ensures
            v.major == major,
            v.minor == minor,
            v.patch == patch,
    {
        Version { major, minor, patch }
    }

    /// Compares by major number, then minor number, then patch number.
    pub fn cmp(&self, other: &Self) -> (r: Ordering)
        ensures
            r == version_order(*self, *other),
    {
        match compare_i32(self.major, other.major) {
            Ordering::Equal => match compare_i32(self.minor, other.minor) {
                Ordering::Equal => compare_i32(self.patch, other.patch),
                ord => ord,
            },
            ord => ord,
        }
    }

    /// The text `major.minor.patch`.
    pub fn to_string(&self) -> (s: String)
        ensures
            s@ == version_text(self.major as int, self.minor as int, self.patch as int),
    {
        three_part_text(self.major, self.minor, self.patch)
    }
}

impl PartialOrd for Version {
    fn partial_cmp(&self, other: &Self) -> (r: Option<Ordering>) {
        Some(self.cmp(other))
    }
}

impl vstd::std_specs::cmp::PartialOrdSpecImpl for Version {
    open spec fn obeys_partial_cmp_spec() -> bool {
        true
    }

    open spec fn partial_cmp_spec(&self, other: &Self) -> Option<Ordering> {
        Some(version_order(*self, *other))
    }
}

/// The order of versions is a total order: only equal versions compare `Equal`, swapping the
/// operands reverses the result, and `Less` is transitive.
pub proof fn lemma_version_total_order(a: Version, b: Version, c: Version)
    ensures
        version_order(a, b) == Ordering::Equal <==> a == b,
        version_order(a, b) == Ordering::Less <==> version_order(b, a) == Ordering::Greater,
        version_order(a, b) == Ordering::Less && version_order(b, c) == Ordering::Less
            ==> version_order(a, c) == Ordering::Less,
        version_order(a, b) != Ordering::Greater && version_order(b, c) != Ordering::Greater
            ==> version_order(a, c) != Ordering::Greater,
{
}

/// Versions compare as their numbers do, read left to right: the first of major, minor and patch
/// in which two versions differ decides, the smaller number giving the smaller version; versions
/// with the same three numbers are equal.
pub proof fn lemma_version_lexicographic(a: Version, b: Version)
    ensures
        a.major < b.major ==> version_order(a, b) == Ordering::Less,
        a.major > b.major ==> version_order(a, b) == Ordering::Greater,
        a.major == b.major && a.minor < b.minor ==> version_order(a, b) == Ordering::Less,
        a.major == b.major && a.minor > b.minor ==> version_order(a, b) == Ordering::Greater,
        a.major == b.major && a.minor == b.minor && a.patch < b.patch ==> version_order(a, b)
            == Ordering::Less,
        a.major == b.major && a.minor == b.minor && a.patch > b.patch ==> version_order(a, b)
            == Ordering::Greater,
        a.major == b.major && a.minor == b.minor && a.patch == b.patch ==> version_order(a, b)
            == Ordering::Equal,
{
}

/// Comparison is consistent with the derived equality, both ways round.
pub proof fn lemma_version_partial_cmp_agrees(a: Version, b: Version)
    ensures
        a.partial_cmp_spec(&b) == Some(version_order(a, b)),
        (a.partial_cmp_spec(&b) == Some(Ordering::Equal)) == (a == b),
{
}

} // verus!
