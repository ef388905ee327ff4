//! The version of the CNNL library.
use vstd::prelude::*;
use crate::version::{three_part_text, version_text};

verus! {

/// A `major.minor.patch` version of the CNNL library.
#[derive(Clone, Copy, PartialEq, Eq, Structural, Hash, Debug)]
pub struct Version {
    pub major: i32,
    pub minor: i32,
    pub patch: i32,
}

impl Version {
    /// The version with the numbers the library reports.
    pub fn get(major: i32, minor: i32, patch: i32) -> (v: Version)
        ensures
            v == (Version { major, minor, patch }),
    {
        Version { major, minor, patch }
    }

    /// The text `major.minor.patch`.
    pub fn to_string(&self) -> (s: String)
        ensures
            s@ == version_text(self.major as int, self.minor as int, self.patch as int),
    {
        three_part_text(self.major, self.minor, self.patch)
    }
}

} // verus!
