//! Biophysical domains and their fixed tags.

use vstd::prelude::*;

verus! {

/// A biophysical resource domain.
#[derive(Clone, Copy, Debug, PartialEq, Eq, Hash, Structural)]
pub enum BioDomain {
    Blood,
    Sugar,
    Smart,
    Wave,
    Brain,
    Oxygen,
}

impl BioDomain {
    /// The tag of each domain, as a sequence of characters.
    pub open spec fn spec_hex_tag(self) -> Seq<char> {
        match self {
            BioDomain::Blood => "0xB10oD001"@,
            BioDomain::Sugar => "0x5U6AR002"@,
            BioDomain::Smart => "0x5MART003"@,
            BioDomain::Wave => "0xWA4E004"@,
            BioDomain::Brain => "0x8RAIN005"@,
            BioDomain::Oxygen => "0x0XY6EN06"@,
        }
    }

    /// The fixed tag under which this domain is recorded.
    pub fn hex_tag(&self) -> (tag: &'static str)
        ensures
            tag@ == self.spec_hex_tag(),
    {
        match self {
            BioDomain::Blood => "0xB10oD001",
            BioDomain::Sugar => "0x5U6AR002",
            BioDomain::Smart => "0x5MART003",
            BioDomain::Wave => "0xWA4E004",
            BioDomain::Brain => "0x8RAIN005",
            BioDomain::Oxygen => "0x0XY6EN06",
        }
    }
}

} // verus!
