use vstd::prelude::*;

use crate::text::str_equal;

verus! {

/// The impact of an API change, from the least to the most severe.
#[derive(Clone, Copy, Debug, PartialEq, Eq, Structural)]
pub enum ChangeTypes {
    Patch,
    NonBreaking,
    TechnicallyBreaking,
    Breaking,
}

/// The category that the analyzer writes under the given name, if any.
pub open spec fn category_named(s: Seq<char>) -> Option<ChangeTypes> {
    if s == "Patch"@ {
        Some(ChangeTypes::Patch)
    } else if s == "NonBreaking"@ {
        Some(ChangeTypes::NonBreaking)
    } else if s == "TechnicallyBreaking"@ {
        Some(ChangeTypes::TechnicallyBreaking)
    } else if s == "Breaking"@ {
        Some(ChangeTypes::Breaking)
    } else {
        None
    }
}

impl ChangeTypes {
    /// Position in the order of severity, `Patch` first.
    pub open spec fn spec_rank(self) -> nat {
        match self {
            ChangeTypes::Patch => 0,
            ChangeTypes::NonBreaking => 1,
            ChangeTypes::TechnicallyBreaking => 2,
            ChangeTypes::Breaking => 3,
        }
    }

    /// The name under which the analyzer reports the category.
    pub open spec fn spec_name(self) -> Seq<char> {
        match self {
            ChangeTypes::Patch => "Patch"@,
            ChangeTypes::NonBreaking => "NonBreaking"@,
            ChangeTypes::TechnicallyBreaking => "TechnicallyBreaking"@,
            ChangeTypes::Breaking => "Breaking"@,
        }
    }

    pub fn rank(&self) -> (r: u8)
        ensures
            r as nat == self.spec_rank(),
    {
        match self {
            ChangeTypes::Patch => 0,
            ChangeTypes::NonBreaking => 1,
            ChangeTypes::TechnicallyBreaking => 2,
            ChangeTypes::Breaking => 3,
        }
    }

    /// Whether `self` is strictly less severe than `other`.
    pub fn is_less_severe(&self, other: &ChangeTypes) -> (r: bool)
        ensures
            r == (self.spec_rank() < other.spec_rank()),
    {
        self.rank() < other.rank()
    }

    pub fn name(&self) -> (r: &'static str)
        ensures
            r@ == self.spec_name(),
    {
        match self {
            ChangeTypes::Patch => "Patch",
            ChangeTypes::NonBreaking => "NonBreaking",
            ChangeTypes::TechnicallyBreaking => "TechnicallyBreaking",
            ChangeTypes::Breaking => "Breaking",
        }
    }

    /// Reads a category from its name; any other text is no category.
    pub fn from_name(s: &str) -> (r: Option<ChangeTypes>)
        ensures
            r == category_named(s@),
    {
        if str_equal(s, "Patch") {
            Some(ChangeTypes::Patch)
        } else if str_equal(s, "NonBreaking") {
            Some(ChangeTypes::NonBreaking)
        } else if str_equal(s, "TechnicallyBreaking") {
            Some(ChangeTypes::TechnicallyBreaking)
        } else if str_equal(s, "Breaking") {
            Some(ChangeTypes::Breaking)
        } else {
            None
        }
    }
}

/// The order of severity is total and fixed: `Patch` below `NonBreaking`
/// below `TechnicallyBreaking` below `Breaking`; of two categories exactly one
/// of "less severe", "equal" and "more severe" holds, and the order is
/// transitive.
pub proof fn severity_order_is_total(a: ChangeTypes, b: ChangeTypes, c: ChangeTypes)
    ensures
        ChangeTypes::Patch.spec_rank() < ChangeTypes::NonBreaking.spec_rank(),
        ChangeTypes::NonBreaking.spec_rank() < ChangeTypes::TechnicallyBreaking.spec_rank(),
        ChangeTypes::TechnicallyBreaking.spec_rank() < ChangeTypes::Breaking.spec_rank(),
        (a.spec_rank() < b.spec_rank()) || a == b || (b.spec_rank() < a.spec_rank()),
        !(a.spec_rank() < b.spec_rank() && a == b),
        !(a.spec_rank() < b.spec_rank() && b.spec_rank() < a.spec_rank()),
        a.spec_rank() < b.spec_rank() && b.spec_rank() < c.spec_rank() ==> a.spec_rank()
            < c.spec_rank(),
{
}

/// Every category is read back from its own name, and a name reads as at
/// most one category.
pub proof fn category_name_round_trip(a: ChangeTypes)
    ensures
        category_named(a.spec_name()) == Some(a),
{
    reveal_strlit("Patch");
    reveal_strlit("NonBreaking");
    reveal_strlit("TechnicallyBreaking");
    reveal_strlit("Breaking");
    assert("Patch"@.len() == 5);
    assert("NonBreaking"@.len() == 11);
    assert("TechnicallyBreaking"@.len() == 19);
    assert("Breaking"@.len() == 8);
}

} // verus!
