use vstd::prelude::*;

verus! {

/// Where a real number lies with respect to zero, as the comparisons
/// `< 0`, `== 0` and `> 0` see it. `Unordered` is a value for which none of the
/// three holds (a number that compares with nothing).
#[derive(Clone, Copy, PartialEq, Eq, Debug, Structural)]
pub enum Sign {
    Negative,
    Zero,
    Positive,
    Unordered,
}

impl Sign {
    /// The sign of the negated number.
    pub open spec fn spec_negate(self) -> Sign {
        match self {
            Sign::Negative => Sign::Positive,
            Sign::Positive => Sign::Negative,
            other => other,
        }
    }

    /// The number is strictly negative or strictly positive.
    pub open spec fn is_nonzero(self) -> bool {
        self is Negative || self is Positive
    }
}

} // verus!
