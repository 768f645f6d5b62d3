//! The two-point domain the analysis computes in.

use vstd::prelude::*;

verus! {

/// What the analysis knows of one stack slot or local.
#[derive(Clone, Copy, Debug, PartialEq, Eq, Structural)]
pub enum AbstractValue {
    /// The id taken out of an object by an unpack, or the join of such a
    /// value with anything.
    ID,
    /// Any other value.
    NonID,
}

impl AbstractValue {
    /// The order of the domain: `NonID` lies below `ID`.
    pub open spec fn le(self, other: AbstractValue) -> bool {
        self == AbstractValue::NonID || other == AbstractValue::ID
    }

    /// The least upper bound: equal values join to themselves, different
    /// ones to `ID`.
    pub open spec fn spec_join(self, value: AbstractValue) -> AbstractValue {
        if self == value {
            value
        } else {
            AbstractValue::ID
        }
    }

    /// Joins two values.
    pub fn join(&self, value: &AbstractValue) -> (joined: AbstractValue)
        ensures
            joined == self.spec_join(*value),
    {
        if *self == *value {
            *value
        } else {
            AbstractValue::ID
        }
    }
}

/// Joining a value with itself gives that value.
pub proof fn lemma_join_idempotent(v: AbstractValue)
    ensures
        v.spec_join(v) == v,
{
}

/// The order of the operands of a join does not matter.
pub proof fn lemma_join_commutative(a: AbstractValue, b: AbstractValue)
    ensures
        a.spec_join(b) == b.spec_join(a),
{
}

/// Joins may be grouped either way.
pub proof fn lemma_join_associative(a: AbstractValue, b: AbstractValue, c: AbstractValue)
    ensures
        a.spec_join(b).spec_join(c) == a.spec_join(b.spec_join(c)),
{
}

/// `ID` absorbs `NonID`, from either side.
pub proof fn lemma_join_id_absorbs()
    ensures
        AbstractValue::NonID.spec_join(AbstractValue::ID) == AbstractValue::ID,
        AbstractValue::ID.spec_join(AbstractValue::NonID) == AbstractValue::ID,
{
}

/// The join is the least upper bound of its operands in the order `le`.
pub proof fn lemma_join_least_upper_bound(a: AbstractValue, b: AbstractValue, c: AbstractValue)
    ensures
        a.le(a.spec_join(b)),
        b.le(a.spec_join(b)),
        a.le(c) && b.le(c) ==> a.spec_join(b).le(c),
{
}

} // verus!
