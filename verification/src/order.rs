use vstd::prelude::*;

use std::cmp::Ordering;
use vstd::std_specs::cmp::PartialOrdSpec;

use crate::id::CoroutineId;

verus! {

/// Identities are ordered by their numbers.
impl PartialOrd for CoroutineId {
    fn partial_cmp(&self, other: &CoroutineId) -> (r: Option<Ordering>) {
        if self.0 < other.0 {
            Some(Ordering::Less)
        } else if self.0 > other.0 {
            Some(Ordering::Greater)
        } else {
            Some(Ordering::Equal)
        }
    }
}

impl vstd::std_specs::cmp::PartialOrdSpecImpl for CoroutineId {
    open spec fn obeys_partial_cmp_spec() -> bool {
        true
    }

    open spec fn partial_cmp_spec(&self, other: &CoroutineId) -> Option<Ordering> {
        if self.0 < other.0 {
            Some(Ordering::Less)
        } else if self.0 > other.0 {
            Some(Ordering::Greater)
        } else {
            Some(Ordering::Equal)
        }
    }
}

/// Two identities are equal, or one is less than the other, exactly as
/// their numbers are.
pub proof fn identities_order_as_numbers(a: CoroutineId, b: CoroutineId)
    ensures
        (a == b) == (a.0 == b.0),
        (a.partial_cmp_spec(&b) == Some(Ordering::Less)) == (a.0 < b.0),
        (a.partial_cmp_spec(&b) == Some(Ordering::Greater)) == (a.0 > b.0),
        (a.partial_cmp_spec(&b) == Some(Ordering::Equal)) == (a.0 == b.0),
{
}

} // verus!
