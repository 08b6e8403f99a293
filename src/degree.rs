use vstd::prelude::*;

verus! {

/// Declared degree of one transition constraint: the number of trace columns multiplied
/// together in it. It must bound the true degree of the constraint polynomial from above.
#[derive(Clone, Copy, Debug, PartialEq, Eq, Structural)]
pub struct ConstraintDegree {
    pub base: usize,
}

impl ConstraintDegree {
    /// A degree record for a constraint over trace columns only.
    pub fn new(base: usize) -> (r: ConstraintDegree)
        requires
            base > 0,
        ensures
            r.base == base,
    {
        ConstraintDegree { base }
    }
}

} // verus!
