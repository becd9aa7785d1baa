//! The per-invocation visited set that guards the recursive scorer.

use vstd::prelude::*;

use crate::geometry::Coordinate;

verus! {

/// A mutable set of coordinates, scoped to a single selection call.  It
/// guards the scoring recursion against unbounded re-entry onto the same
/// cell; it is never shared across turns.
pub struct VisitedSet {
    cells: Vec<Coordinate>,
}

impl View for VisitedSet {
    type V = Set<Coordinate>;

    closed spec fn view(&self) -> Set<Coordinate> {
        Set::new(|c: Coordinate| self.cells@.contains(c))
    }
}

impl VisitedSet {
    /// A fresh, empty set.
    pub fn new() -> (r: VisitedSet)
        ensures
            r@ == Set::<Coordinate>::empty(),
    {
        let r = VisitedSet { cells: Vec::new() };
        proof {
            assert(r@ =~= Set::<Coordinate>::empty());
        }
        r
    }

    /// Whether `c` has been visited.
    pub fn contains(&self, c: Coordinate) -> (r: bool)
        ensures
            r == self@.contains(c),
    {
        let n = self.cells.len();
        let mut i: usize = 0;
        while i < n
            invariant
                n == self.cells@.len(),
                0 <= i <= n,
                forall|j: int| 0 <= j < i ==> self.cells@[j] != c,
            decreases n - i,
        {
            if self.cells[i] == c {
                return true;
            }
            i += 1;
        }
        proof {
            assert(!self.cells@.contains(c));
        }
        false
    }

    /// Mark `c` visited.  Marking an already visited coordinate leaves the
    /// set unchanged.
    pub fn insert(&mut self, c: Coordinate)
        ensures
            final(self)@ == old(self)@.insert(c),
    {
        let present = self.contains(c);
        if !present {
            self.cells.push(c);
            proof {
                assert forall|x: Coordinate| self.cells@.contains(x) implies old(
                    self,
                ).cells@.contains(x) || x == c by {
                    let i = choose|i: int| 0 <= i < self.cells@.len() && self.cells@[i] == x;
                    if i < old(self).cells@.len() {
                        assert(old(self).cells@[i] == x);
                    }
                }
                assert forall|x: Coordinate|
                    old(self).cells@.contains(x) || x == c implies self.cells@.contains(x) by {
                    if old(self).cells@.contains(x) {
                        let i = choose|i: int|
                            0 <= i < old(self).cells@.len() && old(self).cells@[i] == x;
                        assert(self.cells@[i] == x);
                    } else {
                        assert(self.cells@[old(self).cells@.len() as int] == c);
                    }
                }
                assert(self@ =~= old(self)@.insert(c));
            }
        } else {
            proof {
                assert(self@ =~= old(self)@.insert(c));
            }
        }
    }
}

} // verus!
