//! The compound reference naming the actors an object is addressed to,
//! consumed by this library through its `matches` predicate alone.

use vstd::prelude::*;

use crate::value::str_eq;

verus! {

/// Whether some target in `targets` equals `pattern`.
pub open spec fn matches_in(targets: Seq<Seq<char>>, pattern: Seq<char>) -> bool {
    exists|i: int| 0 <= i < targets.len() && targets[i] == pattern
}

/// A compound reference to one or more addressees, each held as its
/// identifier text.
#[derive(Clone, Debug)]
pub struct CompoundActorReference {
    targets: Vec<String>,
}

impl View for CompoundActorReference {
    type V = Seq<Seq<char>>;

    closed spec fn view(&self) -> Seq<Seq<char>> {
        Seq::new(self.targets@.len(), |i: int| self.targets@[i]@)
    }
}

impl CompoundActorReference {
    /// Wraps the given addressee identifiers, in order.
    pub fn new(targets: Vec<String>) -> (r: CompoundActorReference)
        ensures
            r@.len() == targets@.len(),
            forall|i: int| 0 <= i < targets@.len() ==> r@[i] == targets@[i]@,
    {
        CompoundActorReference { targets }
    }

    /// The addressee identifiers, in order.
    pub fn targets(&self) -> (r: &Vec<String>)
        ensures
            r@.len() == self@.len(),
            forall|i: int| 0 <= i < r@.len() ==> r@[i]@ == self@[i],
    {
        &self.targets
    }

    /// True iff some addressee equals `pattern`.
    pub fn matches(&self, pattern: &str) -> (r: bool)
        ensures
            r == matches_in(self@, pattern@),
    {
        let n = self.targets.len();
        let mut i: usize = 0;
        while i < n
            invariant
                n == self.targets@.len(),
                0 <= i <= n,
                forall|j: int| 0 <= j < i ==> self@[j] != pattern@,
            decreases n - i,
        {
            if str_eq(self.targets[i].as_str(), pattern) {
                assert(self@[i as int] == pattern@);
                return true;
            }
            i += 1;
        }
        false
    }
}

} // verus!
