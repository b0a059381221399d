//! Snapshots: facts about the machine that can be copied without changing
//! what they say.

use vstd::prelude::*;

verus! {

/// A value whose meaning is its deep view, and which can be copied.
pub trait Snapshot: Sized + DeepView {
    /// A copy that says the same as the value it was made from.
    fn duplicate(&self) -> (copy: Self)
        ensures
            copy.deep_view() == self.deep_view(),
    ;
}

impl Snapshot for String {
    fn duplicate(&self) -> (copy: String) {
        self.clone()
    }
}

impl<T: Snapshot> Snapshot for Option<T> {
    fn duplicate(&self) -> (copy: Option<T>) {
        match self {
            Some(value) => Some(value.duplicate()),
            None => None,
        }
    }
}

impl<T: Snapshot> Snapshot for Vec<T> {
    fn duplicate(&self) -> (copy: Vec<T>) {
        let mut copy: Vec<T> = Vec::new();
        let mut i: usize = 0;
        while i < self.len()
            invariant
                0 <= i <= self.len(),
                copy@.len() == i,
                forall|j: int| 0 <= j < i ==> copy@[j].deep_view() == self@[j].deep_view(),
            decreases self.len() - i,
        {
            copy.push(self[i].duplicate());
            i += 1;
        }
        assert(copy.deep_view() =~= self.deep_view());
        copy
    }
}

} // verus!
