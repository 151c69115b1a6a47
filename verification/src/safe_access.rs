//! Indexing that answers `None` where an index is out of range.

use vstd::prelude::*;

verus! {

/// Access to the items of a list that never fails: an index out of range
/// gives `None`. The context names the access for whoever reads a trace; it
/// has no part in the result.
pub trait SafeArrayAccess<T> {
    /// The items of the list, in order.
    spec fn items(&self) -> Seq<T>;

    /// The item at `index`, if there is one.
    fn safe_get(&self, index: usize, context: &str) -> (r: Option<&T>)
        ensures
            index < self.items().len() ==> r == Some(&self.items()[index as int]),
            index >= self.items().len() ==> r is None,
    ;

    /// The first item, if there is one.
    fn safe_first(&self, context: &str) -> (r: Option<&T>)
        ensures
            self.items().len() > 0 ==> r == Some(&self.items()[0]),
            self.items().len() == 0 ==> r is None,
    ;
}

impl<T> SafeArrayAccess<T> for Vec<T> {
    open spec fn items(&self) -> Seq<T> {
        self@
    }

    fn safe_get(&self, index: usize, context: &str) -> (r: Option<&T>) {
        if index < self.len() {
            Some(&self[index])
        } else {
            None
        }
    }

    fn safe_first(&self, context: &str) -> (r: Option<&T>) {
        if self.len() > 0 {
            Some(&self[0])
        } else {
            None
        }
    }
}

} // verus!
