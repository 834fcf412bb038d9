use vstd::prelude::*;
use vstd::std_specs::iter::IteratorSpec;

verus! {

/// Adds to every iterator a way to get its item if it has exactly one.
pub trait SingleIterator: Iterator {
    /// Consumes the iterator. Returns its item if it yields exactly one, and
    /// `None` if it yields none or more than one.
    fn single(self) -> (only: Option<Self::Item>) where Self: Sized
        ensures
            self.obeys_prophetic_iter_laws() ==> only == (if self.remaining().len() == 1 {
                Some(self.remaining()[0])
            } else {
                None
            }),
    {
        let mut rest = self;
        let first = rest.next();
        if rest.next().is_some() {
            None
        } else {
            first
        }
    }
}

impl<T: ?Sized> SingleIterator for T where T: Iterator {
}

} // verus!
