use vstd::prelude::*;

verus! {

/// A container that hands its items out one at a time.
///
/// The model of every implementor is the sequence of its items in the order
/// in which `pop` would return them: index 0 is the item that leaves next.
pub trait LinearData<T> {
    /// The items held, in the order in which `pop` returns them.
    spec fn items(&self) -> Seq<T>;

    /// Adds an item. Where it lands is up to the implementor; the items
    /// already held keep their relative order.
    fn push(&mut self, item: T)
        ensures
            exists|k: int|
                0 <= k <= old(self).items().len()
                    && final(self).items() == old(self).items().insert(k, item),
    ;

    /// Removes and returns the item that is next in line, if there is one.
    fn pop(&mut self) -> (removed: Option<T>)
        ensures
            old(self).items().len() == 0 ==> removed.is_none()
                && final(self).items() == old(self).items(),
            old(self).items().len() > 0 ==> removed == Some(old(self).items()[0])
                && final(self).items() == old(self).items().skip(1),
    ;

    /// Returns a reference to the item that `pop` would return, leaving the
    /// sequence of items as it is.
    fn peek(&mut self) -> (next: Option<&T>)
        ensures
            final(self).items() == old(self).items(),
            old(self).items().len() == 0 ==> next.is_none(),
            old(self).items().len() > 0 ==> next == Some(&old(self).items()[0]),
    ;

    /// Tells whether no item is held.
    fn is_empty(&self) -> (empty: bool)
        ensures
            empty == (self.items().len() == 0),
    ;
}

} // verus!
