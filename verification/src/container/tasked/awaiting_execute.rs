//! A side task that is under way.

use vstd::prelude::*;

verus! {

/// A side task that is under way: whether the rows are to be fetched anew
/// once it is done, and the receiver over which it will say that it is.
pub struct AwaitingExecute<X> {
    changes_data: bool,
    reciver: X,
}

impl<X> AwaitingExecute<X> {
    /// Whether the task is expected to change what the rows show.
    pub closed spec fn refreshes(&self) -> bool {
        self.changes_data
    }

    /// The receiver over which the task will say that it is done.
    pub closed spec fn receiver(&self) -> X {
        self.reciver
    }

    pub fn new(changes_data: bool, reciver: X) -> (execute: Self)
        ensures
            execute.refreshes() == changes_data,
            execute.receiver() == reciver,
    {
        AwaitingExecute { changes_data, reciver }
    }

    pub fn changes_data(&self) -> (b: bool)
        ensures
            b == self.refreshes(),
    {
        self.changes_data
    }

    /// The receiver, to look whether the task is done.
    pub fn reciver_mut(&mut self) -> (reciver: &mut X)
        ensures
            *reciver == old(self).receiver(),
            final(self).receiver() == *final(reciver),
            final(self).refreshes() == old(self).refreshes(),
    {
        &mut self.reciver
    }
}

} // verus!
