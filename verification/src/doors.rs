//! The ephemeral, ordered set of door identifiers used by one trial.

use vstd::prelude::*;

verus! {

/// A fixed, small collection of door identifiers.  One trial starts it
/// with the three canonical doors 0, 1, 2, removes a single entry when
/// the host reveals an incorrect, non-chosen door, and discards it.
pub struct DoorSet {
    doors: Vec<i8>,
}

impl View for DoorSet {
    type V = Seq<i8>;

    closed spec fn view(&self) -> Seq<i8> {
        self.doors@
    }
}

impl DoorSet {
    /// The three canonical doors, in their fixed order.
    pub fn new() -> (d: DoorSet)
        ensures
            d@ == seq![0i8, 1i8, 2i8],
    {
        let mut doors: Vec<i8> = Vec::new();
        doors.push(0);
        doors.push(1);
        doors.push(2);
        proof {
            assert(doors@ =~= seq![0i8, 1i8, 2i8]);
        }
        DoorSet { doors }
    }

    /// How many doors remain.
    pub fn len(&self) -> (n: usize)
        ensures
            n == self@.len(),
    {
        self.doors.len()
    }

    /// The door at position `i`.
    pub fn get(&self, i: usize) -> (v: i8)
        requires
            i < self@.len(),
        ensures
            v == self@[i as int],
    {
        self.doors[i]
    }

    /// Remove the door at position `i`, keeping the relative order of
    /// the remaining doors.
    pub fn remove(&mut self, i: usize)
        requires
            i < old(self)@.len(),
        ensures
            final(self)@ == old(self)@.remove(i as int),
    {
        self.doors.remove(i);
    }
}

} // verus!
