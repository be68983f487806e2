use vstd::prelude::*;

use crate::fixed_width::FixedWidth;

verus! {

/// Observer capability: a receiver implements `dispatch` to accept a pushed
/// value together with a borrowed snapshot of the sender's internals. The
/// receiver is the single writer of its own state, so it is taken by `&mut`;
/// the sender's internals are only borrowed for the duration of the call.
pub trait Observer<T: FixedWidth, U> {
    fn dispatch(&mut self, sender_internals: &U, val: T);
}

/// Aggregate sample of a sender: the smallest and the largest reading of a
/// window, carried as the context of a dispatch.
pub struct SensorGroupInner<T: FixedWidth> {
    pub min: T,
    pub max: T,
}

impl<T: FixedWidth> SensorGroupInner<T> {
    /// The largest reading of the window.
    pub fn get_max(&self) -> (r: T)
        ensures
            r == self.max,
    {
        self.max
    }

    /// The smallest reading of the window.
    pub fn get_min(&self) -> (r: T)
        ensures
            r == self.min,
    {
        self.min
    }
}

/// A single raw reading, carried as the context of a dispatch.
pub struct SensorInner<T: FixedWidth> {
    pub val: T,
}

} // verus!
