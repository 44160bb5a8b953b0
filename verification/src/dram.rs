//! Values kept in their own storage slot, for data placed in a separate memory section: the slot
//! starts uninitialised and is written by its initialiser on first use.

use vstd::prelude::*;

verus! {

/// A lazily initialised value held in its own storage slot. The slot is empty until first use,
/// when the initialiser runs once and writes it; every use then sees that value.
pub struct LazyIndirect<T> {
    slot: Option<T>,
}

impl<T> LazyIndirect<T> {
    /// The value in the slot, or None before first use.
    pub closed spec fn value(&self) -> Option<T> {
        self.slot
    }

    /// Creates an empty slot.
    pub fn new() -> (r: Self)
        ensures
            r.value() is None,
    {
        LazyIndirect { slot: None }
    }

    /// Returns the value, running the initialiser and writing its result to the slot on first
    /// use. Once the slot holds a value, the initialiser is not run and the value stays.
    pub fn force<F: FnOnce() -> T>(&mut self, init: F) -> (r: &T)
        requires
            old(self).value() is None ==> call_requires(init, ()),
        ensures
            old(self).value() is Some ==> final(self).value() == old(self).value(),
            old(self).value() is None ==> (final(self).value() matches Some(v) && call_ensures(init, (), v)),
            final(self).value() == Some(*r),
    {
        if self.slot.is_none() {
            let v = init();
            self.slot = Some(v);
        }
        match &self.slot {
            Some(v) => v,
            None => vstd::pervasive::unreached(),
        }
    }

    /// Returns the value, or None before first use.
    pub fn get(&self) -> (r: Option<&T>)
        ensures
            r matches Some(v) ==> self.value() == Some(*v),
            r is None <==> self.value() is None,
    {
        match &self.slot {
            Some(v) => Some(v),
            None => None,
        }
    }
}

} // verus!
