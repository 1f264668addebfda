//! A write-once slot: empty at first, filled at most once, never changed after.

use vstd::prelude::*;

verus! {

/// A slot that holds nothing or one value. The only way to change it is
/// [`Slot::set`], which fills an empty slot and leaves a filled one alone, so a
/// value that was published stays for as long as the slot lives.
pub struct Slot<T> {
    value: Option<T>,
}

impl<T> View for Slot<T> {
    type V = Option<T>;

    closed spec fn view(&self) -> Option<T> {
        self.value
    }
}

impl<T> Slot<T> {
    /// An empty slot.
    pub fn new() -> (slot: Self)
        ensures
            slot@ is None,
    {
        Slot { value: None }
    }

    /// Whether a value has been published.
    pub fn is_set(&self) -> (set: bool)
        ensures
            set == (self@ is Some),
    {
        self.value.is_some()
    }

    /// The published value, if there is one.
    pub fn get(&self) -> (value: Option<&T>)
        ensures
            match value {
                Some(held) => self@ == Some(*held),
                None => self@ is None,
            },
    {
        self.value.as_ref()
    }

    /// Publishes `value` if the slot is empty. A filled slot keeps what it
    /// holds, and `value` is handed back as the error.
    pub fn set(&mut self, value: T) -> (outcome: Result<(), T>)
        ensures
            old(self)@ is None ==> outcome is Ok && final(self)@ == Some(value),
            old(self)@ is Some ==> outcome == Err::<(), T>(value) && final(self)@ == old(self)@,
    {
        if self.value.is_some() {
            Err(value)
        } else {
            self.value = Some(value);
            Ok(())
        }
    }
}

} // verus!
