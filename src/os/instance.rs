//! Building an operating-system instance with its optional features.

use vstd::prelude::*;

verus! {

/// Builder of an operating-system instance: the instance and which optional
/// features it offers.
pub struct OsInstanceBuilder<T> {
    pub instance: T,
    pub keyboard: bool,
}

impl<T> OsInstanceBuilder<T> {
    /// A builder for `instance`, with no optional feature.
    pub fn new(instance: T) -> (r: Self)
        ensures
            r.instance == instance,
            !r.keyboard,
    {
        OsInstanceBuilder { instance, keyboard: false }
    }

    /// Enables the optional keyboard feature.
    pub fn enable_keyboard(self) -> (r: Self)
        ensures
            r.instance == self.instance,
            r.keyboard,
    {
        OsInstanceBuilder { instance: self.instance, keyboard: true }
    }

    pub fn has_keyboard(&self) -> (r: bool)
        ensures
            r == self.keyboard,
    {
        self.keyboard
    }
}

} // verus!
