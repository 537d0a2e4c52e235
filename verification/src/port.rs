//! A value that is put to use one call at a time.
//!
//! A [`Port`] hides a value of any type. Nothing is known of that type here, so
//! the value can be used only by a function handed to [`Port::apply`]. That
//! function is `FnOnce`: it is called once, and the port that comes back counts
//! one use more. `call_ensures(Port::apply, (before, f), (after, answer))` is
//! known only where `f` itself was applied, so a chain of ports tells which
//! functions a value went through, in which order, and that there were no others.

use vstd::prelude::*;

verus! {

/// A hidden value and the number of times it was used.
#[verifier::reject_recursive_types(T)]
pub struct Port<T> {
    value: T,
    uses: Ghost<nat>,
}

impl<T> Port<T> {
    /// The hidden value.
    pub closed spec fn value(self) -> T {
        self.value
    }

    /// How often the value was used.
    pub closed spec fn uses(self) -> nat {
        self.uses@
    }

    /// `value`, hidden and not used yet.
    pub closed spec fn unused(value: T) -> Self {
        Port { value, uses: Ghost(0) }
    }

    /// What an unused port holds.
    pub proof fn unused_port_holds_its_value(value: T)
        ensures
            Self::unused(value).value() == value,
            Self::unused(value).uses() == 0,
    {
    }

    /// Hide `value`.
    pub fn new(value: T) -> (port: Self)
        ensures
            port == Self::unused(value),
            port.value() == value,
            port.uses() == 0,
        no_unwind
    {
        Port { value, uses: Ghost(0) }
    }

    /// Use the value: call `f` on it, and return what `f` answers.
    pub fn apply<R, F: FnOnce(&T) -> R>(self, f: F) -> (applied: (Self, R))
        requires
            call_requires(f, (&self.value(),)),
        ensures
            applied.0.value() == self.value(),
            applied.0.uses() == self.uses() + 1,
            call_ensures(f, (&self.value(),), applied.1),
    {
        let answer = f(&self.value);
        (Port { value: self.value, uses: Ghost(self.uses@ + 1) }, answer)
    }

    /// Applying a function calls it on the value, which is one use more.
    pub proof fn applying_is_one_use<R, F: FnOnce(&T) -> R>(
        before: Self,
        f: F,
        after: Self,
        answer: R,
    )
        requires
            call_ensures(Self::apply, (before, f), (after, answer)),
        ensures
            after.value() == before.value(),
            after.uses() == before.uses() + 1,
            call_ensures(f, (&before.value(),), answer),
    {
    }
}

} // verus!
