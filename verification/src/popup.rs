//! The lifecycle of a popup, as its parent sees it.

use vstd::prelude::*;

verus! {

/// Where a tab stands in its life as a popup. The tab sets it on itself, and
/// the tab that opened it reads it once per pass.
#[derive(Debug, PartialEq, Eq)]
pub enum PopUpState<V> {
    /// The tab has ended without a result.
    Exit,
    /// The tab is running.
    Continue,
    /// The tab has ended with a result for its parent.
    Resolve(V),
}

impl<V> Default for PopUpState<V> {
    /// A tab starts out running.
    fn default() -> (state: Self)
        ensures
            state == PopUpState::<V>::Continue,
    {
        PopUpState::Continue
    }
}

impl<V> PopUpState<V> {
    /// Whether the tab has ended, with a result or without.
    pub open spec fn spec_is_finished(&self) -> bool {
        !(self is Continue)
    }

    #[verifier::when_used_as_spec(spec_is_finished)]
    pub fn is_finished(&self) -> (finished: bool)
        ensures
            finished == self.spec_is_finished(),
    {
        match self {
            PopUpState::Continue => false,
            _ => true,
        }
    }
}

/// What a finished popup leaves to its parent. `O` is the type of the
/// observer that a parent can register with a popup.
#[derive(Debug, PartialEq, Eq)]
pub enum Finished<V, O> {
    /// The popup has ended without a result.
    Exited,
    /// The popup has ended with `value`. The parent first calls `observer`,
    /// if the popup still had one that was not called, with a reference to
    /// the value, and then hands the value to its own result handler.
    Resolved { value: V, observer: Option<O> },
}

} // verus!
