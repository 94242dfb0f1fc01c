//! Popups: a tab can open one child tab, which then owns all input and
//! drawing until it finishes. The child can open a child of its own.
//!
//! A popup finishes by itself: it exits, or it resolves with a value. The
//! parent notices at its next poll, takes the value and lets the child go.
//! An observer that the parent registered when it opened the popup is handed
//! out exactly once, to be called with the value.

use crate::popup::{Finished, PopUpState};
use crate::tab::{TabData, TabModel};
use vstd::prelude::*;

verus! {

impl<V, O> TabModel<V, O> {
    /// This tab with `pop` as its popup.
    pub open spec fn with_popup(self, pop: TabModel<V, O>) -> Self {
        TabModel { popup: Some(Box::new(pop)), ..self }
    }

    /// This tab without a popup.
    pub open spec fn without_popup(self) -> Self {
        TabModel { popup: None, ..self }
    }

    /// This tab with `proxy` as its proxy.
    pub open spec fn with_proxy(self, proxy: TabModel<V, O>) -> Self {
        TabModel { proxy: Some(Box::new(proxy)), ..self }
    }

    /// This tab with `observer` registered.
    pub open spec fn observed_by(self, observer: O) -> Self {
        TabModel { state_modifier: Some(observer), ..self }
    }

    /// This tab after it resolved with `value`: the observer is handed out
    /// and gone, the value waits for the parent.
    pub open spec fn resolve(self, value: V) -> Self {
        TabModel { popup_state: PopUpState::Resolve(value), state_modifier: None, ..self }
    }

    /// This tab after it asked to be closed.
    pub open spec fn exit(self) -> Self {
        TabModel { popup_state: PopUpState::Exit, ..self }
    }

    /// Whether this tab has asked to be closed.
    pub open spec fn should_exit(self) -> bool {
        self.popup_state is Exit
    }

    /// Whether there is a popup, and it has finished.
    pub open spec fn popup_finished(self) -> bool {
        match self.popup {
            Some(child) => child.popup_state.spec_is_finished(),
            None => false,
        }
    }

    /// Whether there is a popup, and it is running.
    pub open spec fn popup_running(self) -> bool {
        match self.popup {
            Some(child) => child.popup_state is Continue,
            None => false,
        }
    }

    /// What a poll finds: nothing without a popup or with a running one,
    /// else what the popup left.
    pub open spec fn poll_outcome(self) -> Option<Finished<V, O>> {
        match self.popup {
            Some(child) => match child.popup_state {
                PopUpState::Continue => None,
                PopUpState::Exit => Some(Finished::Exited),
                PopUpState::Resolve(value) => Some(
                    Finished::Resolved { value, observer: child.state_modifier },
                ),
            },
            None => None,
        }
    }

    /// This tab after a poll: a finished popup is gone, and nothing else has
    /// changed.
    pub open spec fn polled(self) -> Self {
        if self.popup_finished() {
            self.without_popup()
        } else {
            self
        }
    }
}

/// A popup that resolves is delivered once. After the child resolved with
/// `value`, the parent's next poll hands out exactly that value and clears
/// the link; the observer is no longer with the child, which handed it out
/// when it resolved; and the poll after that finds nothing and changes
/// nothing.
pub proof fn lemma_resolution_is_delivered_once<V, O>(
    parent: TabModel<V, O>,
    child: TabModel<V, O>,
    value: V,
)
    ensures
        ({
            let linked = parent.with_popup(child.resolve(value));
            &&& linked.poll_outcome() == Some(
                Finished::<V, O>::Resolved { value, observer: None },
            )
            &&& linked.polled() == parent.without_popup()
            &&& linked.polled().popup is None
            &&& linked.polled().poll_outcome() is None
            &&& linked.polled().polled() == linked.polled()
        }),
{
}

/// A popup that exits is let go at the next poll, without a value, and the
/// poll after that finds nothing and changes nothing.
pub proof fn lemma_exit_is_noticed_once<V, O>(parent: TabModel<V, O>, child: TabModel<V, O>)
    ensures
        ({
            let linked = parent.with_popup(child.exit());
            &&& linked.poll_outcome() == Some(Finished::<V, O>::Exited)
            &&& linked.polled() == parent.without_popup()
            &&& linked.polled().poll_outcome() is None
            &&& linked.polled().polled() == linked.polled()
        }),
{
}

/// A poll never finds anything twice: whatever the tab, a second poll right
/// after the first finds nothing and changes nothing.
pub proof fn lemma_poll_drains<V, O>(tab: TabModel<V, O>)
    ensures
        tab.polled().poll_outcome() is None,
        tab.polled().polled() == tab.polled(),
        !tab.polled().popup_finished(),
        tab.poll_outcome() is None <==> !tab.popup_finished(),
        tab.poll_outcome() is None ==> tab.polled() == tab,
{
}

impl<V, O> TabData<V, O> {
    /// Where this tab stands in its own life as a popup.
    pub fn popup_state(&self) -> (state: &PopUpState<V>)
        ensures
            *state == self@.popup_state,
    {
        &self.popup_state
    }

    /// The popup, if there is one.
    pub fn pop_up(&self) -> (child: Option<&TabData<V, O>>)
        ensures
            child is Some <==> self@.popup is Some,
            child matches Some(tab) ==> self@.popup == Some(Box::new(tab@)),
    {
        match &self.popup {
            Some(tab) => Some(&**tab),
            None => None,
        }
    }

    /// The proxy, if there is one.
    pub fn proxy(&self) -> (proxy: Option<&TabData<V, O>>)
        ensures
            proxy is Some <==> self@.proxy is Some,
            proxy matches Some(tab) ==> self@.proxy == Some(Box::new(tab@)),
    {
        match &self.proxy {
            Some(tab) => Some(&**tab),
            None => None,
        }
    }

    /// Where the popup stands, if there is one.
    pub fn get_popup_value(&self) -> (state: Option<&PopUpState<V>>)
        ensures
            state is Some <==> self@.popup is Some,
            state matches Some(s) ==> *s == self@.popup->0.popup_state,
    {
        proof {
            reveal_with_fuel(TabData::model, 2);
        }
        match &self.popup {
            Some(tab) => Some(&tab.popup_state),
            None => None,
        }
    }

    /// Whether this tab has asked to be closed.
    pub fn should_exit(&self) -> (exit: bool)
        ensures
            exit == self@.should_exit(),
    {
        match self.popup_state {
            PopUpState::Exit => true,
            _ => false,
        }
    }

    /// Opens `pop` as the popup of this tab. A tab has one popup at most:
    /// the one before must have been closed.
    pub fn set_popup(&mut self, pop: TabData<V, O>)
        requires
            old(self)@.popup is None,
        ensures
            final(self)@ == old(self)@.with_popup(pop@),
    {
        self.popup = Some(Box::new(pop));
    }

    /// Opens `pop` as the popup of this tab, and registers `f` with it as
    /// the observer of its result.
    pub fn set_popup_with_modifier(&mut self, pop: TabData<V, O>, f: O)
        requires
            old(self)@.popup is None,
        ensures
            final(self)@ == old(self)@.with_popup(pop@.observed_by(f)),
    {
        proof {
            reveal_with_fuel(TabData::model, 2);
        }
        let mut pop = pop;
        pop.state_modifier = Some(f);
        self.popup = Some(Box::new(pop));
    }

    /// Makes `proxy` the proxy of this tab.
    pub fn set_proxy(&mut self, proxy: TabData<V, O>)
        ensures
            final(self)@ == old(self)@.with_proxy(proxy@),
    {
        self.proxy = Some(Box::new(proxy));
    }

    /// Closes the popup, whatever its state.
    pub fn remove_popup(&mut self)
        ensures
            final(self)@ == old(self)@.without_popup(),
    {
        self.popup = None;
    }

    /// Ends this tab with `value` for its parent. The observer that was
    /// registered with this tab is handed out, to be called now with a
    /// reference to the value; it is not handed out again.
    pub fn resolve_tab(&mut self, value: V) -> (observer: Option<O>)
        ensures
            final(self)@ == old(self)@.resolve(value),
            observer == old(self)@.state_modifier,
    {
        let observer = self.state_modifier.take();
        self.popup_state = PopUpState::Resolve(value);
        observer
    }

    /// Ends this tab without a result.
    pub fn exit_tab(&mut self)
        ensures
            final(self)@ == old(self)@.exit(),
    {
        self.popup_state = PopUpState::Exit;
    }

    /// Polls the popup. A running popup, or none, leaves this tab as it is
    /// and gives nothing. A finished popup is let go, and what it left is
    /// handed out: that it exited, or the value that it resolved with,
    /// together with its observer if that has not been handed out before.
    pub fn check_popup_value(&mut self) -> (outcome: Option<Finished<V, O>>)
        ensures
            final(self)@ == old(self)@.polled(),
            outcome == old(self)@.poll_outcome(),
            outcome is None <==> !old(self)@.popup_finished(),
            !final(self)@.popup_finished(),
    {
        proof {
            reveal_with_fuel(TabData::model, 2);
        }
        match self.popup.take() {
            None => None,
            Some(child) => {
                if !child.popup_state.is_finished() {
                    self.popup = Some(child);
                    None
                } else {
                    let child = *child;
                    match child.popup_state {
                        PopUpState::Resolve(value) => Some(
                            Finished::Resolved { value, observer: child.state_modifier },
                        ),
                        _ => Some(Finished::Exited),
                    }
                }
            },
        }
    }
}

} // verus!
