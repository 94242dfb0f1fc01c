//! What a tab does with an event.
//!
//! A tab is deselected or selected. Deselected, it owns the keys: the
//! direction keys move the focus, Enter activates the focused widget, Esc
//! asks to close the tab. Selected, the focused widget owns the keys, and
//! only Esc comes back to the tab, to deselect. A key that the tab has no
//! use for is offered to the tab's own handler for its state, which either
//! captures it or passes it on to the focused widget.
//!
//! Enter is the one activation key. Space is a character like any other.
//!
//! A tab with a proxy or a popup decides nothing of this: the event goes to
//! the proxy, or else to the popup. All that the tab does itself is to let a
//! popup go that has finished, before anything is done with the event.

use crate::history::lemma_record_bounded;
use crate::keys::{spec_direction, Event, KeyCode, KeyEvent, Retning};
use crate::popup::Finished;
use crate::tab::{TabData, TabModel};
use vstd::prelude::*;

verus! {

/// What is to be done after a tab has seen an event.
#[derive(Debug, PartialEq, Eq)]
pub enum KeyAction<V, O> {
    /// The event is no key press: nothing to do.
    Ignored,
    /// The event belongs to the proxy.
    Proxy,
    /// The popup had finished: it is gone, and what it left is to be
    /// delivered. The event has not been looked at, and is to be handed to
    /// this tab again.
    Drained(Finished<V, O>),
    /// The event belongs to the popup.
    Popup,
    /// The focused widget is now activated.
    Select,
    /// The focused widget is no longer activated. The key goes no further.
    Deselect,
    /// The tab has asked to be closed.
    Exit,
    /// The focus was moved in this direction, as far as an area was there.
    Navigate(Retning),
    /// The key is offered to the tab's handler for its state, selected or
    /// not. Where the handler passes it on, it goes to the focused widget.
    Offer { selected: bool },
}

impl<V, O> TabModel<V, O> {
    /// This tab with the focused widget activated or not.
    pub open spec fn with_selected(self, is_selected: bool) -> Self {
        TabModel { is_selected, ..self }
    }

    /// Whether this tab decides about its keys itself: it has no proxy and
    /// no popup.
    pub open spec fn owns_input(self) -> bool {
        self.proxy is None && self.popup is None
    }

    /// This tab after it has routed `key` itself.
    pub open spec fn routed(self, key: KeyEvent) -> Self {
        if self.is_selected {
            if key.code == KeyCode::Esc {
                self.with_selected(false)
            } else {
                self
            }
        } else if key.code == KeyCode::Enter {
            self.with_selected(true)
        } else if key.code == KeyCode::Esc {
            self.exit()
        } else {
            match spec_direction(key.code) {
                Some(direction) => self.navigate(direction),
                None => self,
            }
        }
    }

    /// What is to be done after this tab has routed `key` itself.
    pub open spec fn route_action(self, key: KeyEvent) -> KeyAction<V, O> {
        if self.is_selected {
            if key.code == KeyCode::Esc {
                KeyAction::Deselect
            } else {
                KeyAction::Offer { selected: true }
            }
        } else if key.code == KeyCode::Enter {
            KeyAction::Select
        } else if key.code == KeyCode::Esc {
            KeyAction::Exit
        } else {
            match spec_direction(key.code) {
                Some(direction) => KeyAction::Navigate(direction),
                None => KeyAction::Offer { selected: false },
            }
        }
    }

    /// This tab after it has seen `event`.
    pub open spec fn after_event(self, event: Event) -> Self {
        match event {
            Event::Key(key) => if self.proxy is Some {
                self
            } else if self.popup is Some {
                self.polled()
            } else {
                self.record(key.code).routed(key)
            },
            _ => self,
        }
    }

    /// What is to be done after this tab has seen `event`.
    pub open spec fn event_action(self, event: Event) -> KeyAction<V, O> {
        match event {
            Event::Key(key) => if self.proxy is Some {
                KeyAction::Proxy
            } else if self.popup_finished() {
                KeyAction::Drained(self.poll_outcome()->0)
            } else if self.popup is Some {
                KeyAction::Popup
            } else {
                self.route_action(key)
            },
            _ => KeyAction::Ignored,
        }
    }

    /// Whether `event` asks to leave the program: a capital `Q`, to a tab
    /// that is deselected and has no popup.
    pub open spec fn wants_quit(self, event: Event) -> bool {
        &&& !self.is_selected
        &&& self.popup is None
        &&& event matches Event::Key(key)
        &&& key.code == KeyCode::Char('Q')
    }
}

/// While a popup is running, the tab does nothing with a key but send it to
/// the popup, and stays as it is.
pub proof fn lemma_popup_owns_keys<V, O>(tab: TabModel<V, O>, key: KeyEvent)
    requires
        tab.proxy is None,
        tab.popup_running(),
    ensures
        tab.event_action(Event::Key(key)) == KeyAction::<V, O>::Popup,
        tab.after_event(Event::Key(key)) == tab,
{
}

/// A tab that has a proxy or a popup does nothing with an event but, at
/// most, let a finished popup go: it records no key, moves no focus, and
/// selects and closes nothing.
pub proof fn lemma_frozen_without_input<V, O>(tab: TabModel<V, O>, event: Event)
    requires
        !tab.owns_input(),
    ensures
        tab.after_event(event) == tab || tab.after_event(event) == tab.without_popup(),
        ({
            let action = tab.event_action(event);
            action is Ignored || action is Proxy || action is Popup || action is Drained
        }),
{
}

/// A tab that decides about its keys itself records every key, whatever
/// its state and whatever the key.
pub proof fn lemma_every_key_is_recorded<V, O>(tab: TabModel<V, O>, key: KeyEvent)
    requires
        tab.owns_input(),
    ensures
        tab.after_event(Event::Key(key)).key_history == tab.record(key.code).key_history,
        tab.after_event(Event::Key(key)).key_history.last() == key.code,
{
    lemma_record_bounded(tab.key_history, key.code);
}

/// Enter activates, and the Esc after it deactivates and goes no further: it
/// is not offered to any handler.
pub proof fn lemma_select_then_cancel<V, O>(
    tab: TabModel<V, O>,
    enter: KeyEvent,
    esc: KeyEvent,
)
    requires
        tab.owns_input(),
        !tab.is_selected,
        enter.code == KeyCode::Enter,
        esc.code == KeyCode::Esc,
    ensures
        ({
            let selected = tab.after_event(Event::Key(enter));
            let back = selected.after_event(Event::Key(esc));
            &&& tab.event_action(Event::Key(enter)) == KeyAction::<V, O>::Select
            &&& selected.is_selected
            &&& selected.event_action(Event::Key(esc)) == KeyAction::<V, O>::Deselect
            &&& !back.is_selected
            &&& back.popup_state == tab.popup_state
            &&& back.cursor == tab.cursor
        }),
{
}

impl<V, O> TabData<V, O> {
    /// Routes a key that belongs to this tab itself.
    fn route(&mut self, key: KeyEvent) -> (action: KeyAction<V, O>)
        ensures
            final(self)@ == old(self)@.routed(key),
            action == old(self)@.route_action(key),
    {
        if self.is_selected {
            if key.code == KeyCode::Esc {
                self.is_selected = false;
                KeyAction::Deselect
            } else {
                KeyAction::Offer { selected: true }
            }
        } else if key.code == KeyCode::Enter {
            self.is_selected = true;
            KeyAction::Select
        } else if key.code == KeyCode::Esc {
            self.exit_tab();
            KeyAction::Exit
        } else {
            match Retning::try_from(key) {
                Ok(direction) => {
                    self.navigate(direction);
                    KeyAction::Navigate(direction)
                },
                Err(_) => KeyAction::Offer { selected: false },
            }
        }
    }

    /// Hands `event` to this tab.
    ///
    /// Anything but a key press is ignored. A key press goes to the proxy,
    /// if there is one. Else a popup that has finished is let go first, and
    /// what it left is handed out before anything is done with the key. Else
    /// the key goes to the popup, if there is one. Else the tab records the
    /// key and routes it itself.
    pub fn entry_keyhandler(&mut self, event: Event) -> (action: KeyAction<V, O>)
        ensures
            final(self)@ == old(self)@.after_event(event),
            action == old(self)@.event_action(event),
            old(self)@.popup_running() ==> final(self)@ == old(self)@,
            action is Drained ==> final(self)@.popup is None,
    {
        match event {
            Event::Key(key) => {
                if self.proxy.is_some() {
                    return KeyAction::Proxy;
                }
                if self.popup.is_some() {
                    return match self.check_popup_value() {
                        None => KeyAction::Popup,
                        Some(left) => KeyAction::Drained(left),
                    };
                }
                self.insert_key(key.code);
                self.route(key)
            },
            _ => KeyAction::Ignored,
        }
    }

    /// Whether this tab decides about its keys itself.
    pub fn owns_input(&self) -> (owns: bool)
        ensures
            owns == self@.owns_input(),
    {
        self.proxy.is_none() && self.popup.is_none()
    }

    /// Whether `event` asks to leave the program.
    pub fn wants_quit(&self, event: Event) -> (quit: bool)
        ensures
            quit == self@.wants_quit(event),
    {
        if self.is_selected || self.popup.is_some() {
            return false;
        }
        match event {
            Event::Key(key) => key.code == KeyCode::Char('Q'),
            _ => false,
        }
    }
}

} // verus!
