//! Which of the top-level tabs is shown.

use crate::keys::{Event, KeyCode};
use vstd::prelude::*;

verus! {

/// The row of top-level tabs: how many there are, and which one is shown.
/// There is always at least one tab, and the one shown is one of them.
pub struct TabBar {
    tab_idx: usize,
    tabs: usize,
}

impl TabBar {
    #[verifier::type_invariant]
    spec fn inv(self) -> bool {
        self.tab_idx < self.tabs
    }

    /// The index of the tab that is shown.
    pub closed spec fn spec_index(&self) -> usize {
        self.tab_idx
    }

    /// The number of tabs.
    pub closed spec fn spec_len(&self) -> usize {
        self.tabs
    }

    /// The index after `event`: Tab goes one tab to the right and stops at
    /// the last, BackTab goes one to the left and stops at the first; any
    /// other event stays.
    pub open spec fn spec_after(&self, event: Event) -> int {
        match event {
            Event::Key(key) => if key.code == KeyCode::Tab {
                if self.spec_index() + 1 < self.spec_len() {
                    self.spec_index() + 1
                } else {
                    self.spec_index() as int
                }
            } else if key.code == KeyCode::BackTab {
                if self.spec_index() > 0 {
                    self.spec_index() - 1
                } else {
                    self.spec_index() as int
                }
            } else {
                self.spec_index() as int
            },
            _ => self.spec_index() as int,
        }
    }

    /// A row of `tabs` tabs that shows the first.
    pub fn new(tabs: usize) -> (bar: Self)
        requires
            tabs > 0,
        ensures
            bar.spec_index() == 0,
            bar.spec_len() == tabs,
    {
        TabBar { tab_idx: 0, tabs }
    }

    #[verifier::when_used_as_spec(spec_index)]
    pub fn index(&self) -> (idx: usize)
        ensures
            idx == self.spec_index(),
            idx < self.spec_len(),
    {
        proof {
            use_type_invariant(self);
        }
        self.tab_idx
    }

    #[verifier::when_used_as_spec(spec_len)]
    pub fn len(&self) -> (tabs: usize)
        ensures
            tabs == self.spec_len(),
            tabs > 0,
    {
        proof {
            use_type_invariant(self);
        }
        self.tabs
    }

    /// Shows the next tab to the right, if there is one.
    pub fn go_right(&mut self)
        ensures
            final(self).spec_len() == old(self).spec_len(),
            final(self).spec_index() == if old(self).spec_index() + 1 < old(self).spec_len() {
                old(self).spec_index() + 1
            } else {
                old(self).spec_index() as int
            },
    {
        proof {
            use_type_invariant(&*self);
        }
        if self.tab_idx + 1 < self.tabs {
            self.tab_idx = self.tab_idx + 1;
        }
    }

    /// Shows the next tab to the left, if there is one.
    pub fn go_left(&mut self)
        ensures
            final(self).spec_len() == old(self).spec_len(),
            final(self).spec_index() == if old(self).spec_index() > 0 {
                old(self).spec_index() - 1
            } else {
                old(self).spec_index() as int
            },
    {
        proof {
            use_type_invariant(&*self);
        }
        if self.tab_idx != 0 {
            self.tab_idx = self.tab_idx - 1;
        }
    }

    /// Switches tabs on Tab and BackTab. The event goes on to the tab that
    /// is shown afterwards.
    pub fn handle_key(&mut self, event: Event)
        ensures
            final(self).spec_len() == old(self).spec_len(),
            final(self).spec_index() == old(self).spec_after(event),
            final(self).spec_index() < final(self).spec_len(),
    {
        proof {
            use_type_invariant(&*self);
        }
        match event {
            Event::Key(key) => {
                if key.code == KeyCode::Tab {
                    self.go_right();
                } else if key.code == KeyCode::BackTab {
                    self.go_left();
                }
            },
            _ => {},
        }
    }
}

} // verus!
