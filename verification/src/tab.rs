//! The state of one tab, and its mathematical model.

use crate::areas::{AreaMap, Areas};
use crate::geometry::Pos;
use crate::keys::KeyCode;
use crate::popup::PopUpState;
use vstd::prelude::*;

verus! {

/// The state of one tab. `V` is the type of the result that a popup hands to
/// its parent, `O` the type of the observer that a parent can register with
/// a popup.
pub struct TabData<V, O> {
    /// The cell that has the focus.
    pub cursor: Pos,
    /// Whether the focused widget is activated and receives the keys itself.
    pub is_selected: bool,
    /// Where this tab stands in its own life as a popup.
    pub popup_state: PopUpState<V>,
    /// A tab that receives every key in place of this one.
    pub proxy: Option<Box<TabData<V, O>>>,
    /// The child that owns all input and drawing while it lives.
    pub popup: Option<Box<TabData<V, O>>>,
    /// The observer that the parent registered when it opened this tab: it
    /// is called once, with the result that this tab resolves with.
    pub state_modifier: Option<O>,
    /// The areas of the widgets, as of the last pass that drew them.
    pub area_map: AreaMap,
    /// Whether a drawing pass has been completed.
    pub first_pass: bool,
    /// The recent keys, oldest first.
    pub key_history: Vec<KeyCode>,
}

/// The model of a tab: its state as plain mathematical values.
pub struct TabModel<V, O> {
    pub cursor: Pos,
    pub is_selected: bool,
    pub popup_state: PopUpState<V>,
    pub proxy: Option<Box<TabModel<V, O>>>,
    pub popup: Option<Box<TabModel<V, O>>>,
    pub state_modifier: Option<O>,
    pub areas: Areas,
    pub first_pass: bool,
    pub key_history: Seq<KeyCode>,
}

impl<V, O> TabData<V, O> {
    /// The model of this tab, and with it those of its popup and its proxy.
    pub open spec fn model(&self) -> TabModel<V, O>
        decreases self,
    {
        TabModel {
            cursor: self.cursor,
            is_selected: self.is_selected,
            popup_state: self.popup_state,
            proxy: match self.proxy {
                Some(tab) => Some(Box::new(tab.model())),
                None => None,
            },
            popup: match self.popup {
                Some(tab) => Some(Box::new(tab.model())),
                None => None,
            },
            state_modifier: self.state_modifier,
            areas: self.area_map@,
            first_pass: self.first_pass,
            key_history: self.key_history@,
        }
    }
}

impl<V, O> View for TabData<V, O> {
    type V = TabModel<V, O>;

    open spec fn view(&self) -> TabModel<V, O> {
        self.model()
    }
}

impl<V, O> TabModel<V, O> {
    /// A fresh tab: cursor at the origin, nothing selected, running, alone,
    /// without areas or keys.
    pub open spec fn fresh() -> Self {
        TabModel {
            cursor: Pos { x: 0, y: 0 },
            is_selected: false,
            popup_state: PopUpState::Continue,
            proxy: None,
            popup: None,
            state_modifier: None,
            areas: Seq::empty(),
            first_pass: false,
            key_history: Seq::empty(),
        }
    }
}

impl<V, O> TabData<V, O> {
    /// A fresh tab.
    pub fn new() -> (tab: Self)
        ensures
            tab@ == TabModel::<V, O>::fresh(),
    {
        TabData {
            cursor: Pos { x: 0, y: 0 },
            is_selected: false,
            popup_state: PopUpState::Continue,
            proxy: None,
            popup: None,
            state_modifier: None,
            area_map: AreaMap::new(),
            first_pass: false,
            key_history: Vec::new(),
        }
    }

    /// The cell that has the focus.
    pub fn cursor(&self) -> (cursor: Pos)
        ensures
            cursor == self@.cursor,
    {
        self.cursor
    }

    /// Whether the focused widget is activated.
    pub fn selected(&self) -> (selected: bool)
        ensures
            selected == self@.is_selected,
    {
        self.is_selected
    }
}

impl<V, O> Default for TabData<V, O> {
    fn default() -> (tab: Self)
        ensures
            tab@ == TabModel::<V, O>::fresh(),
    {
        TabData::new()
    }
}

} // verus!
