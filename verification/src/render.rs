//! What a tab does in a drawing pass.
//!
//! A pass starts with the popup: one that has finished is let go, one
//! that runs takes the pass over, and only a tab without a popup draws its
//! own widgets. For those it rebuilds its focusable set from the areas of
//! its widgets, repairs the cursor, and frames each widget by its focus
//! state.

use crate::geometry::{spec_titled_border, titled_border, Border, Rect};
use crate::popup::Finished;
use crate::tab::{TabData, TabModel};
use vstd::prelude::*;

verus! {

/// What is to be done in a drawing pass.
#[derive(Debug, PartialEq, Eq)]
pub enum RenderAction<V, O> {
    /// The popup had finished: it is gone, and what it left is to be
    /// delivered. Then the pass starts again.
    Drained(Finished<V, O>),
    /// The pass belongs to the popup.
    Popup,
    /// The tab draws its own widgets.
    Own,
}

impl<V, O> TabModel<V, O> {
    /// What is to be done in a drawing pass of this tab.
    pub open spec fn render_action(self) -> RenderAction<V, O> {
        if self.popup_finished() {
            RenderAction::Drained(self.poll_outcome()->0)
        } else if self.popup is Some {
            RenderAction::Popup
        } else {
            RenderAction::Own
        }
    }

    /// The frames of this tab's own widgets, one for each area of `areas`,
    /// in order; none while a popup is there.
    pub open spec fn frames(self, areas: Seq<Rect>) -> Seq<Border> {
        if self.popup is Some {
            Seq::empty()
        } else {
            Seq::new(
                areas.len(),
                |i: int| spec_titled_border(self.is_selected, self.cursor, areas[i]),
            )
        }
    }

    /// This tab after a drawing pass.
    pub open spec fn rendered(self) -> Self {
        TabModel { first_pass: true, ..self }
    }
}

/// The areas of a list of declarations.
pub open spec fn spec_rects(list: Seq<(String, Rect)>) -> Seq<Rect> {
    list.map_values(|e: (String, Rect)| e.1)
}

/// While a popup is there, the tab draws none of its own widgets: the pass
/// is never its own, it changes nothing as long as the popup runs, and there
/// are no frames.
pub proof fn lemma_popup_owns_drawing<V, O>(tab: TabModel<V, O>, areas: Seq<Rect>)
    requires
        tab.popup is Some,
    ensures
        !(tab.render_action() is Own),
        tab.popup_running() ==> tab.render_action() is Popup && tab.polled() == tab,
        tab.frames(areas).len() == 0,
{
}

/// The pass is the tab's own exactly where it has no popup.
pub proof fn lemma_own_drawing_needs_no_popup<V, O>(tab: TabModel<V, O>)
    ensures
        tab.render_action() is Own <==> tab.popup is None,
{
}

impl<V, O> TabData<V, O> {
    /// Starts a drawing pass: polls the popup and says whose pass it is.
    pub fn entry_render(&mut self) -> (action: RenderAction<V, O>)
        ensures
            final(self)@ == old(self)@.polled(),
            action == old(self)@.render_action(),
            action is Own <==> old(self)@.popup is None,
            old(self)@.popup_running() ==> final(self)@ == old(self)@,
            action is Drained ==> final(self)@.popup is None,
    {
        if self.popup.is_none() {
            return RenderAction::Own;
        }
        match self.check_popup_value() {
            None => RenderAction::Popup,
            Some(left) => RenderAction::Drained(left),
        }
    }

    /// Frames the tab's own widgets: for each area of `areas`, in order, the
    /// border colour that shows its focus state and the content area inside
    /// the border. While a popup is there, there is nothing to frame.
    pub fn render(&self, areas: &Vec<(String, Rect)>) -> (frames: Vec<Border>)
        requires
            self@.popup is None ==> forall|i: int|
                0 <= i < areas@.len() ==> (#[trigger] areas@[i]).1.has_inner(),
        ensures
            frames@ == self@.frames(spec_rects(areas@)),
            self@.popup is Some ==> frames@.len() == 0,
            self@.popup is None ==> frames@.len() == areas@.len(),
    {
        let mut frames: Vec<Border> = Vec::new();
        if self.popup.is_some() {
            assert(frames@ =~= self@.frames(spec_rects(areas@)));
            return frames;
        }
        let mut i: usize = 0;
        while i < areas.len()
            invariant
                i <= areas.len(),
                self@.popup is None,
                forall|j: int| 0 <= j < areas@.len() ==> (#[trigger] areas@[j]).1.has_inner(),
                frames@.len() == i,
                forall|j: int|
                    0 <= j < i ==> frames@[j] == spec_titled_border(
                        self@.is_selected,
                        self@.cursor,
                        areas@[j].1,
                    ),
            decreases areas.len() - i,
        {
            frames.push(titled_border(self.is_selected, self.cursor, areas[i].1));
            i += 1;
        }
        assert(frames@ =~= self@.frames(spec_rects(areas@)));
        frames
    }

    /// Ends a drawing pass.
    pub fn end_render(&mut self)
        ensures
            final(self)@ == old(self)@.rendered(),
    {
        self.first_pass = true;
    }
}

} // verus!
