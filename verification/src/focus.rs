//! Where the focus is, and how it moves.
//!
//! A move probes one cell: the cell next to the current area, across the
//! edge that the direction names, in the cursor's own row or column. If some
//! area contains that cell, the cursor goes there. Nothing else is searched,
//! so an area that does not touch that cell cannot be reached by that move.

use crate::areas::{
    distinct_ids, lemma_covers_iff_first, list_view, spec_covers, spec_first_containing, spec_get,
    spec_rebuild, AreaMap,
};
use crate::geometry::{lemma_contains_center, Pos, Rect};
use crate::keys::Retning;
use crate::tab::{TabData, TabModel};
use vstd::prelude::*;

verus! {

/// Why the focus could not be moved.
#[derive(Debug, Clone, Copy, PartialEq, Eq, Structural)]
pub enum FocusError {
    /// No area is known under the identity.
    UnknownIdentity,
}

/// The cell that a move in direction `dir` probes from `area`: one cell past
/// the right or bottom edge, or one cell before the left or top edge; at the
/// left and top rims of the grid, the rim itself. The row, or the column, is
/// the cursor's. Past the right and bottom rims of the grid there is no cell.
pub open spec fn spec_probe(area: Rect, cursor: Pos, dir: Retning) -> Option<Pos> {
    match dir {
        Retning::Right => if area.x + area.width <= u16::MAX {
            Some(Pos { x: (area.x + area.width) as u16, y: cursor.y })
        } else {
            None
        },
        Retning::Down => if area.y + area.height <= u16::MAX {
            Some(Pos { x: cursor.x, y: (area.y + area.height) as u16 })
        } else {
            None
        },
        Retning::Left => Some(
            Pos { x: if area.x == 0 { 0u16 } else { (area.x - 1) as u16 }, y: cursor.y },
        ),
        Retning::Up => Some(
            Pos { x: cursor.x, y: if area.y == 0 { 0u16 } else { (area.y - 1) as u16 } },
        ),
    }
}

/// The cell that a move in direction `dir` probes from `area`.
pub fn probe(area: Rect, cursor: Pos, dir: Retning) -> (target: Option<Pos>)
    ensures
        target == spec_probe(area, cursor, dir),
{
    match dir {
        Retning::Right => if area.width <= u16::MAX - area.x {
            Some(Pos { x: area.x + area.width, y: cursor.y })
        } else {
            None
        },
        Retning::Down => if area.height <= u16::MAX - area.y {
            Some(Pos { x: cursor.x, y: area.y + area.height })
        } else {
            None
        },
        Retning::Left => Some(Pos { x: if area.x == 0 { 0 } else { area.x - 1 }, y: cursor.y }),
        Retning::Up => Some(Pos { x: cursor.x, y: if area.y == 0 { 0 } else { area.y - 1 } }),
    }
}

impl<V, O> TabModel<V, O> {
    /// This tab with the cursor at `cursor`.
    pub open spec fn with_cursor(self, cursor: Pos) -> Self {
        TabModel { cursor, ..self }
    }

    /// Whether some area contains `pos`.
    pub open spec fn is_valid_pos(self, pos: Pos) -> bool {
        spec_covers(self.areas, pos)
    }

    /// The area that has the focus: the first one, in declaration order,
    /// that contains the cursor.
    pub open spec fn current_area(self) -> Option<Rect> {
        match spec_first_containing(self.areas, self.cursor) {
            Some(i) => Some(self.areas[i].1),
            None => None,
        }
    }

    /// The identity of the widget that has the focus.
    pub open spec fn focused_widget(self) -> Option<Seq<char>> {
        match spec_first_containing(self.areas, self.cursor) {
            Some(i) => Some(self.areas[i].0),
            None => None,
        }
    }

    /// The cell that a move in direction `dir` leads to: the probed cell,
    /// where there is a current area, a probed cell, and an area that
    /// contains it.
    pub open spec fn neighbour(self, dir: Retning) -> Option<Pos> {
        match self.current_area() {
            Some(area) => match spec_probe(area, self.cursor, dir) {
                Some(target) => if self.is_valid_pos(target) {
                    Some(target)
                } else {
                    None
                },
                None => None,
            },
            None => None,
        }
    }

    /// This tab after a move in direction `dir`.
    pub open spec fn navigate(self, dir: Retning) -> Self {
        match self.neighbour(dir) {
            Some(target) => self.with_cursor(target),
            None => self,
        }
    }

    /// Whether the cursor is on one of the areas, or there is no area.
    pub open spec fn is_settled(self) -> bool {
        self.areas.len() == 0 || self.is_valid_pos(self.cursor)
    }

    /// This tab after its cursor was repaired: a cursor that no area
    /// contains goes to the centre of the area declared first.
    pub open spec fn validate(self) -> Self {
        if self.is_settled() {
            self
        } else {
            self.with_cursor(self.areas[0].1.spec_center())
        }
    }

    /// This tab with the focusable set built from `list`.
    pub open spec fn with_areas(self, list: Seq<(String, Rect)>) -> Self {
        TabModel { areas: spec_rebuild(list_view(list)), ..self }
    }
}

/// Repairing the cursor twice leaves it where the first repair put it.
pub proof fn lemma_validate_idempotent<V, O>(tab: TabModel<V, O>)
    ensures
        tab.validate().validate() == tab.validate(),
{
}

/// After a repair the cursor is on an area, provided that the area declared
/// first has a cell at all and a centre on the grid.
pub proof fn lemma_validate_settles<V, O>(tab: TabModel<V, O>)
    requires
        tab.areas.len() > 0,
        !tab.areas[0].1.spec_is_empty(),
        tab.areas[0].1.has_center(),
    ensures
        tab.validate().is_valid_pos(tab.validate().cursor),
{
    if !tab.is_settled() {
        lemma_contains_center(tab.areas[0].1);
    }
}

/// A move changes the cursor only if some area contains the probed cell,
/// and then the cursor is that cell. It changes nothing else.
pub proof fn lemma_navigate_cursor<V, O>(tab: TabModel<V, O>, dir: Retning)
    ensures
        tab.navigate(dir) == tab.with_cursor(tab.navigate(dir).cursor),
        tab.neighbour(dir) is None ==> tab.navigate(dir) == tab,
        tab.navigate(dir).cursor != tab.cursor ==> tab.is_valid_pos(tab.navigate(dir).cursor),
{
}

impl<V, O> TabData<V, O> {
    /// Whether `area` contains `cursor`: the cells of an area are the
    /// columns from `x` up to, not including, `x + width`, and the rows from
    /// `y` up to, not including, `y + height`.
    pub fn isitselected(area: Rect, cursor: Pos) -> (inside: bool)
        ensures
            inside == area.spec_contains(cursor),
            inside == (area.x <= cursor.x < area.x + area.width && area.y <= cursor.y < area.y
                + area.height),
    {
        area.contains(cursor)
    }

    /// Whether `area` contains the cursor.
    pub fn is_selected(&self, area: Rect) -> (inside: bool)
        ensures
            inside == area.spec_contains(self@.cursor),
    {
        Self::isitselected(area, self.cursor)
    }

    /// Whether some area contains `pos`.
    pub fn is_valid_pos(&self, pos: Pos) -> (valid: bool)
        ensures
            valid == self@.is_valid_pos(pos),
    {
        self.area_map.covers(pos)
    }

    /// The area that has the focus, if the cursor is on any.
    pub fn current_area(&self) -> (area: Option<Rect>)
        ensures
            area == self@.current_area(),
            area is Some <==> self@.is_valid_pos(self@.cursor),
    {
        proof {
            lemma_covers_iff_first(self@.areas, self@.cursor);
        }
        match self.area_map.first_containing(self.cursor) {
            Some(i) => Some(self.area_map.rect_at(i)),
            None => None,
        }
    }

    /// The identity of the widget that has the focus, if the cursor is on
    /// any: a key that the tab passes on goes to that widget.
    pub fn focused_widget(&self) -> (id: Option<String>)
        ensures
            id is Some <==> self@.focused_widget() is Some,
            id matches Some(s) ==> self@.focused_widget() == Some(s@),
    {
        match self.area_map.first_containing(self.cursor) {
            Some(i) => Some(self.area_map.id_at(i)),
            None => None,
        }
    }

    /// Whether the widget `id` has the focus: it has an area, and the cursor
    /// is on it.
    pub fn is_focused(&self, id: &str) -> (focused: bool)
        ensures
            focused == match spec_get(self@.areas, id@) {
                Some(area) => area.spec_contains(self@.cursor),
                None => false,
            },
    {
        match self.area_map.get(id) {
            Some(area) => Self::isitselected(area, self.cursor),
            None => false,
        }
    }

    /// The cell that a move in direction `dir` leads to.
    fn neighbour(&self, dir: Retning) -> (target: Option<Pos>)
        ensures
            target == self@.neighbour(dir),
    {
        match self.current_area() {
            Some(area) => match probe(area, self.cursor, dir) {
                Some(target) => if self.is_valid_pos(target) {
                    Some(target)
                } else {
                    None
                },
                None => None,
            },
            None => None,
        }
    }

    /// Moves the focus to the area on the right, if one touches the probed
    /// cell.
    pub fn move_right(&mut self)
        ensures
            final(self)@ == old(self)@.navigate(Retning::Right),
            old(self)@.neighbour(Retning::Right) is None ==> final(self)@ == old(self)@,
    {
        if let Some(target) = self.neighbour(Retning::Right) {
            self.cursor = target;
        }
    }

    /// Moves the focus to the area below, if one touches the probed cell.
    pub fn move_down(&mut self)
        ensures
            final(self)@ == old(self)@.navigate(Retning::Down),
            old(self)@.neighbour(Retning::Down) is None ==> final(self)@ == old(self)@,
    {
        if let Some(target) = self.neighbour(Retning::Down) {
            self.cursor = target;
        }
    }

    /// Moves the focus to the area above, if one touches the probed cell.
    pub fn move_up(&mut self)
        ensures
            final(self)@ == old(self)@.navigate(Retning::Up),
            old(self)@.neighbour(Retning::Up) is None ==> final(self)@ == old(self)@,
    {
        if let Some(target) = self.neighbour(Retning::Up) {
            self.cursor = target;
        }
    }

    /// Moves the focus to the area on the left, if one touches the probed
    /// cell.
    pub fn move_left(&mut self)
        ensures
            final(self)@ == old(self)@.navigate(Retning::Left),
            old(self)@.neighbour(Retning::Left) is None ==> final(self)@ == old(self)@,
    {
        if let Some(target) = self.neighbour(Retning::Left) {
            self.cursor = target;
        }
    }

    /// Moves the focus in direction `direction`. Where the cursor is on no
    /// area, or no area contains the probed cell, nothing changes.
    pub fn navigate(&mut self, direction: Retning)
        ensures
            final(self)@ == old(self)@.navigate(direction),
            old(self)@.neighbour(direction) is None ==> final(self)@ == old(self)@,
    {
        match direction {
            Retning::Up => self.move_up(),
            Retning::Down => self.move_down(),
            Retning::Left => self.move_left(),
            Retning::Right => self.move_right(),
        }
    }

    /// Puts the cursor on the centre of `area`.
    pub fn move_to_area(&mut self, area: Rect)
        requires
            area.has_center(),
        ensures
            final(self)@ == old(self)@.with_cursor(area.spec_center()),
    {
        self.cursor = area.center();
    }

    /// Puts the cursor on the centre of the area of the widget `id`.
    pub fn move_to_id(&mut self, id: &str) -> (moved: Result<(), FocusError>)
        requires
            spec_get(old(self)@.areas, id@) matches Some(area) ==> area.has_center(),
        ensures
            spec_get(old(self)@.areas, id@) matches Some(area) ==> moved is Ok && final(self)@
                == old(self)@.with_cursor(area.spec_center()),
            spec_get(old(self)@.areas, id@) is None ==> moved == Err::<(), FocusError>(
                FocusError::UnknownIdentity,
            ) && final(self)@ == old(self)@,
    {
        match self.area_map.get(id) {
            Some(area) => {
                self.move_to_area(area);
                Ok(())
            },
            None => Err(FocusError::UnknownIdentity),
        }
    }

    /// Repairs the cursor: if no area contains it, it goes to the centre of
    /// the area declared first. Without any area nothing changes.
    pub fn validate_pos(&mut self)
        requires
            !old(self)@.is_settled() ==> old(self)@.areas[0].1.has_center(),
        ensures
            final(self)@ == old(self)@.validate(),
            final(self)@.validate() == final(self)@,
    {
        if self.area_map.is_empty() {
            return ;
        }
        if self.is_valid_pos(self.cursor) {
            return ;
        }
        let first = self.area_map.rect_at(0);
        self.move_to_area(first);
    }

    /// Replaces the focusable set by the declarations in `areas`, taken in
    /// order. Where an identity is declared again, it keeps its place and
    /// takes the later area.
    pub fn set_map(&mut self, areas: &Vec<(String, Rect)>)
        ensures
            final(self)@ == old(self)@.with_areas(areas@),
            distinct_ids(final(self)@.areas),
            distinct_ids(list_view(areas@)) ==> final(self)@.areas == list_view(areas@),
    {
        self.area_map = AreaMap::from_list(areas);
    }
}

} // verus!
