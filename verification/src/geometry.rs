//! Points and rectangles of the terminal grid.

use vstd::prelude::*;

verus! {

/// A cell of the terminal grid: column `x`, row `y`.
#[derive(Debug, Clone, Copy, PartialEq, Eq, Structural)]
pub struct Pos {
    pub x: u16,
    pub y: u16,
}

impl Pos {
    pub fn new(x: u16, y: u16) -> (pos: Self)
        ensures
            pos == (Pos { x, y }),
    {
        Self { x, y }
    }
}

impl Default for Pos {
    /// The origin of the grid.
    fn default() -> (pos: Self)
        ensures
            pos == (Pos { x: 0, y: 0 }),
    {
        Self { x: 0, y: 0 }
    }
}

/// An axis-aligned rectangle of cells: the columns `x .. x + width` and the
/// rows `y .. y + height`.
#[derive(Debug, Clone, Copy, PartialEq, Eq, Structural)]
pub struct Rect {
    pub x: u16,
    pub y: u16,
    pub width: u16,
    pub height: u16,
}

/// The border colour that tells a widget's focus state.
#[derive(Debug, Clone, Copy, PartialEq, Eq, Structural)]
pub enum BorderColor {
    /// The cursor is on the widget and the widget is activated.
    Red,
    /// The cursor is on the widget, which is not activated.
    Black,
    /// The cursor is elsewhere.
    White,
}

/// How a widget is framed: the colour of its border, whether there is room
/// to draw one, and the area left for the widget's content.
#[derive(Debug, Clone, Copy, PartialEq, Eq, Structural)]
pub struct Border {
    pub color: BorderColor,
    pub drawn: bool,
    pub inner: Rect,
}

impl Rect {
    pub fn new(x: u16, y: u16, width: u16, height: u16) -> (rect: Self)
        ensures
            rect == (Rect { x, y, width, height }),
    {
        Self { x, y, width, height }
    }

    /// Half-open containment: the left and top edges belong to the
    /// rectangle, the right and bottom edges do not.
    pub open spec fn spec_contains(self, p: Pos) -> bool {
        &&& self.x <= p.x < self.x + self.width
        &&& self.y <= p.y < self.y + self.height
    }

    #[verifier::when_used_as_spec(spec_contains)]
    pub fn contains(self, p: Pos) -> (inside: bool)
        ensures
            inside == self.spec_contains(p),
    {
        p.x >= self.x && p.x - self.x < self.width && p.y >= self.y && p.y - self.y < self.height
    }

    /// Whether the rectangle has no cell at all.
    pub open spec fn spec_is_empty(self) -> bool {
        self.width == 0 || self.height == 0
    }

    #[verifier::when_used_as_spec(spec_is_empty)]
    pub fn is_empty(self) -> (empty: bool)
        ensures
            empty == self.spec_is_empty(),
    {
        self.width == 0 || self.height == 0
    }

    /// Whether the centre of the rectangle is a cell of the grid.
    pub open spec fn spec_has_center(self) -> bool {
        &&& self.x + self.width / 2 <= u16::MAX
        &&& self.y + self.height / 2 <= u16::MAX
    }

    #[verifier::when_used_as_spec(spec_has_center)]
    pub fn has_center(self) -> (on_grid: bool)
        ensures
            on_grid == self.spec_has_center(),
    {
        self.width / 2 <= u16::MAX - self.x && self.height / 2 <= u16::MAX - self.y
    }

    /// The centre cell, rounded towards the top-left corner.
    pub open spec fn spec_center(self) -> Pos
        recommends
            self.has_center(),
    {
        Pos { x: (self.x + self.width / 2) as u16, y: (self.y + self.height / 2) as u16 }
    }

    #[verifier::when_used_as_spec(spec_center)]
    pub fn center(self) -> (pos: Pos)
        requires
            self.has_center(),
        ensures
            pos == self.spec_center(),
            pos.x == self.x + self.width / 2,
            pos.y == self.y + self.height / 2,
    {
        Pos { x: self.x + self.width / 2, y: self.y + self.height / 2 }
    }

    /// Whether the rectangle is large enough to carry a border of one cell
    /// on each side.
    pub open spec fn spec_has_border(self) -> bool {
        self.width >= 3 && self.height >= 3
    }

    #[verifier::when_used_as_spec(spec_has_border)]
    pub fn has_border(self) -> (bordered: bool)
        ensures
            bordered == self.spec_has_border(),
    {
        self.width >= 3 && self.height >= 3
    }

    /// Whether the content area has its corner on the grid.
    pub open spec fn spec_has_inner(self) -> bool {
        self.spec_has_border() ==> self.x < u16::MAX && self.y < u16::MAX
    }

    #[verifier::when_used_as_spec(spec_has_inner)]
    pub fn has_inner(self) -> (on_grid: bool)
        ensures
            on_grid == self.spec_has_inner(),
    {
        !self.has_border() || (self.x < u16::MAX && self.y < u16::MAX)
    }

    /// The area inside the border: one cell less on each side where the
    /// rectangle carries a border, the whole rectangle where it does not.
    pub open spec fn spec_inner(self) -> Rect {
        if self.spec_has_border() {
            Rect {
                x: (self.x + 1) as u16,
                y: (self.y + 1) as u16,
                width: (self.width - 2) as u16,
                height: (self.height - 2) as u16,
            }
        } else {
            self
        }
    }

    #[verifier::when_used_as_spec(spec_inner)]
    pub fn inner(self) -> (rect: Rect)
        requires
            self.has_inner(),
        ensures
            rect == self.spec_inner(),
            self.spec_has_border() ==> rect.x == self.x + 1 && rect.y == self.y + 1 && rect.width
                == self.width - 2 && rect.height == self.height - 2,
    {
        if self.has_border() {
            Rect { x: self.x + 1, y: self.y + 1, width: self.width - 2, height: self.height - 2 }
        } else {
            self
        }
    }
}

/// A rectangle without width or height contains no cell.
pub proof fn lemma_empty_contains_nothing(area: Rect, p: Pos)
    requires
        area.spec_is_empty(),
    ensures
        !area.spec_contains(p),
{
}

/// A rectangle with at least one cell contains its own centre.
pub proof fn lemma_contains_center(area: Rect)
    requires
        !area.spec_is_empty(),
        area.has_center(),
    ensures
        area.spec_contains(area.spec_center()),
{
}

/// The colour of the border round `area`: red where the cursor is on the
/// area and the widget is activated, black where the cursor is on it and the
/// widget is not, white where the cursor is elsewhere.
pub open spec fn spec_border_color(is_selected: bool, cursor: Pos, area: Rect) -> BorderColor {
    if area.spec_contains(cursor) {
        if is_selected {
            BorderColor::Red
        } else {
            BorderColor::Black
        }
    } else {
        BorderColor::White
    }
}

/// The frame of a widget on `area`.
pub open spec fn spec_titled_border(is_selected: bool, cursor: Pos, area: Rect) -> Border {
    Border {
        color: spec_border_color(is_selected, cursor, area),
        drawn: area.spec_has_border(),
        inner: area.spec_inner(),
    }
}

/// Frames a widget: picks the border colour from the focus state and leaves
/// the content area inside the border. An area under three cells in either
/// direction gets no border and keeps all of its cells.
pub fn titled_border(is_selected: bool, cursor: Pos, area: Rect) -> (border: Border)
    requires
        area.has_inner(),
    ensures
        border == spec_titled_border(is_selected, cursor, area),
{
    let color = if area.contains(cursor) {
        if is_selected {
            BorderColor::Red
        } else {
            BorderColor::Black
        }
    } else {
        BorderColor::White
    };
    Border { color, drawn: area.has_border(), inner: area.inner() }
}

} // verus!
