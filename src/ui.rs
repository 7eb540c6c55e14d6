use vstd::prelude::*;

use crate::geometry::{Pos, Rect, COORD_LIMIT};
use crate::pointer::{sense, sense_rect, PointerState, Response};
use crate::style::{Color, Stroke, Style};

verus! {

/// A primitive paint command in absolute coordinates.
#[derive(Clone, Debug)]
pub enum Shape {
    /// A rounded rectangle with a fill and an outline.
    Rect { rect: Rect, radius: i64, fill: Color, stroke: Stroke },
    /// A filled, outlined circle.
    Circle { center: Pos, radius: i64, fill: Color, stroke: Stroke },
    /// A line of text, left-aligned at `pos.x` and vertically centered on `pos.y`.
    Text { pos: Pos, text: String, color: Color },
}

/// The context a widget is built in: a vertical layout cursor, the visible
/// clip rectangle, the style, the pointer state of this frame, and the paint
/// commands issued so far.
pub struct Ui {
    pub cursor: Pos,
    pub clip: Rect,
    pub style: Style,
    pub pointer: PointerState,
    pub shapes: Vec<Shape>,
}

/// The rectangle that an allocation of the given size receives at a cursor.
pub open spec fn placed(cursor: Pos, width: int, height: int) -> Rect {
    Rect { left: cursor.x, top: cursor.y, width: width as i64, height: height as i64 }
}

impl Ui {
    pub open spec fn wf(self) -> bool {
        &&& -COORD_LIMIT <= self.cursor.x <= COORD_LIMIT
        &&& -COORD_LIMIT <= self.cursor.y <= COORD_LIMIT
        &&& self.clip.wf()
        &&& self.style.wf()
    }

    /// An allocation of this height still leaves the cursor in bounds.
    pub open spec fn has_room(self, height: int) -> bool {
        self.cursor.y + height + self.style.item_spacing <= COORD_LIMIT
    }

    /// The cursor after an allocation of this height.
    pub open spec fn cursor_after(self, height: int) -> Pos {
        Pos { x: self.cursor.x, y: (self.cursor.y + height + self.style.item_spacing) as i64 }
    }

    /// Starts a container whose first widget goes at `origin`.
    pub fn new(origin: Pos, clip: Rect, style: Style, pointer: PointerState) -> (u: Ui)
        requires
            -COORD_LIMIT <= origin.x <= COORD_LIMIT,
            -COORD_LIMIT <= origin.y <= COORD_LIMIT,
            clip.wf(),
            style.wf(),
        ensures
            u.wf(),
            u.cursor == origin,
            u.clip == clip,
            u.style == style,
            u.pointer == pointer,
            u.shapes@.len() == 0,
    {
        Ui { cursor: origin, clip, style, pointer, shapes: Vec::new() }
    }

    /// Takes the next region of the container, of exactly the given size,
    /// and senses the pointer against it.
    pub fn allocate_exact_size(&mut self, width: i64, height: i64) -> (r: (Rect, Response))
        requires
            old(self).wf(),
            0 <= width <= COORD_LIMIT,
            0 <= height <= COORD_LIMIT,
            old(self).has_room(height as int),
        ensures
            r.0 == placed(old(self).cursor, width as int, height as int),
            r.0.wf(),
            r.1 == sense(r.0, old(self).pointer),
            final(self).wf(),
            final(self).cursor == old(self).cursor_after(height as int),
            final(self).clip == old(self).clip,
            final(self).style == old(self).style,
            final(self).pointer == old(self).pointer,
            final(self).shapes == old(self).shapes,
    {
        let rect = Rect { left: self.cursor.x, top: self.cursor.y, width, height };
        let response = sense_rect(&rect, &self.pointer);
        self.cursor = Pos { x: self.cursor.x, y: self.cursor.y + height + self.style.item_spacing };
        (rect, response)
    }

    /// Whether any part of the rectangle is visible.
    pub fn is_rect_visible(&self, rect: &Rect) -> (r: bool)
        requires
            self.wf(),
            rect.wf(),
        ensures
            r == self.clip.spec_intersects(*rect),
    {
        self.clip.intersects(rect)
    }
}

/// Regions allocated one after another in a container never overlap: each
/// begins at or below the bottom of the one before it.
pub proof fn lemma_allocations_disjoint(u: Ui, w1: int, h1: int, w2: int, h2: int)
    requires
        u.wf(),
        0 <= w1 <= COORD_LIMIT,
        0 <= h1 <= COORD_LIMIT,
        0 <= w2 <= COORD_LIMIT,
        0 <= h2 <= COORD_LIMIT,
        u.has_room(h1),
    ensures
        placed(u.cursor, w1, h1).bottom() <= placed(u.cursor_after(h1), w2, h2).top,
{
}

} // verus!
