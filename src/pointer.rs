use vstd::prelude::*;

use crate::geometry::{Pos, Rect};

verus! {

/// How far, on either axis, the pointer may move while pressed before the
/// gesture counts as a drag rather than a click.
pub const CLICK_SLOP: i64 = 6;

/// A raw pointer event, as the host forwards it.
#[derive(Clone, Copy, Debug)]
pub enum PointerEvent {
    Move(Pos),
    Press(Pos),
    Release(Pos),
    Leave,
}

/// What the host knows of the pointer at the start of a frame.
#[derive(Clone, Copy, Debug)]
pub struct PointerState {
    /// Where the pointer is, if it is over the window.
    pub pos: Option<Pos>,
    /// Whether the primary button is held.
    pub down: bool,
    /// Where the current (or last) press started.
    pub origin: Pos,
    /// Whether the current (or last) press has moved past the click slop.
    pub dragging: bool,
    /// Whether the button was released by the latest event.
    pub released: bool,
}

/// The per-frame interaction result of one widget's region.
#[derive(Clone, Copy, Debug)]
pub struct Response {
    pub rect: Rect,
    /// The pointer is over the region and no button is held.
    pub hovered: bool,
    /// A press that started inside the region is being held.
    pub pressed: bool,
    /// A press inside the region was released inside it without a drag.
    pub clicked: bool,
    /// A press that started inside the region has turned into a drag.
    pub dragged: bool,
    /// The widget changed its backing value in this call.
    pub changed: bool,
    /// The pointer position of this frame.
    pub pointer: Option<Pos>,
}

pub open spec fn abs_diff(a: i64, b: i64) -> int {
    if a >= b {
        a - b
    } else {
        b - a
    }
}

/// Two positions are farther apart than the click slop on some axis.
pub open spec fn spec_far(a: Pos, b: Pos) -> bool {
    abs_diff(a.x, b.x) > CLICK_SLOP || abs_diff(a.y, b.y) > CLICK_SLOP
}

/// The pointer state after one event.
pub open spec fn next_pointer(s: PointerState, ev: PointerEvent) -> PointerState {
    match ev {
        PointerEvent::Move(p) => PointerState {
            pos: Some(p),
            dragging: s.dragging || (s.down && spec_far(s.origin, p)),
            released: false,
            ..s
        },
        PointerEvent::Press(p) => PointerState {
            pos: Some(p),
            down: true,
            origin: p,
            dragging: false,
            released: false,
        },
        PointerEvent::Release(p) => PointerState {
            pos: Some(p),
            down: false,
            origin: s.origin,
            dragging: s.dragging || (s.down && spec_far(s.origin, p)),
            released: s.down,
        },
        PointerEvent::Leave => PointerState { pos: None, released: false, ..s },
    }
}

pub open spec fn pointer_inside(rect: Rect, pos: Option<Pos>) -> bool {
    match pos {
        Some(p) => rect.spec_contains(p),
        None => false,
    }
}

/// The interaction result of a region for a pointer state; a region without
/// area senses nothing.
pub open spec fn sense(rect: Rect, s: PointerState) -> Response {
    let live = rect.has_area();
    let pressed = live && s.down && rect.spec_contains(s.origin);
    Response {
        rect,
        hovered: live && !s.down && pointer_inside(rect, s.pos),
        pressed,
        clicked: live && s.released && !s.dragging && rect.spec_contains(s.origin)
            && pointer_inside(rect, s.pos),
        dragged: pressed && s.dragging,
        changed: false,
        pointer: s.pos,
    }
}

pub fn far(a: Pos, b: Pos) -> (r: bool)
    ensures
        r == spec_far(a, b),
{
    let dx: i128 = a.x as i128 - b.x as i128;
    let dy: i128 = a.y as i128 - b.y as i128;
    let slop: i128 = CLICK_SLOP as i128;
    dx > slop || dx < -slop || dy > slop || dy < -slop
}

impl PointerState {
    /// No pointer over the window and no button held.
    pub fn idle() -> (r: PointerState)
        ensures
            r.pos is None,
            !r.down,
            !r.dragging,
            !r.released,
    {
        PointerState { pos: None, down: false, origin: Pos { x: 0, y: 0 }, dragging: false, released: false }
    }

    /// Applies one raw event.
    pub fn apply(&self, ev: PointerEvent) -> (r: PointerState)
        ensures
            r == next_pointer(*self, ev),
    {
        match ev {
            PointerEvent::Move(p) => PointerState {
                pos: Some(p),
                down: self.down,
                origin: self.origin,
                dragging: self.dragging || (self.down && far(self.origin, p)),
                released: false,
            },
            PointerEvent::Press(p) => PointerState {
                pos: Some(p),
                down: true,
                origin: p,
                dragging: false,
                released: false,
            },
            PointerEvent::Release(p) => PointerState {
                pos: Some(p),
                down: false,
                origin: self.origin,
                dragging: self.dragging || (self.down && far(self.origin, p)),
                released: self.down,
            },
            PointerEvent::Leave => PointerState {
                pos: None,
                down: self.down,
                origin: self.origin,
                dragging: self.dragging,
                released: false,
            },
        }
    }
}

fn inside(rect: &Rect, pos: Option<Pos>) -> (r: bool)
    requires
        rect.wf(),
    ensures
        r == pointer_inside(*rect, pos),
{
    match pos {
        Some(p) => rect.contains(p),
        None => false,
    }
}

/// Tests a region against the pointer state of this frame.
pub fn sense_rect(rect: &Rect, s: &PointerState) -> (r: Response)
    requires
        rect.wf(),
    ensures
        r == sense(*rect, *s),
{
    let live = rect.width > 0 && rect.height > 0;
    let pressed = live && s.down && rect.contains(s.origin);
    let over = inside(rect, s.pos);
    Response {
        rect: *rect,
        hovered: live && !s.down && over,
        pressed,
        clicked: live && s.released && !s.dragging && rect.contains(s.origin) && over,
        dragged: pressed && s.dragging,
        changed: false,
        pointer: s.pos,
    }
}

/// A region without area is never hovered, pressed, clicked or dragged,
/// whatever the pointer does.
pub proof fn lemma_empty_region_idle(rect: Rect, s: PointerState)
    requires
        !rect.has_area(),
    ensures
        !sense(rect, s).hovered,
        !sense(rect, s).pressed,
        !sense(rect, s).clicked,
        !sense(rect, s).dragged,
{
}

} // verus!
