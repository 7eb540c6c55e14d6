use vstd::prelude::*;

use crate::geometry::{resolve_size, Pos, Rect};
use crate::pointer::{next_pointer, sense, spec_far, PointerEvent, PointerState, Response};
use crate::style::{visual_state_of, WidgetVisuals};
use crate::ui::{placed, Shape, Ui};

verus! {

/// A toggle switch is this many base units wide and one unit tall.
pub const TOGGLE_WIDTH_UNITS: i64 = 2;

/// The region a toggle switch takes in this container.
pub open spec fn toggle_rect(u: Ui) -> Rect {
    placed(u.cursor, TOGGLE_WIDTH_UNITS * u.style.base_unit, u.style.base_unit as int)
}

/// A click flips the switch; nothing else does.
pub open spec fn toggle_next(on: bool, r: Response) -> bool {
    if r.clicked {
        !on
    } else {
        on
    }
}

/// What a visible switch paints: a track with fully rounded ends, and a thumb
/// at the left end when off and at the right end when on.
pub open spec fn toggle_shapes(rect: Rect, vis: WidgetVisuals, on: bool) -> Seq<Shape> {
    let radius = rect.height / 2;
    let cx = if on {
        rect.right() - radius
    } else {
        rect.left + radius
    };
    seq![
        Shape::Rect { rect, radius: radius as i64, fill: vis.bg_fill, stroke: vis.bg_stroke },
        Shape::Circle {
            center: Pos { x: cx as i64, y: (rect.top + radius) as i64 },
            radius: (radius * 3 / 4) as i64,
            fill: vis.fg_color,
            stroke: vis.bg_stroke,
        },
    ]
}

/// A toggle switch over `on`: takes the next region of the container, flips
/// the value on a click, and paints itself if any part of its region is
/// visible. Painting never affects the value or the result.
pub fn toggle_ui(ui: &mut Ui, on: &mut bool) -> (resp: Response)
    requires
        old(ui).wf(),
        old(ui).has_room(old(ui).style.base_unit as int),
    ensures
        resp.rect == toggle_rect(*old(ui)),
        *final(on) == toggle_next(*old(on), sense(resp.rect, old(ui).pointer)),
        resp == (Response {
            changed: sense(resp.rect, old(ui).pointer).clicked,
            ..sense(resp.rect, old(ui).pointer)
        }),
        final(ui).wf(),
        final(ui).cursor == old(ui).cursor_after(resp.rect.height as int),
        final(ui).clip == old(ui).clip,
        final(ui).style == old(ui).style,
        final(ui).pointer == old(ui).pointer,
        old(ui).clip.spec_intersects(resp.rect) ==> final(ui).shapes@ == old(ui).shapes@
            + toggle_shapes(resp.rect, old(ui).style.spec_visuals(visual_state_of(resp)), *final(on)),
        !old(ui).clip.spec_intersects(resp.rect) ==> final(ui).shapes@ == old(ui).shapes@,
{
    let (width, height) = resolve_size(TOGGLE_WIDTH_UNITS, 1, ui.style.base_unit);
    let (rect, mut response) = ui.allocate_exact_size(width, height);
    if response.clicked {
        *on = !*on;
        response.changed = true;
    }
    if ui.is_rect_visible(&rect) {
        let vis = ui.style.interact(&response);
        let radius = rect.height / 2;
        let cx = if *on {
            rect.right_edge() - radius
        } else {
            rect.left + radius
        };
        ui.shapes.push(Shape::Rect { rect, radius, fill: vis.bg_fill, stroke: vis.bg_stroke });
        ui.shapes.push(
            Shape::Circle {
                center: Pos { x: cx, y: rect.top + radius },
                radius: radius * 3 / 4,
                fill: vis.fg_color,
                stroke: vis.bg_stroke,
            },
        );
        proof {
            assert(ui.shapes@ =~= old(ui).shapes@ + toggle_shapes(rect, vis, *on));
        }
    }
    response
}

/// Pressing inside a switch and releasing inside it without moving past the
/// click slop flips it exactly once: the press frame does not flip it, the
/// release frame does.
pub proof fn lemma_click_flips_once(rect: Rect, s0: PointerState, p1: Pos, p2: Pos, on: bool)
    requires
        rect.wf(),
        rect.has_area(),
        rect.spec_contains(p1),
        rect.spec_contains(p2),
        !spec_far(p1, p2),
    ensures
        ({
            let s1 = next_pointer(s0, PointerEvent::Press(p1));
            let s2 = next_pointer(s1, PointerEvent::Release(p2));
            &&& !sense(rect, s1).clicked
            &&& sense(rect, s2).clicked
            &&& toggle_next(toggle_next(on, sense(rect, s1)), sense(rect, s2)) == !on
        }),
{
}

/// Pressing inside a switch, dragging out of it and releasing outside it
/// never flips it, in any of the three frames.
pub proof fn lemma_drag_out_keeps(
    rect: Rect,
    s0: PointerState,
    p1: Pos,
    p2: Pos,
    p3: Pos,
    on: bool,
)
    requires
        rect.wf(),
        rect.spec_contains(p1),
        !rect.spec_contains(p2),
        !rect.spec_contains(p3),
    ensures
        ({
            let s1 = next_pointer(s0, PointerEvent::Press(p1));
            let s2 = next_pointer(s1, PointerEvent::Move(p2));
            let s3 = next_pointer(s2, PointerEvent::Release(p3));
            &&& !sense(rect, s1).clicked
            &&& !sense(rect, s2).clicked
            &&& !sense(rect, s3).clicked
            &&& toggle_next(toggle_next(toggle_next(on, sense(rect, s1)), sense(rect, s2)), sense(rect, s3)) == on
        }),
{
}

} // verus!
