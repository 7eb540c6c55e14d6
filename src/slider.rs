use vstd::prelude::*;

use vstd::arithmetic::div_mod::{
    lemma_div_by_multiple, lemma_div_is_ordered, lemma_div_pos_is_pos, lemma_fundamental_div_mod,
    lemma_mod_pos_bound,
};

use crate::geometry::{resolve_size, Pos, Rect, BASE_LIMIT, COORD_LIMIT, UNITS_LIMIT};
use crate::pointer::{sense, Response};
use crate::style::{visual_state_of, Color, Stroke, WidgetVisuals};
use crate::ui::{placed, Shape, Ui};

verus! {

/// A slider is this many base units wide.
pub const SLIDER_WIDTH_UNITS: i64 = 10;

/// Distance from the slider's left edge to the start of its label.
pub const LABEL_INSET: i64 = 10;

/// The inclusive range a slider maps its width onto. Bounds given in the
/// wrong order are swapped.
#[derive(Clone, Copy, Debug, PartialEq, Eq, Structural)]
pub struct SliderRange {
    pub min: i64,
    pub max: i64,
}

/// Options of a slider: its height (default: the host's base unit) and the
/// label drawn on it (default: empty).
#[derive(Clone, Debug)]
pub struct SliderConfig {
    pub height: Option<i64>,
    pub label: String,
}

pub open spec fn clamp(x: int, lo: int, hi: int) -> int {
    if x < lo {
        lo
    } else if x > hi {
        hi
    } else {
        x
    }
}

pub open spec fn range_lo(r: SliderRange) -> int {
    if r.min <= r.max {
        r.min as int
    } else {
        r.max as int
    }
}

pub open spec fn range_hi(r: SliderRange) -> int {
    if r.min <= r.max {
        r.max as int
    } else {
        r.min as int
    }
}

/// The value that a pointer at horizontal position `x` selects on a slider
/// occupying `rect`: `lo + (x - left) / width * (hi - lo)`, rounded down, with
/// `x` first clamped to the rectangle's horizontal extent.
pub open spec fn value_at(x: int, rect: Rect, lo: int, hi: int) -> int {
    lo + (clamp(x, rect.left as int, rect.right()) - rect.left) * (hi - lo) / (rect.width as int)
}

/// The width of the filled part of a track of width `w` for value `v`: the
/// normalized fraction `(v - lo) / (hi - lo)` of `w`, rounded down, with `v`
/// first clamped to the range. An empty range (`lo == hi`) fills nothing.
pub open spec fn fill_width(v: int, lo: int, hi: int, w: int) -> int {
    if hi <= lo {
        0
    } else {
        (clamp(v, lo, hi) - lo) * w / (hi - lo)
    }
}

pub open spec fn slider_height(c: SliderConfig, base: int) -> int {
    match c.height {
        Some(h) => h as int,
        None => base,
    }
}

/// The region a slider with these options takes in this container.
pub open spec fn slider_rect(u: Ui, c: SliderConfig) -> Rect {
    placed(u.cursor, SLIDER_WIDTH_UNITS * u.style.base_unit, slider_height(c, u.style.base_unit as int))
}

/// A click or a drag with a known pointer position sets the value.
pub open spec fn slider_updates(r: Response) -> bool {
    (r.clicked || r.dragged) && r.pointer is Some
}

/// The slider's value after a frame with this interaction result.
pub open spec fn slider_next(v: i64, range: SliderRange, r: Response) -> i64 {
    if slider_updates(r) {
        value_at(r.pointer->0.x as int, r.rect, range_lo(range), range_hi(range)) as i64
    } else {
        v
    }
}

pub open spec fn spec_no_stroke() -> Stroke {
    Stroke { width: 0, color: Color { r: 0, g: 0, b: 0, a: 0 } }
}

/// What a visible slider paints: the track, the fill from the track's left
/// edge, and the label.
pub open spec fn slider_shapes(
    rect: Rect,
    vis: WidgetVisuals,
    text_color: Color,
    v: int,
    lo: int,
    hi: int,
    label: String,
) -> Seq<Shape> {
    seq![
        Shape::Rect { rect, radius: vis.corner_radius, fill: vis.bg_fill, stroke: vis.bg_stroke },
        Shape::Rect {
            rect: Rect { width: fill_width(v, lo, hi, rect.width as int) as i64, ..rect },
            radius: vis.corner_radius,
            fill: vis.fg_color,
            stroke: spec_no_stroke(),
        },
        Shape::Text {
            pos: Pos { x: (rect.left + LABEL_INSET) as i64, y: (rect.top + rect.height / 2) as i64 },
            text: label,
            color: text_color,
        },
    ]
}

impl SliderConfig {
    pub open spec fn wf(self) -> bool {
        match self.height {
            Some(h) => 0 <= h <= UNITS_LIMIT * BASE_LIMIT,
            None => true,
        }
    }
}

impl Default for SliderConfig {
    fn default() -> (c: SliderConfig)
        ensures
            c.height is None,
            c.label@ == Seq::<char>::empty(),
    {
        SliderConfig { height: None, label: String::new() }
    }
}

/// An offset within `[0, w]` scaled from `w` onto `span` stays within `[0, span]`
/// and maps the two ends onto the two ends.
proof fn lemma_scale(off: int, span: int, w: int)
    requires
        0 <= off <= w,
        0 < w,
        0 <= span,
    ensures
        0 <= off * span / w <= span,
        off == 0 ==> off * span / w == 0,
        off == w ==> off * span / w == span,
{
    assert(0 <= off * span <= span * w) by (nonlinear_arith)
        requires
            0 <= off <= w,
            0 <= span,
    ;
    lemma_div_pos_is_pos(off * span, w);
    lemma_div_is_ordered(off * span, span * w, w);
    lemma_div_by_multiple(span, w);
    if off == w {
        assert(off * span == span * w) by (nonlinear_arith)
            requires
                off == w,
        ;
    }
}

/// The value a pointer at `x` selects on a slider over `rect` with range `[lo, hi]`.
pub fn value_at_pointer(x: i64, rect: &Rect, lo: i64, hi: i64) -> (r: i64)
    requires
        rect.wf(),
        rect.width > 0,
        lo <= hi,
    ensures
        r == value_at(x as int, *rect, lo as int, hi as int),
        lo <= r <= hi,
{
    let right = rect.right_edge();
    let cx = if x < rect.left {
        rect.left
    } else if x > right {
        right
    } else {
        x
    };
    let off: i128 = (cx - rect.left) as i128;
    let span: i128 = hi as i128 - lo as i128;
    proof {
        lemma_scale(off as int, span as int, rect.width as int);
        assert(off * span <= 0x1_0000_0000_0000_0000 * COORD_LIMIT) by (nonlinear_arith)
            requires
                0 <= off <= COORD_LIMIT,
                0 <= span <= 0x1_0000_0000_0000_0000,
        ;
    }
    let q: i128 = off * span / (rect.width as i128);
    (lo as i128 + q) as i64
}

/// The filled width of a track of width `w` showing value `v` of `[lo, hi]`.
pub fn fill_width_of(v: i64, lo: i64, hi: i64, w: i64) -> (r: i64)
    requires
        lo <= hi,
        0 <= w <= COORD_LIMIT,
    ensures
        r == fill_width(v as int, lo as int, hi as int, w as int),
        0 <= r <= w,
{
    if hi <= lo {
        0
    } else {
        let cv = if v < lo {
            lo
        } else if v > hi {
            hi
        } else {
            v
        };
        let off: i128 = cv as i128 - lo as i128;
        let span: i128 = hi as i128 - lo as i128;
        proof {
            lemma_scale(off as int, w as int, span as int);
            assert(off * w <= 0x1_0000_0000_0000_0000 * COORD_LIMIT) by (nonlinear_arith)
                requires
                    0 <= off <= 0x1_0000_0000_0000_0000,
                    0 <= w <= COORD_LIMIT,
            ;
        }
        (off * (w as i128) / span) as i64
    }
}

fn no_stroke() -> (s: Stroke)
    ensures
        s == spec_no_stroke(),
{
    Stroke { width: 0, color: Color { r: 0, g: 0, b: 0, a: 0 } }
}


/// A slider over `value`: takes the next region of the container, sets the
/// value from the pointer on a click or a drag, and paints itself if any part
/// of its region is visible. Painting never affects the value or the result.
pub fn slider_ui(ui: &mut Ui, value: &mut i64, range: SliderRange, config: &SliderConfig) -> (resp:
    Response)
    requires
        old(ui).wf(),
        config.wf(),
        old(ui).has_room(slider_height(*config, old(ui).style.base_unit as int)),
    ensures
        resp.rect == slider_rect(*old(ui), *config),
        *final(value) == slider_next(*old(value), range, sense(resp.rect, old(ui).pointer)),
        resp == (Response {
            changed: slider_updates(sense(resp.rect, old(ui).pointer)),
            ..sense(resp.rect, old(ui).pointer)
        }),
        final(ui).wf(),
        final(ui).cursor == old(ui).cursor_after(resp.rect.height as int),
        final(ui).clip == old(ui).clip,
        final(ui).style == old(ui).style,
        final(ui).pointer == old(ui).pointer,
        old(ui).clip.spec_intersects(resp.rect) ==> final(ui).shapes@ == old(ui).shapes@
            + slider_shapes(
            resp.rect,
            old(ui).style.spec_visuals(visual_state_of(resp)),
            old(ui).style.text_color,
            *final(value) as int,
            range_lo(range),
            range_hi(range),
            config.label,
        ),
        !old(ui).clip.spec_intersects(resp.rect) ==> final(ui).shapes@ == old(ui).shapes@,
{
    let (width, default_height) = resolve_size(SLIDER_WIDTH_UNITS, 1, ui.style.base_unit);
    let height = match config.height {
        Some(h) => h,
        None => default_height,
    };
    let (rect, mut response) = ui.allocate_exact_size(width, height);
    let (lo, hi) = if range.min <= range.max {
        (range.min, range.max)
    } else {
        (range.max, range.min)
    };
    if response.clicked || response.dragged {
        match response.pointer {
            Some(p) => {
                *value = value_at_pointer(p.x, &rect, lo, hi);
                response.changed = true;
            },
            None => {},
        }
    }
    if ui.is_rect_visible(&rect) {
        let vis = ui.style.interact(&response);
        let fill = fill_width_of(*value, lo, hi, rect.width);
        ui.shapes.push(
            Shape::Rect { rect, radius: vis.corner_radius, fill: vis.bg_fill, stroke: vis.bg_stroke },
        );
        ui.shapes.push(
            Shape::Rect {
                rect: Rect { left: rect.left, top: rect.top, width: fill, height: rect.height },
                radius: vis.corner_radius,
                fill: vis.fg_color,
                stroke: no_stroke(),
            },
        );
        ui.shapes.push(
            Shape::Text {
                pos: Pos { x: rect.left + LABEL_INSET, y: rect.top + rect.height / 2 },
                text: config.label.clone(),
                color: ui.style.text_color,
            },
        );
        proof {
            assert(ui.shapes@ =~= old(ui).shapes@ + slider_shapes(
                rect,
                vis,
                ui.style.text_color,
                *value as int,
                lo as int,
                hi as int,
                config.label,
            ));
        }
    }
    response
}


/// Reading the fill back as a fraction of the track gives the value's
/// normalized fraction within one unit of track width: for `v` in `[lo, hi]`,
/// `fill / w <= (v - lo) / (hi - lo) < (fill + 1) / w`, and the fill never
/// leaves the track.
pub proof fn lemma_fill_fraction(v: int, lo: int, hi: int, w: int)
    requires
        lo < hi,
        lo <= v <= hi,
        0 < w,
    ensures
        0 <= fill_width(v, lo, hi, w) <= w,
        fill_width(v, lo, hi, w) * (hi - lo) <= (v - lo) * w,
        (v - lo) * w < (fill_width(v, lo, hi, w) + 1) * (hi - lo),
{
    let n = (v - lo) * w;
    let d = hi - lo;
    let f = fill_width(v, lo, hi, w);
    lemma_scale(v - lo, w, d);
    lemma_fundamental_div_mod(n, d);
    lemma_mod_pos_bound(n, d);
    assert(f == n / d);
    assert(f * d <= n && n < (f + 1) * d) by (nonlinear_arith)
        requires
            n == d * f + n % d,
            0 <= n % d < d,
    ;
}

/// A click or drag with the pointer left of the track sets the lower bound of
/// the range; right of the track, the upper bound.
pub proof fn lemma_pointer_outside_clamps(v: i64, range: SliderRange, r: Response)
    requires
        r.rect.wf(),
        r.rect.has_area(),
        slider_updates(r),
    ensures
        r.pointer->0.x < r.rect.left ==> slider_next(v, range, r) == range_lo(range),
        r.pointer->0.x > r.rect.right() ==> slider_next(v, range, r) == range_hi(range),
{
    let span = range_hi(range) - range_lo(range);
    lemma_scale(0, span, r.rect.width as int);
    lemma_scale(r.rect.width as int, span, r.rect.width as int);
}

/// An empty range (`min == max`) fills nothing and any click or drag sets the
/// value to that bound.
pub proof fn lemma_empty_range(v: i64, range: SliderRange, r: Response, w: int)
    requires
        range.min == range.max,
        r.rect.wf(),
        r.rect.has_area(),
    ensures
        fill_width(v as int, range_lo(range), range_hi(range), w) == 0,
        slider_updates(r) ==> slider_next(v, range, r) == range.min,
{
    let off = clamp(r.pointer->0.x as int, r.rect.left as int, r.rect.right()) - r.rect.left;
    lemma_scale(off, 0, r.rect.width as int);
}

/// A slider of the given range and options, to be shown on a value with
/// [`CustomSlider::ui`].
pub struct CustomSlider {
    pub range: SliderRange,
    pub config: SliderConfig,
}

pub fn custom_slider(range: SliderRange, config: SliderConfig) -> (s: CustomSlider)
    ensures
        s.range == range,
        s.config == config,
{
    CustomSlider { range, config }
}

impl CustomSlider {
    /// Shows the slider on `value`: exactly [`slider_ui`] with this range and
    /// these options.
    pub fn ui(&self, ui: &mut Ui, value: &mut i64) -> (resp: Response)
        requires
            old(ui).wf(),
            self.config.wf(),
            old(ui).has_room(slider_height(self.config, old(ui).style.base_unit as int)),
        ensures
            resp.rect == slider_rect(*old(ui), self.config),
            *final(value) == slider_next(*old(value), self.range, sense(resp.rect, old(ui).pointer)),
            resp == (Response {
                changed: slider_updates(sense(resp.rect, old(ui).pointer)),
                ..sense(resp.rect, old(ui).pointer)
            }),
            final(ui).wf(),
            final(ui).cursor == old(ui).cursor_after(resp.rect.height as int),
            final(ui).clip == old(ui).clip,
            final(ui).style == old(ui).style,
            final(ui).pointer == old(ui).pointer,
            old(ui).clip.spec_intersects(resp.rect) ==> final(ui).shapes@ == old(ui).shapes@
                + slider_shapes(
                resp.rect,
                old(ui).style.spec_visuals(visual_state_of(resp)),
                old(ui).style.text_color,
                *final(value) as int,
                range_lo(self.range),
                range_hi(self.range),
                self.config.label,
            ),
            !old(ui).clip.spec_intersects(resp.rect) ==> final(ui).shapes@ == old(ui).shapes@,
    {
        slider_ui(ui, value, self.range, &self.config)
    }
}

} // verus!
