use vstd::prelude::*;

use crate::geometry::BASE_LIMIT;
use crate::pointer::Response;

verus! {

/// An RGBA color.
#[derive(Clone, Copy, Debug, PartialEq, Eq, Structural)]
pub struct Color {
    pub r: u8,
    pub g: u8,
    pub b: u8,
    pub a: u8,
}

/// An outline: its width and color.
#[derive(Clone, Copy, Debug, PartialEq, Eq, Structural)]
pub struct Stroke {
    pub width: i64,
    pub color: Color,
}

/// The colors and shape parameters of one visual state.
#[derive(Clone, Copy, Debug, PartialEq, Eq, Structural)]
pub struct WidgetVisuals {
    pub bg_fill: Color,
    pub bg_stroke: Stroke,
    /// Accent color: slider fill, toggle thumb.
    pub fg_color: Color,
    pub corner_radius: i64,
}

/// The three visual states a widget can be drawn in.
#[derive(Clone, Copy, Debug, PartialEq, Eq, Structural)]
pub enum VisualState {
    Inactive,
    Hovered,
    Active,
}

/// Host-wide style and spacing configuration.
#[derive(Clone, Copy, Debug, PartialEq, Eq, Structural)]
pub struct Style {
    /// The base interactive unit that widget sizes are multiples of.
    pub base_unit: i64,
    /// Vertical gap between successive widgets of a container.
    pub item_spacing: i64,
    pub text_color: Color,
    pub inactive: WidgetVisuals,
    pub hovered: WidgetVisuals,
    pub active: WidgetVisuals,
}

/// Active while a press that started inside is held, hovered while the
/// pointer is over the region with no button held, inactive otherwise.
pub open spec fn visual_state_of(r: Response) -> VisualState {
    if r.pressed || r.dragged {
        VisualState::Active
    } else if r.hovered {
        VisualState::Hovered
    } else {
        VisualState::Inactive
    }
}

pub fn visual_state(r: &Response) -> (v: VisualState)
    ensures
        v == visual_state_of(*r),
{
    if r.pressed || r.dragged {
        VisualState::Active
    } else if r.hovered {
        VisualState::Hovered
    } else {
        VisualState::Inactive
    }
}

impl Style {
    pub open spec fn wf(self) -> bool {
        &&& 0 <= self.base_unit <= BASE_LIMIT
        &&& 0 <= self.item_spacing <= BASE_LIMIT
    }

    pub open spec fn spec_visuals(self, v: VisualState) -> WidgetVisuals {
        match v {
            VisualState::Inactive => self.inactive,
            VisualState::Hovered => self.hovered,
            VisualState::Active => self.active,
        }
    }

    /// The visuals to paint a widget with, given its interaction result.
    pub fn interact(&self, r: &Response) -> (w: WidgetVisuals)
        ensures
            w == self.spec_visuals(visual_state_of(*r)),
    {
        match visual_state(r) {
            VisualState::Inactive => self.inactive,
            VisualState::Hovered => self.hovered,
            VisualState::Active => self.active,
        }
    }
}

} // verus!
