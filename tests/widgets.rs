use custom_widgets::geometry::{resolve_size, Pos, Rect};
use custom_widgets::pointer::{far, sense_rect, PointerEvent, PointerState};
use custom_widgets::slider::{
    custom_slider, fill_width_of, slider_ui, value_at_pointer, SliderConfig, SliderRange,
};
use custom_widgets::style::{visual_state, Color, Stroke, Style, VisualState, WidgetVisuals};
use custom_widgets::toggle::toggle_ui;
use custom_widgets::ui::{Shape, Ui};

fn visuals(gray: u8) -> WidgetVisuals {
    WidgetVisuals {
        bg_fill: Color { r: gray, g: gray, b: gray, a: 255 },
        bg_stroke: Stroke { width: 2, color: Color { r: 0, g: 0, b: 0, a: 255 } },
        fg_color: Color { r: 255, g: 79, b: 110, a: 255 },
        corner_radius: 2,
    }
}

fn style(base_unit: i64) -> Style {
    Style {
        base_unit,
        item_spacing: 4,
        text_color: Color { r: 0, g: 0, b: 0, a: 255 },
        inactive: visuals(163),
        hovered: visuals(170),
        active: visuals(183),
    }
}

fn screen() -> Rect {
    Rect { left: 0, top: 0, width: 640, height: 360 }
}

fn pointer_after(events: &[PointerEvent]) -> PointerState {
    let mut s = PointerState::idle();
    for ev in events {
        s = s.apply(*ev);
    }
    s
}

fn ui_with(events: &[PointerEvent]) -> Ui {
    Ui::new(Pos { x: 0, y: 0 }, screen(), style(10), pointer_after(events))
}

fn unit_range() -> SliderRange {
    SliderRange { min: 0, max: 1000 }
}

#[test]
fn drag_to_thirty_percent_sets_value() {
    let mut ui = ui_with(&[
        PointerEvent::Press(Pos { x: 50, y: 5 }),
        PointerEvent::Move(Pos { x: 30, y: 5 }),
    ]);
    let mut value: i64 = 500;
    let resp = slider_ui(&mut ui, &mut value, unit_range(), &SliderConfig::default());
    assert_eq!(resp.rect, Rect { left: 0, top: 0, width: 100, height: 10 });
    assert!(resp.dragged);
    assert!(resp.changed);
    assert_eq!(value, 300);
    assert_eq!(ui.shapes.len(), 3);
    match &ui.shapes[1] {
        Shape::Rect { rect, fill, .. } => {
            assert_eq!(rect.width, 30);
            assert_eq!(*fill, Color { r: 255, g: 79, b: 110, a: 255 });
        }
        _ => panic!("second shape is not the fill"),
    }
}

#[test]
fn fill_reads_back_the_fraction() {
    assert_eq!(fill_width_of(300, 0, 1000, 100), 30);
    assert_eq!(fill_width_of(1000, 0, 1000, 100), 100);
    assert_eq!(fill_width_of(0, 0, 1000, 100), 0);
    // 1/3 of 10 rounds down to 3
    assert_eq!(fill_width_of(1, 0, 3, 10), 3);
    assert_eq!(fill_width_of(-20, -40, 40, 80), 20);
    // a value outside the range fills as its nearest bound
    assert_eq!(fill_width_of(5000, 0, 1000, 100), 100);
    assert_eq!(fill_width_of(-5, 0, 1000, 100), 0);
}

#[test]
fn pointer_left_or_right_of_track_clamps() {
    let rect = Rect { left: 20, top: 0, width: 100, height: 10 };
    assert_eq!(value_at_pointer(-300, &rect, 0, 1000), 0);
    assert_eq!(value_at_pointer(19, &rect, 0, 1000), 0);
    assert_eq!(value_at_pointer(121, &rect, 0, 1000), 1000);
    assert_eq!(value_at_pointer(i64::MAX, &rect, 0, 1000), 1000);
    assert_eq!(value_at_pointer(70, &rect, 0, 1000), 500);
    assert_eq!(value_at_pointer(70, &rect, i64::MIN, i64::MAX), -1);
}

#[test]
fn drag_outside_track_sets_bounds() {
    let mut ui = ui_with(&[
        PointerEvent::Press(Pos { x: 50, y: 5 }),
        PointerEvent::Move(Pos { x: -40, y: 30 }),
    ]);
    let mut value: i64 = 500;
    let resp = slider_ui(&mut ui, &mut value, unit_range(), &SliderConfig::default());
    assert!(resp.dragged);
    assert_eq!(value, 0);

    let mut ui = ui_with(&[
        PointerEvent::Press(Pos { x: 50, y: 5 }),
        PointerEvent::Move(Pos { x: 400, y: 5 }),
    ]);
    let resp = slider_ui(&mut ui, &mut value, unit_range(), &SliderConfig::default());
    assert!(resp.changed);
    assert_eq!(value, 1000);
}

#[test]
fn click_inside_toggles_once() {
    let press = PointerEvent::Press(Pos { x: 5, y: 5 });
    let release = PointerEvent::Release(Pos { x: 7, y: 4 });
    let mut on = false;
    let mut ui = ui_with(&[press]);
    let resp = toggle_ui(&mut ui, &mut on);
    assert!(!resp.clicked);
    assert!(resp.pressed);
    assert!(!on);
    let mut ui = ui_with(&[press, release]);
    let resp = toggle_ui(&mut ui, &mut on);
    assert!(resp.clicked);
    assert!(resp.changed);
    assert!(on);
}

#[test]
fn drag_out_does_not_toggle() {
    let press = PointerEvent::Press(Pos { x: 5, y: 5 });
    let out = PointerEvent::Move(Pos { x: 100, y: 100 });
    let release = PointerEvent::Release(Pos { x: 100, y: 100 });
    let mut on = true;
    for n in 1..=3 {
        let events = [press, out, release];
        let mut ui = ui_with(&events[..n]);
        let resp = toggle_ui(&mut ui, &mut on);
        assert!(!resp.clicked);
        assert!(!resp.changed);
        assert!(on);
    }
}

#[test]
fn drag_inside_does_not_toggle() {
    let mut on = false;
    let mut ui = ui_with(&[
        PointerEvent::Press(Pos { x: 1, y: 5 }),
        PointerEvent::Move(Pos { x: 15, y: 5 }),
        PointerEvent::Release(Pos { x: 2, y: 5 }),
    ]);
    let resp = toggle_ui(&mut ui, &mut on);
    assert!(!resp.clicked);
    assert!(!on);
}

#[test]
fn hidden_widget_paints_nothing_but_interacts() {
    let pointer = pointer_after(&[
        PointerEvent::Press(Pos { x: 5, y: 5 }),
        PointerEvent::Release(Pos { x: 5, y: 5 }),
    ]);
    let clip = Rect { left: 500, top: 500, width: 10, height: 10 };
    let mut ui = Ui::new(Pos { x: 0, y: 0 }, clip, style(10), pointer);
    let mut on = false;
    let resp = toggle_ui(&mut ui, &mut on);
    assert!(resp.clicked);
    assert!(on);
    assert_eq!(ui.shapes.len(), 0);
    let mut value: i64 = 10;
    let resp = slider_ui(&mut ui, &mut value, unit_range(), &SliderConfig::default());
    assert_eq!(resp.rect.top, 14);
    assert_eq!(ui.shapes.len(), 0);
}

#[test]
fn visible_toggle_paints_track_and_thumb() {
    let mut ui = ui_with(&[]);
    let mut on = true;
    toggle_ui(&mut ui, &mut on);
    assert_eq!(ui.shapes.len(), 2);
    match &ui.shapes[1] {
        Shape::Circle { center, radius, .. } => {
            assert_eq!(*center, Pos { x: 15, y: 5 });
            assert_eq!(*radius, 3);
        }
        _ => panic!("second shape is not the thumb"),
    }
    let mut ui = ui_with(&[]);
    let mut off = false;
    toggle_ui(&mut ui, &mut off);
    match &ui.shapes[1] {
        Shape::Circle { center, .. } => assert_eq!(*center, Pos { x: 5, y: 5 }),
        _ => panic!("second shape is not the thumb"),
    }
}

#[test]
fn empty_range_fills_nothing_and_pins_value() {
    assert_eq!(fill_width_of(7, 7, 7, 100), 0);
    assert_eq!(fill_width_of(9, 7, 7, 100), 0);
    let mut ui = ui_with(&[
        PointerEvent::Press(Pos { x: 50, y: 5 }),
        PointerEvent::Move(Pos { x: 90, y: 5 }),
    ]);
    let mut value: i64 = 3;
    let resp = slider_ui(&mut ui, &mut value, SliderRange { min: 7, max: 7 }, &SliderConfig::default());
    assert!(resp.changed);
    assert_eq!(value, 7);
    match &ui.shapes[1] {
        Shape::Rect { rect, .. } => assert_eq!(rect.width, 0),
        _ => panic!("second shape is not the fill"),
    }
}

#[test]
fn reversed_range_is_swapped() {
    let mut ui = ui_with(&[PointerEvent::Press(Pos { x: 25, y: 5 }), PointerEvent::Release(Pos { x: 25, y: 5 })]);
    let mut value: i64 = 0;
    let resp = slider_ui(&mut ui, &mut value, SliderRange { min: 1000, max: 0 }, &SliderConfig::default());
    assert!(resp.clicked);
    assert_eq!(value, 250);
}

#[test]
fn slider_without_interaction_keeps_value() {
    let mut ui = ui_with(&[PointerEvent::Move(Pos { x: 30, y: 5 })]);
    let mut value: i64 = 640;
    let config = SliderConfig { height: Some(36), label: String::from("Lfo 1") };
    let resp = slider_ui(&mut ui, &mut value, unit_range(), &config);
    assert!(resp.hovered);
    assert!(!resp.changed);
    assert_eq!(value, 640);
    assert_eq!(resp.rect.height, 36);
    assert_eq!(ui.cursor, Pos { x: 0, y: 40 });
    match &ui.shapes[0] {
        Shape::Rect { fill, .. } => assert_eq!(fill.r, 170),
        _ => panic!("first shape is not the track"),
    }
    match &ui.shapes[2] {
        Shape::Text { pos, text, .. } => {
            assert_eq!(*pos, Pos { x: 10, y: 18 });
            assert_eq!(text, "Lfo 1");
        }
        _ => panic!("third shape is not the label"),
    }
}

#[test]
fn custom_slider_shows_like_slider_ui() {
    let slider = custom_slider(unit_range(), SliderConfig { height: None, label: String::from("Speed") });
    let mut ui = ui_with(&[PointerEvent::Press(Pos { x: 80, y: 2 })]);
    let mut value: i64 = 0;
    let resp = slider.ui(&mut ui, &mut value);
    assert!(resp.pressed);
    assert!(!resp.changed);
    assert_eq!(value, 0);
    let mut ui = ui_with(&[PointerEvent::Press(Pos { x: 80, y: 2 }), PointerEvent::Release(Pos { x: 80, y: 2 })]);
    slider.ui(&mut ui, &mut value);
    assert_eq!(value, 800);
}

#[test]
fn successive_widgets_do_not_overlap() {
    let mut ui = ui_with(&[]);
    let mut a: i64 = 0;
    let mut on = false;
    let first = slider_ui(&mut ui, &mut a, unit_range(), &SliderConfig::default());
    let second = toggle_ui(&mut ui, &mut on);
    assert!(first.rect.top + first.rect.height <= second.rect.top);
    assert_eq!(second.rect, Rect { left: 0, top: 14, width: 20, height: 10 });
}

#[test]
fn zero_size_region_senses_nothing() {
    let mut ui = Ui::new(
        Pos { x: 0, y: 0 },
        screen(),
        style(0),
        pointer_after(&[PointerEvent::Press(Pos { x: 0, y: 0 }), PointerEvent::Release(Pos { x: 0, y: 0 })]),
    );
    let mut on = false;
    let resp = toggle_ui(&mut ui, &mut on);
    assert_eq!(resp.rect.width, 0);
    assert!(!resp.clicked);
    assert!(!on);
}

#[test]
fn visual_state_follows_interaction() {
    let rect = Rect { left: 0, top: 0, width: 10, height: 10 };
    let hover = sense_rect(&rect, &pointer_after(&[PointerEvent::Move(Pos { x: 5, y: 5 })]));
    assert_eq!(visual_state(&hover), VisualState::Hovered);
    let press = sense_rect(&rect, &pointer_after(&[PointerEvent::Press(Pos { x: 5, y: 5 })]));
    assert_eq!(visual_state(&press), VisualState::Active);
    let away = sense_rect(&rect, &pointer_after(&[PointerEvent::Move(Pos { x: 50, y: 5 })]));
    assert_eq!(visual_state(&away), VisualState::Inactive);
    let left = sense_rect(&rect, &pointer_after(&[PointerEvent::Move(Pos { x: 5, y: 5 }), PointerEvent::Leave]));
    assert_eq!(visual_state(&left), VisualState::Inactive);
    assert_eq!(style(10).interact(&press).bg_fill.r, 183);
}

#[test]
fn size_requests_scale_by_base_unit() {
    assert_eq!(resolve_size(10, 1, 18), (180, 18));
    assert_eq!(resolve_size(0, 2, 18), (0, 36));
}

#[test]
fn click_slop_measured_per_axis() {
    let a = Pos { x: 0, y: 0 };
    assert!(!far(a, Pos { x: 6, y: -6 }));
    assert!(far(a, Pos { x: 7, y: 0 }));
    assert!(far(a, Pos { x: 0, y: -7 }));
    assert!(far(Pos { x: i64::MIN, y: 0 }, Pos { x: i64::MAX, y: 0 }));
}

#[test]
fn rect_hit_tests_are_inclusive() {
    let r = Rect { left: 0, top: 0, width: 10, height: 10 };
    assert!(r.contains(Pos { x: 10, y: 10 }));
    assert!(!r.contains(Pos { x: 11, y: 0 }));
    assert!(r.intersects(&Rect { left: 10, top: 10, width: 5, height: 5 }));
    assert!(!r.intersects(&Rect { left: 11, top: 0, width: 5, height: 5 }));
}
