use paint_toolbar::brush::{BlendingMode, Brush, BrushType, Rgba, CHANNEL_ONE};
use paint_toolbar::buttons::ButtonClick;
use paint_toolbar::mode::{MouseMode, MouseModeVariant, Point, Rect};
use paint_toolbar::palette::PaletteError;
use paint_toolbar::settings::{FreeTransformSettings, ScaleMethod, ShapeType};
use paint_toolbar::toolbar::{ClickOutcome, Toolbar};

type Tb = Toolbar<String, u32>;

const ALL: [MouseModeVariant; 9] = [
    MouseModeVariant::Cursor,
    MouseModeVariant::Pencil,
    MouseModeVariant::Eyedropper,
    MouseModeVariant::RectangleSelect,
    MouseModeVariant::MagicWand,
    MouseModeVariant::Fill,
    MouseModeVariant::FreeTransform,
    MouseModeVariant::Shape,
    MouseModeVariant::Text,
];

fn rgba(r: f32, g: f32, b: f32, a: f32) -> Rgba {
    Rgba::new(r.to_bits(), g.to_bits(), b.to_bits(), a.to_bits())
}

fn red() -> Rgba {
    rgba(1.0, 0.0, 0.0, 1.0)
}

fn green() -> Rgba {
    rgba(0.0, 1.0, 0.0, 1.0)
}

fn blue() -> Rgba {
    rgba(0.0, 0.0, 1.0, 1.0)
}

fn active_buttons(t: &Tb) -> Vec<MouseModeVariant> {
    ALL.iter().copied().filter(|v| t.mode_button_active(*v)).collect()
}

#[test]
fn starts_in_cursor_mode() {
    let t = Tb::new_p();
    assert_eq!(*t.mouse_mode(), MouseMode::Cursor);
    assert_eq!(
        t.last_two_mouse_mode_variants(),
        (MouseModeVariant::Cursor, MouseModeVariant::Cursor)
    );
    assert_eq!(active_buttons(&t), vec![MouseModeVariant::Cursor]);
    assert_eq!(t.mode_toolbar().displayed(), Some(MouseModeVariant::Cursor));
    assert_eq!(t.primary_color(), rgba(0.0, 0.0, 0.0, 1.0));
    assert_eq!(t.secondary_color(), rgba(0.0, 0.0, 0.0, 0.0));
    assert_eq!(t.palette_swatch(0, 1), Some(red()));
    assert_eq!(t.palette_swatch(0, 4), Some(rgba(0.0, 0.0, 0.0, 0.0)));
    assert_eq!(t.palette_swatch(1, 0), None);
}

#[test]
fn clicks_keep_exactly_one_button_active() {
    let mut t = Tb::new_p();
    let clicks = [(1, true), (1, false), (4, true), (8, true), (8, false), (0, true), (3, true)];
    for (index, now_active) in clicks {
        t.click_mode_button(ButtonClick { index, now_active }, None);
        let active = active_buttons(&t);
        assert_eq!(active.len(), 1);
    }
    assert_eq!(active_buttons(&t), vec![MouseModeVariant::RectangleSelect]);
}

#[test]
fn click_switching_off_is_reasserted() {
    let mut t = Tb::new_p();
    let r = t.click_mode_button(ButtonClick { index: 0, now_active: false }, None);
    assert_eq!(r, ClickOutcome::Reasserted);
    assert_eq!(active_buttons(&t), vec![MouseModeVariant::Cursor]);
    assert_eq!(*t.mouse_mode(), MouseMode::Cursor);
}

#[test]
fn click_on_canvas_seeds_selection() {
    let mut t = Tb::new_p();
    let sel = Rect { x: 1, y: 2, width: 3, height: 4 };
    let r = t.click_mode_button(ButtonClick { index: 3, now_active: true }, Some(Some(sel)));
    assert_eq!(
        r,
        ClickOutcome::Committed {
            old_mode: Some(MouseMode::Cursor),
            new_mode: MouseMode::RectangleSelect(Some(sel)),
        }
    );
    let r = t.click_mode_button(ButtonClick { index: 3, now_active: true }, None);
    assert_eq!(
        r,
        ClickOutcome::Committed { old_mode: None, new_mode: MouseMode::RectangleSelect(None) }
    );
    assert_eq!(t.mode_toolbar().displayed(), Some(MouseModeVariant::RectangleSelect));
}

#[test]
fn history_does_not_churn_on_same_variant() {
    let mut t = Tb::new_p();
    assert_eq!(t.set_mouse_mode(MouseMode::Pencil(None)), Some(MouseMode::Cursor));
    let first = t.last_two_mouse_mode_variants();
    assert_eq!(first, (MouseModeVariant::Cursor, MouseModeVariant::Pencil));
    for i in 0..5 {
        assert_eq!(t.set_mouse_mode(MouseMode::Pencil(Some(Point { x: i, y: 0 }))), None);
        assert_eq!(t.last_two_mouse_mode_variants(), first);
    }
}

#[test]
fn history_unchanged_when_variant_already_current() {
    let mut t = Tb::new_p();
    for _ in 0..3 {
        t.set_mouse_mode(MouseMode::Cursor);
        assert_eq!(
            t.last_two_mouse_mode_variants(),
            (MouseModeVariant::Cursor, MouseModeVariant::Cursor)
        );
    }
}

#[test]
fn history_shifts_through_transitions() {
    let mut t = Tb::new_p();
    t.set_mouse_mode(MouseMode::Pencil(None));
    assert_eq!(
        t.last_two_mouse_mode_variants(),
        (MouseModeVariant::Cursor, MouseModeVariant::Pencil)
    );
    t.set_mouse_mode(MouseMode::Eyedropper);
    assert_eq!(
        t.last_two_mouse_mode_variants(),
        (MouseModeVariant::Pencil, MouseModeVariant::Eyedropper)
    );
}

#[test]
fn history_second_slot_follows_clicks() {
    let mut t = Tb::new_p();
    t.click_mode_button(ButtonClick { index: 6, now_active: true }, None);
    t.click_mode_button(ButtonClick { index: 6, now_active: false }, None);
    t.click_mode_button(ButtonClick { index: 5, now_active: true }, None);
    assert_eq!(
        t.last_two_mouse_mode_variants(),
        (MouseModeVariant::FreeTransform, MouseModeVariant::Fill)
    );
}

#[test]
fn colours_pass_through_exactly() {
    let mut t = Tb::new_p();
    let c = rgba(0.3, 0.6, 0.9, 0.5);
    t.set_primary_color(c);
    assert_eq!(t.primary_color(), c);
    assert_eq!(f32::from_bits(t.primary_color().a), 0.5);
    assert_eq!(CHANNEL_ONE, 1.0f32.to_bits());
}

#[test]
fn set_mouse_mode_reports_transitions() {
    let mut t = Tb::new_p();
    assert_eq!(t.set_mouse_mode(MouseMode::Cursor), None);
    let p = MouseMode::Pencil(Some(Point { x: 2, y: 3 }));
    assert_eq!(t.set_mouse_mode(p), Some(MouseMode::Cursor));
    assert_eq!(t.set_mouse_mode(MouseMode::Pencil(None)), None);
    assert_eq!(*t.mouse_mode(), MouseMode::Pencil(None));
    assert_eq!(t.set_mouse_mode(MouseMode::Text(None)), Some(MouseMode::Pencil(None)));
    assert_eq!(active_buttons(&t), vec![MouseModeVariant::Text]);
    assert_eq!(t.mode_toolbar().displayed(), Some(MouseModeVariant::Text));
}

#[test]
fn mouse_mode_mut_changes_payload() {
    let mut t = Tb::new_p();
    t.set_mouse_mode(MouseMode::Shape(None));
    *t.mouse_mode_mut() = MouseMode::Shape(Some(Point { x: 5, y: 6 }));
    assert_eq!(*t.mouse_mode(), MouseMode::Shape(Some(Point { x: 5, y: 6 })));
    assert_eq!(active_buttons(&t), vec![MouseModeVariant::Shape]);
}

#[test]
fn brush_is_recomputed_on_every_read() {
    let mut t = Tb::new_p();
    t.set_primary_color(red());
    t.set_secondary_color(blue());
    t.mode_toolbar_mut().set_pencil_settings(BrushType::Square, BlendingMode::Paint, 3);
    let b = *t.get_primary_brush();
    assert_eq!(b, Brush::new(red(), blue(), BrushType::Square, 3));
    t.set_secondary_color(green());
    let b = *t.get_primary_brush();
    assert_eq!(b, Brush::new(red(), green(), BrushType::Square, 3));
}

#[test]
fn secondary_brush_swaps_colors() {
    let mut t = Tb::new_p();
    t.set_primary_color(red());
    t.set_secondary_color(blue());
    let b = *t.get_secondary_brush();
    assert_eq!(b, Brush::new(blue(), red(), BrushType::Round, 5));
    let m = t.get_primary_brush_mut();
    assert_eq!(*m, Brush::new(red(), blue(), BrushType::Round, 5));
}

#[test]
fn eyedropper_brush_stays_one_pixel_square() {
    let mut t = Tb::new_p();
    t.set_primary_color(red());
    t.set_secondary_color(green());
    t.mode_toolbar_mut().set_pencil_settings(BrushType::Round, BlendingMode::Overwrite, 9);
    t.get_primary_brush();
    let e = *t.get_eyedropper_brush_mut();
    assert_eq!(e.brush_type, BrushType::Square);
    assert_eq!(e.radius, 1);
    assert_eq!(e.primary_color, rgba(0.0, 0.0, 0.0, 1.0));
}

#[test]
fn transformable_is_taken_once() {
    let mut t = Tb::new_p();
    t.set_boxed_transformable("edit".to_string());
    assert_eq!(t.try_take_boxed_transformable(), Some("edit".to_string()));
    assert_eq!(t.try_take_boxed_transformable(), None);
}

#[test]
fn transformable_set_replaces_and_borrows() {
    let mut t = Tb::new_p();
    t.set_boxed_transformable("a".to_string());
    t.set_boxed_transformable("b".to_string());
    if let Some(s) = t.get_boxed_transformable().as_mut() {
        s.push('c');
    }
    assert_eq!(t.try_take_boxed_transformable(), Some("bc".to_string()));
}

#[test]
fn text_dialog_close_hands_back_handle() {
    let mut t = Tb::new_p();
    assert_eq!(t.close_active_text_dialog(), None);
    t.set_active_text_dialog(1);
    t.set_active_text_dialog(2);
    assert_eq!(t.close_active_text_dialog(), Some(2));
    assert_eq!(t.close_active_text_dialog(), None);
}

#[test]
fn palette_rejects_color_when_full() {
    let mut t = Tb::new_p();
    for i in 0..5u32 {
        let grey = rgba(i as f32 / 5.0, i as f32 / 5.0, i as f32 / 5.0, 1.0);
        assert_eq!(t.add_color_to_palette(grey), Ok(()));
        assert_eq!(t.palette_swatch(1, i as usize), Some(grey));
    }
    let before: Vec<Option<Rgba>> =
        (0..2).flat_map(|r| (0..5).map(move |c| (r, c))).map(|(r, c)| t.palette_swatch(r, c)).collect();
    assert_eq!(t.add_color_to_palette(red()), Err(PaletteError::Full));
    let after: Vec<Option<Rgba>> =
        (0..2).flat_map(|r| (0..5).map(move |c| (r, c))).map(|(r, c)| t.palette_swatch(r, c)).collect();
    assert_eq!(before, after);
}

#[test]
fn settings_pass_through() {
    let mut t = Tb::new_p();
    assert_eq!(t.get_magic_wand_tolerance(), 50);
    assert!(t.get_magic_wand_relativity());
    t.mode_toolbar_mut().set_magic_wand_settings(250, false);
    t.mode_toolbar_mut().set_fill_settings(20, false);
    t.mode_toolbar_mut().set_shape_settings(ShapeType::Oval, 4);
    t.mode_toolbar_mut().set_free_transform_settings(FreeTransformSettings {
        clamp_translate: true,
        clamp_scale: false,
        clamp_rotate: true,
        scale_method: ScaleMethod::Bilinear,
    });
    t.mode_toolbar_mut().set_pencil_settings(BrushType::Dither, BlendingMode::Overwrite, 0);
    assert_eq!(t.get_magic_wand_tolerance(), 100);
    assert!(!t.get_magic_wand_relativity());
    assert_eq!(t.get_fill_tolerance(), 20);
    assert!(!t.get_fill_relativity());
    assert_eq!(t.get_shape_type(), ShapeType::Oval);
    assert_eq!(t.get_shape_border_width(), 4);
    assert!(t.get_clamp_translate());
    assert!(!t.get_clamp_scale());
    assert!(t.get_clamp_rotate());
    assert_eq!(t.get_free_transform_scale_method(), ScaleMethod::Bilinear);
    assert_eq!(t.get_blending_mode(), BlendingMode::Overwrite);
    assert_eq!(t.get_primary_brush().radius, 1);
}

#[test]
fn modes_built_per_variant() {
    for (i, v) in ALL.iter().enumerate() {
        assert_eq!(v.index(), i);
        assert_eq!(MouseModeVariant::from_index(i), *v);
        assert_eq!(MouseMode::default_for(*v).variant(), *v);
    }
    let sel = Some(Rect { x: 0, y: 0, width: 2, height: 2 });
    assert_eq!(
        MouseMode::for_canvas(MouseModeVariant::RectangleSelect, sel),
        MouseMode::RectangleSelect(sel)
    );
    assert_eq!(MouseMode::for_canvas(MouseModeVariant::Pencil, sel), MouseMode::Pencil(None));
    assert_eq!(MouseMode::requested(MouseModeVariant::Fill, None), MouseMode::Fill);
}
