use vstd::prelude::*;
use crate::brush::{BlendingMode, Brush, BrushType, CHANNEL_ONE, Rgba};
use crate::buttons::{ButtonClick, ModeButtons, after_click, exactly_one_active, only_active};
use crate::mode::{
    MouseMode, MouseModeVariant, NUM_VARIANTS, Rect, canvas_mode, default_mode, mode_variant,
    variant_at, variant_index, lemma_variant_index_bijective,
};
use crate::palette::{PALETTE_SLOTS, Palette, PaletteError, added_to_first_empty, has_empty_slot};
use crate::settings::{
    FreeTransformSettings, MatchSettings, ModeToolbar, PencilSettings, ScaleMethod, ShapeSettings, ShapeType,
};

verus! {

/// The tool the toolbar starts with.
pub open spec fn initial_mode() -> MouseMode {
    MouseMode::Cursor
}

/// The primary colour a toolbar starts with: opaque black.
pub open spec fn default_primary_color() -> Rgba {
    Rgba { r: 0, g: 0, b: 0, a: CHANNEL_ONE }
}

/// The secondary colour a toolbar starts with: transparent.
pub open spec fn default_secondary_color() -> Rgba {
    Rgba { r: 0, g: 0, b: 0, a: 0 }
}

/// The one-pixel brush that highlights the pixel under the eyedropper.
pub open spec fn eyedropper_brush_spec() -> Brush {
    Brush {
        primary_color: default_primary_color(),
        secondary_color: default_secondary_color(),
        brush_type: BrushType::Square,
        radius: 1,
    }
}

/// The brush of the current colours and pencil settings; with `swapped` the two
/// colours change places.
pub open spec fn brush_of(p: Palette, s: ModeToolbar, swapped: bool) -> Brush {
    Brush {
        primary_color: if swapped { p.secondary_spec() } else { p.primary_spec() },
        secondary_color: if swapped { p.primary_spec() } else { p.secondary_spec() },
        brush_type: s.pencil_spec().brush_type,
        radius: s.pencil_spec().radius,
    }
}

/// The mode history once a mode of variant `v` becomes current: it moves on only where
/// its second slot is not already `v`, so re-entering one variant does not churn it.
pub open spec fn next_history(
    h: (MouseModeVariant, MouseModeVariant),
    v: MouseModeVariant,
) -> (MouseModeVariant, MouseModeVariant) {
    if h.1 != v {
        (h.1, v)
    } else {
        h
    }
}

/// The mode history after `n` calls of `set_mouse_mode` with modes of variant `v`,
/// starting from history `h`.
pub open spec fn history_after_repeats(
    h: (MouseModeVariant, MouseModeVariant),
    v: MouseModeVariant,
    n: nat,
) -> (MouseModeVariant, MouseModeVariant)
    decreases n,
{
    if n == 0 {
        h
    } else {
        next_history(history_after_repeats(h, v, (n - 1) as nat), v)
    }
}

/// After a mode of variant `v` becomes current, the second slot of the history is `v`;
/// the history moves on exactly when `v` differs from that slot, and then the slot it
/// held moves first.
pub proof fn lemma_history_shift(h: (MouseModeVariant, MouseModeVariant), v: MouseModeVariant)
    ensures
        next_history(h, v).1 == v,
        h.1 != v ==> next_history(h, v) == (h.1, v),
        h.1 == v ==> next_history(h, v) == h,
{
}

/// Setting modes of one variant again and again leaves the history as the first of
/// those calls left it.
pub proof fn lemma_history_non_churn(h: (MouseModeVariant, MouseModeVariant), v: MouseModeVariant, n: nat)
    requires
        n >= 1,
    ensures
        history_after_repeats(h, v, n) == history_after_repeats(h, v, 1),
    decreases n,
{
    assert(history_after_repeats(h, v, 0) == h);
    if n > 1 {
        lemma_history_non_churn(h, v, (n - 1) as nat);
    }
}

/// A take on a one-slot box: what it hands back, and the slot it leaves.
pub open spec fn take_slot<T>(slot: Option<T>) -> (Option<T>, Option<T>) {
    (slot, None)
}

/// A state put in the slot is handed back by the first take, and a second take finds
/// the slot empty.
pub proof fn lemma_take_once<T>(x: T)
    ensures
        take_slot(Some(x)).0 == Some(x),
        take_slot(take_slot(Some(x)).1).0 is None,
        take_slot(take_slot(Some(x)).1).1 is None,
{
}

/// What `set_mouse_mode` returns: the displaced mode, where the variant changed.
pub open spec fn transition_result(old_mode: MouseMode, new_mode: MouseMode) -> Option<MouseMode> {
    if mode_variant(old_mode) != mode_variant(new_mode) {
        Some(old_mode)
    } else {
        None
    }
}

/// What a click on a mode button led to.
#[derive(Clone, Copy, Debug, PartialEq, Eq, Structural)]
pub enum ClickOutcome {
    /// The click tried to switch off the active button; it is to be switched on again.
    Reasserted,
    /// The mode `new_mode` was committed; `old_mode` is the mode it displaced where the
    /// variant changed.
    Committed { old_mode: Option<MouseMode>, new_mode: MouseMode },
}

/// The toolbar: the current tool, its history, the mode buttons, the palette, the
/// settings panel, the derived brushes, a slot for a tool's own state (`T`) and a
/// handle to an open text dialog (`W`).
pub struct Toolbar<T, W> {
    palette: Palette,
    mouse_mode: MouseMode,
    mouse_mode_buttons: ModeButtons,
    mode_toolbar: ModeToolbar,
    primary_brush: Brush,
    secondary_brush: Brush,
    /// One-pixel brush to use for the eyedropper,
    /// solely for the visual of highlighting one pixel
    eyedropper_brush: Brush,
    /// Used by self-closing modes (free transform) to recover
    /// the previous mode
    last_two_mode_variants: (MouseModeVariant, MouseModeVariant),
    boxed_transformable: Option<T>,
    active_text_dialog: Option<W>,
}

impl<T, W> Toolbar<T, W> {
    /// A toolbar in the cursor tool with history (cursor, cursor), opaque black over
    /// transparent, the default swatches (black, red, green, blue, transparent, then an
    /// empty row), the settings panel showing the cursor's settings, round brushes of
    /// radius 5 and the one-pixel square eyedropper brush; both slots empty.
    pub fn new_p() -> (t: Toolbar<T, W>)
        ensures
            t.wf(),
            t.mouse_mode_spec() == initial_mode(),
            t.history() == (MouseModeVariant::Cursor, MouseModeVariant::Cursor),
            t.button_states() == only_active(NUM_VARIANTS as nat, variant_index(mode_variant(initial_mode())) as int),
            t.buttons_match_mode(),
            t.palette_spec().primary_spec() == default_primary_color(),
            t.palette_spec().secondary_spec() == default_secondary_color(),
            t.palette_spec().swatches_spec() == seq![
                Some(Rgba { r: 0, g: 0, b: 0, a: CHANNEL_ONE }),
                Some(Rgba { r: CHANNEL_ONE, g: 0, b: 0, a: CHANNEL_ONE }),
                Some(Rgba { r: 0, g: CHANNEL_ONE, b: 0, a: CHANNEL_ONE }),
                Some(Rgba { r: 0, g: 0, b: CHANNEL_ONE, a: CHANNEL_ONE }),
                Some(Rgba { r: 0, g: 0, b: 0, a: 0 }),
                None::<Rgba>, None, None, None, None,
            ],
            t.settings_spec().displayed_spec() == Some(MouseModeVariant::Cursor),
            t.settings_spec().pencil_spec() == (PencilSettings {
                brush_type: BrushType::Round,
                blending_mode: BlendingMode::Paint,
                radius: 5,
            }),
            t.settings_spec().magic_wand_spec() == (MatchSettings { tolerance: 50, relative: true }),
            t.settings_spec().fill_spec() == (MatchSettings { tolerance: 50, relative: true }),
            t.settings_spec().shape_spec() == (ShapeSettings { shape_type: ShapeType::Rectangle, border_width: 1 }),
            t.settings_spec().free_transform_spec() == (FreeTransformSettings {
                clamp_translate: false,
                clamp_scale: false,
                clamp_rotate: false,
                scale_method: ScaleMethod::NearestNeighbor,
            }),
            t.primary_brush_spec() == (Brush {
                primary_color: default_primary_color(),
                secondary_color: default_secondary_color(),
                brush_type: BrushType::Round,
                radius: 5,
            }),
            t.secondary_brush_spec() == (Brush {
                primary_color: default_secondary_color(),
                secondary_color: default_primary_color(),
                brush_type: BrushType::Round,
                radius: 5,
            }),
            t.eyedropper_spec() == eyedropper_brush_spec(),
            t.transformable_spec() is None,
            t.text_dialog_spec() is None,
    {
        let default_primary_color = Rgba::new(0, 0, 0, CHANNEL_ONE);
        let default_secondary_color = Rgba::new(0, 0, 0, 0);
        let default_palette_colors = vec![
            Some(Rgba::new(0, 0, 0, CHANNEL_ONE)),
            Some(Rgba::new(CHANNEL_ONE, 0, 0, CHANNEL_ONE)),
            Some(Rgba::new(0, CHANNEL_ONE, 0, CHANNEL_ONE)),
            Some(Rgba::new(0, 0, CHANNEL_ONE, CHANNEL_ONE)),
            Some(Rgba::new(0, 0, 0, 0)),
            None, None, None, None, None,
        ];
        proof {
            assert(default_palette_colors@.len() == PALETTE_SLOTS);
        }
        let palette = Palette::new(default_primary_color, default_secondary_color, default_palette_colors);
        let initial = MouseMode::Cursor;
        let mode_toolbar = ModeToolbar::new(Some(initial.variant()));
        let primary_brush = Brush::new(default_primary_color, default_secondary_color, BrushType::Round, 5);
        let secondary_brush = Brush::new(default_secondary_color, default_primary_color, BrushType::Round, 5);
        let eyedropper_brush = Brush::new(default_primary_color, default_secondary_color, BrushType::Square, 1);
        let t = Toolbar {
            palette,
            mouse_mode: initial,
            mouse_mode_buttons: ModeButtons::new(initial.variant()),
            mode_toolbar,
            primary_brush,
            secondary_brush,
            eyedropper_brush,
            last_two_mode_variants: (MouseModeVariant::Cursor, MouseModeVariant::Cursor),
            boxed_transformable: None,
            active_text_dialog: None,
        };
        proof {
            assert(t.palette_spec().swatches_spec() =~= seq![
                Some(Rgba { r: 0, g: 0, b: 0, a: CHANNEL_ONE }),
                Some(Rgba { r: CHANNEL_ONE, g: 0, b: 0, a: CHANNEL_ONE }),
                Some(Rgba { r: 0, g: CHANNEL_ONE, b: 0, a: CHANNEL_ONE }),
                Some(Rgba { r: 0, g: 0, b: CHANNEL_ONE, a: CHANNEL_ONE }),
                Some(Rgba { r: 0, g: 0, b: 0, a: 0 }),
                None::<Rgba>, None, None, None, None,
            ]);
        }
        t
    }

    pub fn mouse_mode(&self) -> (r: &MouseMode)
        ensures
            *r == self.mouse_mode_spec(),
    {
        &self.mouse_mode
    }

    /// The current mode, to update its transient state in place.
    pub fn mouse_mode_mut(&mut self) -> (r: &mut MouseMode)
        ensures
            *r == old(self).mouse_mode_spec(),
            final(self).mouse_mode_spec() == *final(r),
            final(self).history() == old(self).history(),
            final(self).button_states() == old(self).button_states(),
            final(self).same_tool_state(old(self)),
            final(self).wf() == old(self).wf(),
    {
        &mut self.mouse_mode
    }

    pub fn last_two_mouse_mode_variants(&self) -> (r: (MouseModeVariant, MouseModeVariant))
        ensures
            r == self.history(),
    {
        self.last_two_mode_variants
    }

    /// Whether the button of `variant` is active.
    pub fn mode_button_active(&self, variant: MouseModeVariant) -> (r: bool)
        requires
            self.wf(),
        ensures
            r == self.button_states()[variant_index(variant) as int],
    {
        self.mouse_mode_buttons.is_active(variant.index())
    }

    /// Sets the current mouse mode to `new_mouse_mode`: the history moves on where its
    /// second slot is not the new variant, the button of the new variant alone
    /// is active and the settings panel shows it. Returns the displaced mode where the
    /// variant changed, `None` where it did not.
    pub fn set_mouse_mode(&mut self, new_mouse_mode: MouseMode) -> (r: Option<MouseMode>)
        requires
            old(self).wf(),
        ensures
            final(self).wf(),
            final(self).history() == next_history(old(self).history(), mode_variant(new_mouse_mode)),
            final(self).button_states() == only_active(NUM_VARIANTS as nat, variant_index(mode_variant(new_mouse_mode)) as int),
            final(self).buttons_match_mode(),
            final(self).mouse_mode_spec() == new_mouse_mode,
            final(self).settings_spec().displayed_spec() == Some(mode_variant(new_mouse_mode)),
            final(self).settings_spec().same_settings(&old(self).settings_spec()),
            final(self).palette_spec() == old(self).palette_spec(),
            final(self).primary_brush_spec() == old(self).primary_brush_spec(),
            final(self).secondary_brush_spec() == old(self).secondary_brush_spec(),
            final(self).eyedropper_spec() == old(self).eyedropper_spec(),
            final(self).transformable_spec() == old(self).transformable_spec(),
            final(self).text_dialog_spec() == old(self).text_dialog_spec(),
            r == transition_result(old(self).mouse_mode_spec(), new_mouse_mode),
    {
        let new_variant = new_mouse_mode.variant();
        if self.last_two_mode_variants.1 != new_variant {
            self.last_two_mode_variants = (self.last_two_mode_variants.1, new_variant);
        }
        self.mouse_mode_buttons.sync(new_variant);
        let old_mode = self.mouse_mode;
        self.mouse_mode = new_mouse_mode;
        self.mode_toolbar.set_to_variant(new_variant);
        if old_mode.variant() != self.mouse_mode.variant() {
            Some(old_mode)
        } else {
            None
        }
    }

    /// Handles a click on button `click.index`. A click that switched the button off is
    /// undone (`Reasserted`, nothing changes). A click that switched it on commits the
    /// mode of that button's variant, built for the focused canvas where
    /// `canvas_selection` gives that canvas's selection, else the default one.
    pub fn click_mode_button(&mut self, click: ButtonClick, canvas_selection: Option<Option<Rect>>) -> (r: ClickOutcome)
        requires
            old(self).wf(),
            click.index < NUM_VARIANTS,
        ensures
            final(self).wf(),
            final(self).button_states() == after_click(old(self).button_states(), click),
            final(self).same_tool_state(old(self)) || click.now_active,
            old(self).buttons_match_mode() || click.now_active ==> final(self).buttons_match_mode(),
            !click.now_active ==> r == ClickOutcome::Reasserted && final(self).same_mode_state(old(self))
                && final(self).same_tool_state(old(self)),
            click.now_active ==> ({
                let v = variant_at(click.index as nat);
                let m = match canvas_selection {
                    Some(sel) => canvas_mode(v, sel),
                    None => default_mode(v),
                };
                &&& r == ClickOutcome::Committed {
                    old_mode: transition_result(old(self).mouse_mode_spec(), m),
                    new_mode: m,
                }
                &&& final(self).mouse_mode_spec() == m
                &&& final(self).history() == next_history(old(self).history(), v)
                &&& final(self).settings_spec().displayed_spec() == Some(v)
            }),
    {
        if !click.now_active {
            // the only way to deactivate is to activate a different mode button
            return ClickOutcome::Reasserted;
        }
        proof {
            self.mouse_mode_buttons.lemma_wf_states();
        }
        let variant = MouseModeVariant::from_index(click.index);
        let new_mode = MouseMode::requested(variant, canvas_selection);
        let old_mode = self.set_mouse_mode(new_mode);
        proof {
            lemma_variant_index_bijective(variant, click.index as nat);
        }
        ClickOutcome::Committed { old_mode, new_mode }
    }

    pub fn primary_color(&self) -> (r: Rgba)
        ensures
            r == self.palette_spec().primary_spec(),
    {
        self.palette.primary_color()
    }

    pub fn secondary_color(&self) -> (r: Rgba)
        ensures
            r == self.palette_spec().secondary_spec(),
    {
        self.palette.secondary_color()
    }

    pub fn set_primary_color(&mut self, color: Rgba)
        requires
            old(self).wf(),
        ensures
            final(self).wf(),
            final(self).palette_spec().primary_spec() == color,
            final(self).palette_spec().secondary_spec() == old(self).palette_spec().secondary_spec(),
            final(self).palette_spec().swatches_spec() == old(self).palette_spec().swatches_spec(),
            final(self).same_mode_state(old(self)),
            final(self).settings_spec() == old(self).settings_spec(),
            final(self).primary_brush_spec() == old(self).primary_brush_spec(),
            final(self).secondary_brush_spec() == old(self).secondary_brush_spec(),
            final(self).eyedropper_spec() == old(self).eyedropper_spec(),
            final(self).transformable_spec() == old(self).transformable_spec(),
            final(self).text_dialog_spec() == old(self).text_dialog_spec(),
    {
        self.palette.set_primary_color(color);
    }

    pub fn set_secondary_color(&mut self, color: Rgba)
        requires
            old(self).wf(),
        ensures
            final(self).wf(),
            final(self).palette_spec().secondary_spec() == color,
            final(self).palette_spec().primary_spec() == old(self).palette_spec().primary_spec(),
            final(self).palette_spec().swatches_spec() == old(self).palette_spec().swatches_spec(),
            final(self).same_mode_state(old(self)),
            final(self).settings_spec() == old(self).settings_spec(),
            final(self).primary_brush_spec() == old(self).primary_brush_spec(),
            final(self).secondary_brush_spec() == old(self).secondary_brush_spec(),
            final(self).eyedropper_spec() == old(self).eyedropper_spec(),
            final(self).transformable_spec() == old(self).transformable_spec(),
            final(self).text_dialog_spec() == old(self).text_dialog_spec(),
    {
        self.palette.set_secondary_color(color);
    }

    /// The swatch at `row`, `col` of the palette grid.
    pub fn palette_swatch(&self, row: usize, col: usize) -> (r: Option<Rgba>)
        requires
            self.wf(),
            row < crate::palette::PALETTE_ROWS,
            col < crate::palette::PALETTE_COLS,
        ensures
            r == self.palette_spec().swatches_spec()[row * crate::palette::PALETTE_COLS + col],
    {
        self.palette.swatch(row, col)
    }

    /// Adds `color` to the first empty swatch slot; `Full` when there is none, and then
    /// the grid is unchanged.
    pub fn add_color_to_palette(&mut self, color: Rgba) -> (r: Result<(), PaletteError>)
        requires
            old(self).wf(),
        ensures
            final(self).wf(),
            r is Ok <==> has_empty_slot(old(self).palette_spec().swatches_spec()),
            r is Ok ==> added_to_first_empty(
                old(self).palette_spec().swatches_spec(),
                final(self).palette_spec().swatches_spec(),
                color,
            ),
            r is Err ==> r == Err::<(), PaletteError>(PaletteError::Full)
                && final(self).palette_spec().swatches_spec() == old(self).palette_spec().swatches_spec(),
            final(self).palette_spec().primary_spec() == old(self).palette_spec().primary_spec(),
            final(self).palette_spec().secondary_spec() == old(self).palette_spec().secondary_spec(),
            final(self).same_mode_state(old(self)),
            final(self).settings_spec() == old(self).settings_spec(),
            final(self).primary_brush_spec() == old(self).primary_brush_spec(),
            final(self).secondary_brush_spec() == old(self).secondary_brush_spec(),
            final(self).eyedropper_spec() == old(self).eyedropper_spec(),
            final(self).transformable_spec() == old(self).transformable_spec(),
            final(self).text_dialog_spec() == old(self).text_dialog_spec(),
    {
        self.palette.add_color(color)
    }

    /// The settings panel.
    pub fn mode_toolbar(&self) -> (r: &ModeToolbar)
        ensures
            *r == self.settings_spec(),
    {
        &self.mode_toolbar
    }

    /// The settings panel, to take the values of its controls.
    pub fn mode_toolbar_mut(&mut self) -> (r: &mut ModeToolbar)
        ensures
            *r == old(self).settings_spec(),
            old(self).wf() ==> (*r).wf(),
            final(self).settings_spec() == *final(r),
            old(self).wf() && final(r).wf() ==> final(self).wf(),
            final(self).same_mode_state(old(self)),
            final(self).palette_spec() == old(self).palette_spec(),
            final(self).primary_brush_spec() == old(self).primary_brush_spec(),
            final(self).secondary_brush_spec() == old(self).secondary_brush_spec(),
            final(self).eyedropper_spec() == old(self).eyedropper_spec(),
            final(self).transformable_spec() == old(self).transformable_spec(),
            final(self).text_dialog_spec() == old(self).text_dialog_spec(),
    {
        &mut self.mode_toolbar
    }

    /// The primary brush, recomputed from the current colours and pencil settings.
    pub fn get_primary_brush(&mut self) -> (r: &Brush)
        requires
            old(self).wf(),
        ensures
            *r == brush_of(old(self).palette_spec(), old(self).settings_spec(), false),
            final(self).primary_brush_spec() == *r,
            final(self).wf(),
            final(self).same_mode_state(old(self)),
            final(self).palette_spec() == old(self).palette_spec(),
            final(self).settings_spec() == old(self).settings_spec(),
            final(self).secondary_brush_spec() == old(self).secondary_brush_spec(),
            final(self).eyedropper_spec() == old(self).eyedropper_spec(),
            final(self).transformable_spec() == old(self).transformable_spec(),
            final(self).text_dialog_spec() == old(self).text_dialog_spec(),
    {
        let primary_color = self.primary_color();
        let secondary_color = self.secondary_color();
        let (brush_type, _blending_mode, radius) = self.mode_toolbar.get_pencil_settings();
        self.primary_brush.modify(primary_color, secondary_color, brush_type, radius);
        &self.primary_brush
    }

    /// The secondary brush, recomputed from the current colours, swapped, and pencil
    /// settings.
    pub fn get_secondary_brush(&mut self) -> (r: &Brush)
        requires
            old(self).wf(),
        ensures
            *r == brush_of(old(self).palette_spec(), old(self).settings_spec(), true),
            final(self).secondary_brush_spec() == *r,
            final(self).wf(),
            final(self).same_mode_state(old(self)),
            final(self).palette_spec() == old(self).palette_spec(),
            final(self).settings_spec() == old(self).settings_spec(),
            final(self).primary_brush_spec() == old(self).primary_brush_spec(),
            final(self).eyedropper_spec() == old(self).eyedropper_spec(),
            final(self).transformable_spec() == old(self).transformable_spec(),
            final(self).text_dialog_spec() == old(self).text_dialog_spec(),
    {
        let primary_color = self.primary_color();
        let secondary_color = self.secondary_color();
        let (brush_type, _blending_mode, radius) = self.mode_toolbar.get_pencil_settings();
        self.secondary_brush.modify(secondary_color, primary_color, brush_type, radius);
        &self.secondary_brush
    }

    /// The primary brush, recomputed as by `get_primary_brush`, for changes in place.
    pub fn get_primary_brush_mut(&mut self) -> (r: &mut Brush)
        requires
            old(self).wf(),
        ensures
            *r == brush_of(old(self).palette_spec(), old(self).settings_spec(), false),
            final(self).primary_brush_spec() == *final(r),
            final(self).wf(),
            final(self).same_mode_state(old(self)),
            final(self).palette_spec() == old(self).palette_spec(),
            final(self).settings_spec() == old(self).settings_spec(),
            final(self).secondary_brush_spec() == old(self).secondary_brush_spec(),
            final(self).eyedropper_spec() == old(self).eyedropper_spec(),
            final(self).transformable_spec() == old(self).transformable_spec(),
            final(self).text_dialog_spec() == old(self).text_dialog_spec(),
    {
        self.get_primary_brush();
        &mut self.primary_brush
    }

    /// The eyedropper brush as it was made; it is never recomputed.
    pub fn get_eyedropper_brush_mut(&mut self) -> (r: &mut Brush)
        ensures
            *r == old(self).eyedropper_spec(),
            final(self).eyedropper_spec() == *final(r),
            old(self).wf() ==> (final(self).wf() <==> *final(r) == eyedropper_brush_spec()),
            final(self).same_mode_state(old(self)),
            final(self).palette_spec() == old(self).palette_spec(),
            final(self).settings_spec() == old(self).settings_spec(),
            final(self).primary_brush_spec() == old(self).primary_brush_spec(),
            final(self).secondary_brush_spec() == old(self).secondary_brush_spec(),
            final(self).transformable_spec() == old(self).transformable_spec(),
            final(self).text_dialog_spec() == old(self).text_dialog_spec(),
    {
        &mut self.eyedropper_brush
    }

    pub fn get_blending_mode(&self) -> (r: BlendingMode)
        requires
            self.wf(),
        ensures
            r == self.settings_spec().pencil_spec().blending_mode,
    {
        let (_brush_type, blending_mode, _radius) = self.mode_toolbar.get_pencil_settings();
        blending_mode
    }

    /// The magic wand's colour tolerance, in percent.
    pub fn get_magic_wand_tolerance(&self) -> (r: u8)
        ensures
            r == self.settings_spec().magic_wand_spec().tolerance,
    {
        self.mode_toolbar.get_magic_wand_settings().0
    }

    /// The fill's colour tolerance, in percent.
    pub fn get_fill_tolerance(&self) -> (r: u8)
        ensures
            r == self.settings_spec().fill_spec().tolerance,
    {
        self.mode_toolbar.get_fill_settings().0
    }

    pub fn get_magic_wand_relativity(&self) -> (r: bool)
        ensures
            r == self.settings_spec().magic_wand_spec().relative,
    {
        self.mode_toolbar.get_magic_wand_settings().1
    }

    pub fn get_fill_relativity(&self) -> (r: bool)
        ensures
            r == self.settings_spec().fill_spec().relative,
    {
        self.mode_toolbar.get_fill_settings().1
    }

    pub fn get_shape_type(&self) -> (r: ShapeType)
        ensures
            r == self.settings_spec().shape_spec().shape_type,
    {
        self.mode_toolbar.get_shape_settings().0
    }

    pub fn get_shape_border_width(&self) -> (r: u8)
        ensures
            r == self.settings_spec().shape_spec().border_width,
    {
        self.mode_toolbar.get_shape_settings().1
    }

    pub fn get_clamp_translate(&self) -> (r: bool)
        ensures
            r == self.settings_spec().free_transform_spec().clamp_translate,
    {
        self.mode_toolbar.get_free_transform_settings().0
    }

    pub fn get_clamp_scale(&self) -> (r: bool)
        ensures
            r == self.settings_spec().free_transform_spec().clamp_scale,
    {
        self.mode_toolbar.get_free_transform_settings().1
    }

    pub fn get_clamp_rotate(&self) -> (r: bool)
        ensures
            r == self.settings_spec().free_transform_spec().clamp_rotate,
    {
        self.mode_toolbar.get_free_transform_settings().2
    }

    pub fn get_free_transform_scale_method(&self) -> (r: ScaleMethod)
        ensures
            r == self.settings_spec().free_transform_spec().scale_method,
    {
        self.mode_toolbar.get_free_transform_settings().3
    }

    /// Stores a tool's own state, dropping any held before.
    pub fn set_boxed_transformable(&mut self, boxed_transformable: T)
        ensures
            final(self).transformable_spec() == Some(boxed_transformable),
            final(self).wf() == old(self).wf(),
            final(self).same_mode_state(old(self)),
            final(self).palette_spec() == old(self).palette_spec(),
            final(self).settings_spec() == old(self).settings_spec(),
            final(self).primary_brush_spec() == old(self).primary_brush_spec(),
            final(self).secondary_brush_spec() == old(self).secondary_brush_spec(),
            final(self).eyedropper_spec() == old(self).eyedropper_spec(),
            final(self).text_dialog_spec() == old(self).text_dialog_spec(),
    {
        self.boxed_transformable = Some(boxed_transformable);
    }

    /// The slot of a tool's own state, for use in place.
    pub fn get_boxed_transformable(&mut self) -> (r: &mut Option<T>)
        ensures
            *r == old(self).transformable_spec(),
            final(self).transformable_spec() == *final(r),
            final(self).wf() == old(self).wf(),
            final(self).same_mode_state(old(self)),
            final(self).palette_spec() == old(self).palette_spec(),
            final(self).settings_spec() == old(self).settings_spec(),
            final(self).primary_brush_spec() == old(self).primary_brush_spec(),
            final(self).secondary_brush_spec() == old(self).secondary_brush_spec(),
            final(self).eyedropper_spec() == old(self).eyedropper_spec(),
            final(self).text_dialog_spec() == old(self).text_dialog_spec(),
    {
        &mut self.boxed_transformable
    }

    /// Takes the tool state out of its slot, leaving it empty.
    pub fn try_take_boxed_transformable(&mut self) -> (r: Option<T>)
        ensures
            (r, final(self).transformable_spec()) == take_slot(old(self).transformable_spec()),
            final(self).wf() == old(self).wf(),
            final(self).same_mode_state(old(self)),
            final(self).palette_spec() == old(self).palette_spec(),
            final(self).settings_spec() == old(self).settings_spec(),
            final(self).primary_brush_spec() == old(self).primary_brush_spec(),
            final(self).secondary_brush_spec() == old(self).secondary_brush_spec(),
            final(self).eyedropper_spec() == old(self).eyedropper_spec(),
            final(self).text_dialog_spec() == old(self).text_dialog_spec(),
    {
        self.boxed_transformable.take()
    }

    /// Holds the handle of the open text dialog; one held before is replaced, not closed.
    pub fn set_active_text_dialog(&mut self, window: W)
        ensures
            final(self).text_dialog_spec() == Some(window),
            final(self).wf() == old(self).wf(),
            final(self).same_mode_state(old(self)),
            final(self).palette_spec() == old(self).palette_spec(),
            final(self).settings_spec() == old(self).settings_spec(),
            final(self).primary_brush_spec() == old(self).primary_brush_spec(),
            final(self).secondary_brush_spec() == old(self).secondary_brush_spec(),
            final(self).eyedropper_spec() == old(self).eyedropper_spec(),
            final(self).transformable_spec() == old(self).transformable_spec(),
    {
        self.active_text_dialog = Some(window);
    }

    /// Clears the text dialog slot, handing back the dialog that the caller is to close,
    /// if one was held.
    pub fn close_active_text_dialog(&mut self) -> (r: Option<W>)
        ensures
            r == old(self).text_dialog_spec(),
            final(self).text_dialog_spec() is None,
            final(self).wf() == old(self).wf(),
            final(self).same_mode_state(old(self)),
            final(self).palette_spec() == old(self).palette_spec(),
            final(self).settings_spec() == old(self).settings_spec(),
            final(self).primary_brush_spec() == old(self).primary_brush_spec(),
            final(self).secondary_brush_spec() == old(self).secondary_brush_spec(),
            final(self).eyedropper_spec() == old(self).eyedropper_spec(),
            final(self).transformable_spec() == old(self).transformable_spec(),
    {
        self.active_text_dialog.take()
    }

    pub closed spec fn wf(&self) -> bool {
        &&& self.palette.wf()
        &&& self.mouse_mode_buttons.wf()
        &&& self.mode_toolbar.wf()
        &&& self.eyedropper_brush == eyedropper_brush_spec()
    }

    /// What a well-formed toolbar holds: one button per variant with exactly one of them
    /// active, a full-size swatch grid, well-formed settings, and the one-pixel square
    /// eyedropper brush, whatever colours and settings are current.
    pub proof fn lemma_wf(&self)
        requires
            self.wf(),
        ensures
            self.button_states().len() == NUM_VARIANTS,
            exactly_one_active(self.button_states()),
            self.palette_spec().swatches_spec().len() == PALETTE_SLOTS,
            self.settings_spec().wf(),
            self.eyedropper_spec() == eyedropper_brush_spec(),
            self.eyedropper_spec().brush_type == BrushType::Square,
            self.eyedropper_spec().radius == 1,
    {
        self.mouse_mode_buttons.lemma_wf_states();
        self.palette.lemma_wf_len();
    }

    /// The active button is the one of the current mode's variant, and it alone.
    pub open spec fn buttons_match_mode(&self) -> bool {
        self.button_states() == only_active(NUM_VARIANTS as nat, variant_index(mode_variant(self.mouse_mode_spec())) as int)
    }

    pub closed spec fn mouse_mode_spec(&self) -> MouseMode {
        self.mouse_mode
    }

    /// The last two distinct variants entered, oldest first; the second is the variant
    /// of the most recent `set_mouse_mode`.
    pub closed spec fn history(&self) -> (MouseModeVariant, MouseModeVariant) {
        self.last_two_mode_variants
    }

    /// Whether each mode button is active, in the order of `variant_at`.
    pub closed spec fn button_states(&self) -> Seq<bool> {
        self.mouse_mode_buttons.states()
    }

    pub closed spec fn palette_spec(&self) -> Palette {
        self.palette
    }

    pub closed spec fn settings_spec(&self) -> ModeToolbar {
        self.mode_toolbar
    }

    pub closed spec fn primary_brush_spec(&self) -> Brush {
        self.primary_brush
    }

    pub closed spec fn secondary_brush_spec(&self) -> Brush {
        self.secondary_brush
    }

    pub closed spec fn eyedropper_spec(&self) -> Brush {
        self.eyedropper_brush
    }

    pub closed spec fn transformable_spec(&self) -> Option<T> {
        self.boxed_transformable
    }

    pub closed spec fn text_dialog_spec(&self) -> Option<W> {
        self.active_text_dialog
    }

    /// The palette, the settings, the brushes and both slots are those of `o`.
    pub open spec fn same_tool_state(&self, o: &Self) -> bool {
        &&& self.palette_spec() == o.palette_spec()
        &&& self.settings_spec() == o.settings_spec()
        &&& self.primary_brush_spec() == o.primary_brush_spec()
        &&& self.secondary_brush_spec() == o.secondary_brush_spec()
        &&& self.eyedropper_spec() == o.eyedropper_spec()
        &&& self.transformable_spec() == o.transformable_spec()
        &&& self.text_dialog_spec() == o.text_dialog_spec()
    }

    /// The mode, its history and the buttons are those of `o`.
    pub open spec fn same_mode_state(&self, o: &Self) -> bool {
        &&& self.mouse_mode_spec() == o.mouse_mode_spec()
        &&& self.history() == o.history()
        &&& self.button_states() == o.button_states()
    }
}

} // verus!
