use vstd::prelude::*;
use crate::brush::{BlendingMode, BrushType};
use crate::mode::MouseModeVariant;

verus! {

/// The largest colour tolerance, in percent.
pub const MAX_TOLERANCE: u8 = 100;

/// The kind of shape the shape tool draws.
#[derive(Clone, Copy, Debug, PartialEq, Eq, Structural)]
pub enum ShapeType {
    Rectangle,
    Oval,
    Line,
}

/// How the free-transform tool resamples a scaled object.
#[derive(Clone, Copy, Debug, PartialEq, Eq, Structural)]
pub enum ScaleMethod {
    NearestNeighbor,
    Bilinear,
}

/// Settings of the pencil panel.
#[derive(Clone, Copy, Debug, PartialEq, Eq, Structural)]
pub struct PencilSettings {
    pub brush_type: BrushType,
    pub blending_mode: BlendingMode,
    pub radius: u8,
}

/// Settings of a colour-matching tool (magic wand, fill): the tolerance in percent and
/// whether it is relative to the clicked colour.
#[derive(Clone, Copy, Debug, PartialEq, Eq, Structural)]
pub struct MatchSettings {
    pub tolerance: u8,
    pub relative: bool,
}

/// Settings of the shape panel.
#[derive(Clone, Copy, Debug, PartialEq, Eq, Structural)]
pub struct ShapeSettings {
    pub shape_type: ShapeType,
    pub border_width: u8,
}

/// Settings of the free-transform panel.
#[derive(Clone, Copy, Debug, PartialEq, Eq, Structural)]
pub struct FreeTransformSettings {
    pub clamp_translate: bool,
    pub clamp_scale: bool,
    pub clamp_rotate: bool,
    pub scale_method: ScaleMethod,
}

/// The tool-specific settings panel: the values its controls hold, and which tool's
/// panel is displayed.
pub struct ModeToolbar {
    displayed: Option<MouseModeVariant>,
    pencil: PencilSettings,
    magic_wand: MatchSettings,
    fill: MatchSettings,
    shape: ShapeSettings,
    free_transform: FreeTransformSettings,
}

impl ModeToolbar {
    pub closed spec fn wf(&self) -> bool {
        self.pencil.radius >= 1 && self.magic_wand.tolerance <= MAX_TOLERANCE
            && self.fill.tolerance <= MAX_TOLERANCE
    }

    pub closed spec fn displayed_spec(&self) -> Option<MouseModeVariant> {
        self.displayed
    }

    pub closed spec fn pencil_spec(&self) -> PencilSettings {
        self.pencil
    }

    pub closed spec fn magic_wand_spec(&self) -> MatchSettings {
        self.magic_wand
    }

    pub closed spec fn fill_spec(&self) -> MatchSettings {
        self.fill
    }

    pub closed spec fn shape_spec(&self) -> ShapeSettings {
        self.shape
    }

    pub closed spec fn free_transform_spec(&self) -> FreeTransformSettings {
        self.free_transform
    }

    /// Every setting but the displayed panel is the same in `self` and `o`.
    pub open spec fn same_settings(&self, o: &ModeToolbar) -> bool {
        &&& self.pencil_spec() == o.pencil_spec()
        &&& self.magic_wand_spec() == o.magic_wand_spec()
        &&& self.fill_spec() == o.fill_spec()
        &&& self.shape_spec() == o.shape_spec()
        &&& self.free_transform_spec() == o.free_transform_spec()
    }

    /// A panel showing `initial` (or nothing), with a round pencil of radius 5, blending by
    /// painting, half tolerance, a rectangle of border 1 and no clamping.
    pub fn new(initial: Option<MouseModeVariant>) -> (t: ModeToolbar)
        ensures
            t.wf(),
            t.displayed_spec() == initial,
            t.pencil_spec() == (PencilSettings {
                brush_type: BrushType::Round,
                blending_mode: BlendingMode::Paint,
                radius: 5,
            }),
            t.magic_wand_spec() == (MatchSettings { tolerance: 50, relative: true }),
            t.fill_spec() == (MatchSettings { tolerance: 50, relative: true }),
            t.shape_spec() == (ShapeSettings { shape_type: ShapeType::Rectangle, border_width: 1 }),
            t.free_transform_spec() == (FreeTransformSettings {
                clamp_translate: false,
                clamp_scale: false,
                clamp_rotate: false,
                scale_method: ScaleMethod::NearestNeighbor,
            }),
    {
        ModeToolbar {
            displayed: initial,
            pencil: PencilSettings { brush_type: BrushType::Round, blending_mode: BlendingMode::Paint, radius: 5 },
            magic_wand: MatchSettings { tolerance: 50, relative: true },
            fill: MatchSettings { tolerance: 50, relative: true },
            shape: ShapeSettings { shape_type: ShapeType::Rectangle, border_width: 1 },
            free_transform: FreeTransformSettings {
                clamp_translate: false,
                clamp_scale: false,
                clamp_rotate: false,
                scale_method: ScaleMethod::NearestNeighbor,
            },
        }
    }

    /// Which tool's panel is displayed.
    pub fn displayed(&self) -> (r: Option<MouseModeVariant>)
        ensures
            r == self.displayed_spec(),
    {
        self.displayed
    }

    /// Displays the panel of `variant`; the settings are kept.
    pub fn set_to_variant(&mut self, variant: MouseModeVariant)
        requires
            old(self).wf(),
        ensures
            final(self).wf(),
            final(self).displayed_spec() == Some(variant),
            final(self).same_settings(old(self)),
    {
        self.displayed = Some(variant);
    }

    pub fn get_pencil_settings(&self) -> (r: (BrushType, BlendingMode, u8))
        requires
            self.wf(),
        ensures
            r == (self.pencil_spec().brush_type, self.pencil_spec().blending_mode, self.pencil_spec().radius),
            r.2 >= 1,
    {
        (self.pencil.brush_type, self.pencil.blending_mode, self.pencil.radius)
    }

    pub fn get_magic_wand_settings(&self) -> (r: (u8, bool))
        ensures
            r == (self.magic_wand_spec().tolerance, self.magic_wand_spec().relative),
    {
        (self.magic_wand.tolerance, self.magic_wand.relative)
    }

    pub fn get_fill_settings(&self) -> (r: (u8, bool))
        ensures
            r == (self.fill_spec().tolerance, self.fill_spec().relative),
    {
        (self.fill.tolerance, self.fill.relative)
    }

    pub fn get_shape_settings(&self) -> (r: (ShapeType, u8))
        ensures
            r == (self.shape_spec().shape_type, self.shape_spec().border_width),
    {
        (self.shape.shape_type, self.shape.border_width)
    }

    pub fn get_free_transform_settings(&self) -> (r: (bool, bool, bool, ScaleMethod))
        ensures
            r == (
                self.free_transform_spec().clamp_translate,
                self.free_transform_spec().clamp_scale,
                self.free_transform_spec().clamp_rotate,
                self.free_transform_spec().scale_method,
            ),
    {
        (
            self.free_transform.clamp_translate,
            self.free_transform.clamp_scale,
            self.free_transform.clamp_rotate,
            self.free_transform.scale_method,
        )
    }

    /// Takes the pencil controls' values; a radius of 0 is raised to 1.
    pub fn set_pencil_settings(&mut self, brush_type: BrushType, blending_mode: BlendingMode, radius: u8)
        requires
            old(self).wf(),
        ensures
            final(self).wf(),
            final(self).pencil_spec() == (PencilSettings {
                brush_type,
                blending_mode,
                radius: if radius == 0 { 1 } else { radius },
            }),
            final(self).displayed_spec() == old(self).displayed_spec(),
            final(self).magic_wand_spec() == old(self).magic_wand_spec(),
            final(self).fill_spec() == old(self).fill_spec(),
            final(self).shape_spec() == old(self).shape_spec(),
            final(self).free_transform_spec() == old(self).free_transform_spec(),
    {
        let radius = if radius == 0 { 1 } else { radius };
        self.pencil = PencilSettings { brush_type, blending_mode, radius };
    }

    /// Takes the magic wand controls' values; a tolerance over the largest is capped.
    pub fn set_magic_wand_settings(&mut self, tolerance: u8, relative: bool)
        requires
            old(self).wf(),
        ensures
            final(self).wf(),
            final(self).magic_wand_spec() == (MatchSettings {
                tolerance: if tolerance > MAX_TOLERANCE { MAX_TOLERANCE } else { tolerance },
                relative,
            }),
            final(self).displayed_spec() == old(self).displayed_spec(),
            final(self).pencil_spec() == old(self).pencil_spec(),
            final(self).fill_spec() == old(self).fill_spec(),
            final(self).shape_spec() == old(self).shape_spec(),
            final(self).free_transform_spec() == old(self).free_transform_spec(),
    {
        let tolerance = if tolerance > MAX_TOLERANCE { MAX_TOLERANCE } else { tolerance };
        self.magic_wand = MatchSettings { tolerance, relative };
    }

    /// Takes the fill controls' values; a tolerance over the largest is capped.
    pub fn set_fill_settings(&mut self, tolerance: u8, relative: bool)
        requires
            old(self).wf(),
        ensures
            final(self).wf(),
            final(self).fill_spec() == (MatchSettings {
                tolerance: if tolerance > MAX_TOLERANCE { MAX_TOLERANCE } else { tolerance },
                relative,
            }),
            final(self).displayed_spec() == old(self).displayed_spec(),
            final(self).pencil_spec() == old(self).pencil_spec(),
            final(self).magic_wand_spec() == old(self).magic_wand_spec(),
            final(self).shape_spec() == old(self).shape_spec(),
            final(self).free_transform_spec() == old(self).free_transform_spec(),
    {
        let tolerance = if tolerance > MAX_TOLERANCE { MAX_TOLERANCE } else { tolerance };
        self.fill = MatchSettings { tolerance, relative };
    }

    /// Takes the shape controls' values.
    pub fn set_shape_settings(&mut self, shape_type: ShapeType, border_width: u8)
        requires
            old(self).wf(),
        ensures
            final(self).wf(),
            final(self).shape_spec() == (ShapeSettings { shape_type, border_width }),
            final(self).displayed_spec() == old(self).displayed_spec(),
            final(self).pencil_spec() == old(self).pencil_spec(),
            final(self).magic_wand_spec() == old(self).magic_wand_spec(),
            final(self).fill_spec() == old(self).fill_spec(),
            final(self).free_transform_spec() == old(self).free_transform_spec(),
    {
        self.shape = ShapeSettings { shape_type, border_width };
    }

    /// Takes the free-transform controls' values.
    pub fn set_free_transform_settings(&mut self, settings: FreeTransformSettings)
        requires
            old(self).wf(),
        ensures
            final(self).wf(),
            final(self).free_transform_spec() == settings,
            final(self).displayed_spec() == old(self).displayed_spec(),
            final(self).pencil_spec() == old(self).pencil_spec(),
            final(self).magic_wand_spec() == old(self).magic_wand_spec(),
            final(self).fill_spec() == old(self).fill_spec(),
            final(self).shape_spec() == old(self).shape_spec(),
    {
        self.free_transform = settings;
    }
}

} // verus!
