use vstd::prelude::*;

verus! {

/// The tag of an editing tool: what the toolbar compares and synchronises on.
#[derive(Clone, Copy, Debug, PartialEq, Eq, Structural)]
pub enum MouseModeVariant {
    Cursor,
    Pencil,
    Eyedropper,
    RectangleSelect,
    MagicWand,
    Fill,
    FreeTransform,
    Shape,
    Text,
}

/// Number of tool variants, one mode button each.
pub const NUM_VARIANTS: usize = 9;

/// A point on the canvas, in pixels.
#[derive(Clone, Copy, Debug, PartialEq, Eq, Structural)]
pub struct Point {
    pub x: i64,
    pub y: i64,
}

/// An axis-aligned rectangle on the canvas.
#[derive(Clone, Copy, Debug, PartialEq, Eq, Structural)]
pub struct Rect {
    pub x: i64,
    pub y: i64,
    pub width: i64,
    pub height: i64,
}

/// The active editing tool, with the transient state that it carries while in use.
/// Only the variant tag takes part in synchronisation; the payload never does.
#[derive(Clone, Copy, Debug, PartialEq, Eq, Structural)]
pub enum MouseMode {
    Cursor,
    /// The last point of a stroke in progress.
    Pencil(Option<Point>),
    Eyedropper,
    /// The selection being drawn or held.
    RectangleSelect(Option<Rect>),
    MagicWand,
    Fill,
    /// Where a drag on the transformed object started.
    FreeTransform(Option<Point>),
    /// Where the shape being drawn was anchored.
    Shape(Option<Point>),
    /// Where the text is placed.
    Text(Option<Point>),
}

/// The position of a variant in the row of mode buttons.
pub open spec fn variant_index(v: MouseModeVariant) -> nat {
    match v {
        MouseModeVariant::Cursor => 0,
        MouseModeVariant::Pencil => 1,
        MouseModeVariant::Eyedropper => 2,
        MouseModeVariant::RectangleSelect => 3,
        MouseModeVariant::MagicWand => 4,
        MouseModeVariant::Fill => 5,
        MouseModeVariant::FreeTransform => 6,
        MouseModeVariant::Shape => 7,
        MouseModeVariant::Text => 8,
    }
}

/// The variant at a position of the row of mode buttons.
pub open spec fn variant_at(i: nat) -> MouseModeVariant {
    if i == 0 {
        MouseModeVariant::Cursor
    } else if i == 1 {
        MouseModeVariant::Pencil
    } else if i == 2 {
        MouseModeVariant::Eyedropper
    } else if i == 3 {
        MouseModeVariant::RectangleSelect
    } else if i == 4 {
        MouseModeVariant::MagicWand
    } else if i == 5 {
        MouseModeVariant::Fill
    } else if i == 6 {
        MouseModeVariant::FreeTransform
    } else if i == 7 {
        MouseModeVariant::Shape
    } else {
        MouseModeVariant::Text
    }
}

/// Positions and variants correspond one to one.
pub proof fn lemma_variant_index_bijective(v: MouseModeVariant, i: nat)
    ensures
        variant_index(v) < NUM_VARIANTS,
        variant_at(variant_index(v)) == v,
        i < NUM_VARIANTS ==> variant_index(variant_at(i)) == i,
{
}

impl MouseModeVariant {
    /// The position of this variant in the row of mode buttons.
    pub fn index(&self) -> (r: usize)
        ensures
            r == variant_index(*self),
    {
        match self {
            MouseModeVariant::Cursor => 0,
            MouseModeVariant::Pencil => 1,
            MouseModeVariant::Eyedropper => 2,
            MouseModeVariant::RectangleSelect => 3,
            MouseModeVariant::MagicWand => 4,
            MouseModeVariant::Fill => 5,
            MouseModeVariant::FreeTransform => 6,
            MouseModeVariant::Shape => 7,
            MouseModeVariant::Text => 8,
        }
    }

    /// The variant at position `i` of the row of mode buttons.
    pub fn from_index(i: usize) -> (r: MouseModeVariant)
        requires
            i < NUM_VARIANTS,
        ensures
            r == variant_at(i as nat),
            variant_index(r) == i,
    {
        if i == 0 {
            MouseModeVariant::Cursor
        } else if i == 1 {
            MouseModeVariant::Pencil
        } else if i == 2 {
            MouseModeVariant::Eyedropper
        } else if i == 3 {
            MouseModeVariant::RectangleSelect
        } else if i == 4 {
            MouseModeVariant::MagicWand
        } else if i == 5 {
            MouseModeVariant::Fill
        } else if i == 6 {
            MouseModeVariant::FreeTransform
        } else if i == 7 {
            MouseModeVariant::Shape
        } else {
            MouseModeVariant::Text
        }
    }
}

/// The variant tag of a mode.
pub open spec fn mode_variant(m: MouseMode) -> MouseModeVariant {
    match m {
        MouseMode::Cursor => MouseModeVariant::Cursor,
        MouseMode::Pencil(_) => MouseModeVariant::Pencil,
        MouseMode::Eyedropper => MouseModeVariant::Eyedropper,
        MouseMode::RectangleSelect(_) => MouseModeVariant::RectangleSelect,
        MouseMode::MagicWand => MouseModeVariant::MagicWand,
        MouseMode::Fill => MouseModeVariant::Fill,
        MouseMode::FreeTransform(_) => MouseModeVariant::FreeTransform,
        MouseMode::Shape(_) => MouseModeVariant::Shape,
        MouseMode::Text(_) => MouseModeVariant::Text,
    }
}

/// The mode of a variant with no transient state.
pub open spec fn default_mode(v: MouseModeVariant) -> MouseMode {
    match v {
        MouseModeVariant::Cursor => MouseMode::Cursor,
        MouseModeVariant::Pencil => MouseMode::Pencil(None),
        MouseModeVariant::Eyedropper => MouseMode::Eyedropper,
        MouseModeVariant::RectangleSelect => MouseMode::RectangleSelect(None),
        MouseModeVariant::MagicWand => MouseMode::MagicWand,
        MouseModeVariant::Fill => MouseMode::Fill,
        MouseModeVariant::FreeTransform => MouseMode::FreeTransform(None),
        MouseModeVariant::Shape => MouseMode::Shape(None),
        MouseModeVariant::Text => MouseMode::Text(None),
    }
}

/// The mode that a tool starts in on a canvas: a rectangle selection takes over the
/// canvas's current selection, every other tool starts with no transient state.
pub open spec fn canvas_mode(v: MouseModeVariant, selection: Option<Rect>) -> MouseMode {
    match v {
        MouseModeVariant::RectangleSelect => MouseMode::RectangleSelect(selection),
        _ => default_mode(v),
    }
}

impl MouseMode {
    /// The variant tag of this mode.
    pub fn variant(&self) -> (r: MouseModeVariant)
        ensures
            r == mode_variant(*self),
    {
        match self {
            MouseMode::Cursor => MouseModeVariant::Cursor,
            MouseMode::Pencil(_) => MouseModeVariant::Pencil,
            MouseMode::Eyedropper => MouseModeVariant::Eyedropper,
            MouseMode::RectangleSelect(_) => MouseModeVariant::RectangleSelect,
            MouseMode::MagicWand => MouseModeVariant::MagicWand,
            MouseMode::Fill => MouseModeVariant::Fill,
            MouseMode::FreeTransform(_) => MouseModeVariant::FreeTransform,
            MouseMode::Shape(_) => MouseModeVariant::Shape,
            MouseMode::Text(_) => MouseModeVariant::Text,
        }
    }

    /// The mode of variant `v` with no transient state, used when no canvas is focused.
    pub fn default_for(v: MouseModeVariant) -> (r: MouseMode)
        ensures
            r == default_mode(v),
            mode_variant(r) == v,
    {
        match v {
            MouseModeVariant::Cursor => MouseMode::Cursor,
            MouseModeVariant::Pencil => MouseMode::Pencil(None),
            MouseModeVariant::Eyedropper => MouseMode::Eyedropper,
            MouseModeVariant::RectangleSelect => MouseMode::RectangleSelect(None),
            MouseModeVariant::MagicWand => MouseMode::MagicWand,
            MouseModeVariant::Fill => MouseMode::Fill,
            MouseModeVariant::FreeTransform => MouseMode::FreeTransform(None),
            MouseModeVariant::Shape => MouseMode::Shape(None),
            MouseModeVariant::Text => MouseMode::Text(None),
        }
    }

    /// The mode of variant `v` built for a focused canvas whose current selection is
    /// `selection`.
    pub fn for_canvas(v: MouseModeVariant, selection: Option<Rect>) -> (r: MouseMode)
        ensures
            r == canvas_mode(v, selection),
            mode_variant(r) == v,
    {
        match v {
            MouseModeVariant::RectangleSelect => MouseMode::RectangleSelect(selection),
            _ => MouseMode::default_for(v),
        }
    }

    /// The mode that a button of variant `v` asks for: built for the focused canvas,
    /// given by its current selection, or the context-free default where none is focused.
    pub fn requested(v: MouseModeVariant, canvas_selection: Option<Option<Rect>>) -> (r: MouseMode)
        ensures
            r == (match canvas_selection {
                Some(sel) => canvas_mode(v, sel),
                None => default_mode(v),
            }),
            mode_variant(r) == v,
    {
        match canvas_selection {
            Some(sel) => MouseMode::for_canvas(v, sel),
            None => MouseMode::default_for(v),
        }
    }
}

} // verus!
