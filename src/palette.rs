use vstd::prelude::*;
use crate::brush::Rgba;

verus! {

/// Rows of the swatch grid.
pub const PALETTE_ROWS: usize = 2;

/// Columns of the swatch grid.
pub const PALETTE_COLS: usize = 5;

/// Slots of the swatch grid.
pub const PALETTE_SLOTS: usize = 10;

/// Why a colour could not be added to the palette.
#[derive(Clone, Copy, Debug, PartialEq, Eq, Structural)]
pub enum PaletteError {
    /// Every swatch slot holds a colour.
    Full,
}

/// Whether the grid, row by row, has an empty slot.
pub open spec fn has_empty_slot(s: Seq<Option<Rgba>>) -> bool {
    exists|i: int| 0 <= i < s.len() && s[i] is None
}

/// `i` is the first empty slot of the grid, row by row.
pub open spec fn is_first_empty(s: Seq<Option<Rgba>>, i: int) -> bool {
    &&& 0 <= i < s.len()
    &&& s[i] is None
    &&& forall|j: int| 0 <= j < i ==> s[j] is Some
}

/// `t` is the grid `s` with `c` put in its first empty slot.
pub open spec fn added_to_first_empty(s: Seq<Option<Rgba>>, t: Seq<Option<Rgba>>, c: Rgba) -> bool {
    exists|i: int| is_first_empty(s, i) && t == s.update(i, Some(c))
}

/// The primary and secondary colours and a fixed grid of optional swatches.
pub struct Palette {
    primary_color: Rgba,
    secondary_color: Rgba,
    swatches: Vec<Option<Rgba>>,
}

impl Palette {
    pub closed spec fn wf(&self) -> bool {
        self.swatches@.len() == PALETTE_SLOTS
    }

    pub closed spec fn primary_spec(&self) -> Rgba {
        self.primary_color
    }

    pub closed spec fn secondary_spec(&self) -> Rgba {
        self.secondary_color
    }

    /// The swatch grid, row by row.
    pub closed spec fn swatches_spec(&self) -> Seq<Option<Rgba>> {
        self.swatches@
    }

    /// A well-formed palette has a full-size swatch grid.
    pub proof fn lemma_wf_len(&self)
        requires
            self.wf(),
        ensures
            self.swatches_spec().len() == PALETTE_SLOTS,
    {
    }

    /// A palette with the given colours; `swatches` holds the grid row by row.
    pub fn new(primary_color: Rgba, secondary_color: Rgba, swatches: Vec<Option<Rgba>>) -> (p: Palette)
        requires
            swatches@.len() == PALETTE_SLOTS,
        ensures
            p.wf(),
            p.primary_spec() == primary_color,
            p.secondary_spec() == secondary_color,
            p.swatches_spec() == swatches@,
    {
        Palette { primary_color, secondary_color, swatches }
    }

    pub fn primary_color(&self) -> (r: Rgba)
        ensures
            r == self.primary_spec(),
    {
        self.primary_color
    }

    pub fn secondary_color(&self) -> (r: Rgba)
        ensures
            r == self.secondary_spec(),
    {
        self.secondary_color
    }

    pub fn set_primary_color(&mut self, color: Rgba)
        ensures
            final(self).primary_spec() == color,
            final(self).secondary_spec() == old(self).secondary_spec(),
            final(self).swatches_spec() == old(self).swatches_spec(),
            final(self).wf() == old(self).wf(),
    {
        self.primary_color = color;
    }

    pub fn set_secondary_color(&mut self, color: Rgba)
        ensures
            final(self).secondary_spec() == color,
            final(self).primary_spec() == old(self).primary_spec(),
            final(self).swatches_spec() == old(self).swatches_spec(),
            final(self).wf() == old(self).wf(),
    {
        self.secondary_color = color;
    }

    /// The swatch at `row`, `col` of the grid.
    pub fn swatch(&self, row: usize, col: usize) -> (r: Option<Rgba>)
        requires
            self.wf(),
            row < PALETTE_ROWS,
            col < PALETTE_COLS,
        ensures
            r == self.swatches_spec()[row * PALETTE_COLS + col],
    {
        self.swatches[row * PALETTE_COLS + col]
    }

    /// Puts `color` in the first empty slot, row by row; fails with `Full`, changing
    /// nothing, when every slot holds a colour.
    pub fn add_color(&mut self, color: Rgba) -> (r: Result<(), PaletteError>)
        requires
            old(self).wf(),
        ensures
            final(self).wf(),
            final(self).primary_spec() == old(self).primary_spec(),
            final(self).secondary_spec() == old(self).secondary_spec(),
            r is Ok <==> has_empty_slot(old(self).swatches_spec()),
            r is Ok ==> added_to_first_empty(old(self).swatches_spec(), final(self).swatches_spec(), color),
            r is Err ==> r == Err::<(), PaletteError>(PaletteError::Full)
                && final(self).swatches_spec() == old(self).swatches_spec(),
    {
        let mut i: usize = 0;
        while i < self.swatches.len()
            invariant
                self.swatches@ == old(self).swatches@,
                self.swatches@.len() == PALETTE_SLOTS,
                self.primary_color == old(self).primary_color,
                self.secondary_color == old(self).secondary_color,
                i <= self.swatches@.len(),
                forall|j: int| 0 <= j < i ==> self.swatches@[j] is Some,
            decreases self.swatches@.len() - i,
        {
            if self.swatches[i].is_none() {
                self.swatches.set(i, Some(color));
                assert(is_first_empty(old(self).swatches@, i as int));
                return Ok(());
            }
            i = i + 1;
        }
        Err(PaletteError::Full)
    }
}

} // verus!
