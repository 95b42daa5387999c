use vstd::prelude::*;
use crate::mode::{
    MouseMode, MouseModeVariant, NUM_VARIANTS, default_mode, mode_variant, variant_at,
    variant_index, lemma_variant_index_bijective,
};

verus! {

/// A click on a mode button, reported with the toggle state that the click left it in.
#[derive(Clone, Copy, Debug, PartialEq, Eq, Structural)]
pub struct ButtonClick {
    pub index: usize,
    pub now_active: bool,
}

/// Exactly one entry of `s` is set.
pub open spec fn exactly_one_active(s: Seq<bool>) -> bool {
    exists|i: int|
        0 <= i < s.len() && #[trigger] s[i] && forall|j: int| 0 <= j < s.len() && s[j] ==> j == i
}

/// `n` buttons of which button `i` alone is active.
pub open spec fn only_active(n: nat, i: int) -> Seq<bool> {
    Seq::new(n, |j: int| j == i)
}

/// The button states after one click: a button switched on becomes the only active one;
/// a click that switched a button off is undone.
pub open spec fn after_click(s: Seq<bool>, c: ButtonClick) -> Seq<bool> {
    if c.now_active && c.index < s.len() {
        only_active(s.len(), c.index as int)
    } else {
        s
    }
}

/// The button states after a sequence of clicks, in order.
pub open spec fn after_clicks(s: Seq<bool>, cs: Seq<ButtonClick>) -> Seq<bool>
    decreases cs.len(),
{
    if cs.len() == 0 {
        s
    } else {
        after_click(after_clicks(s, cs.drop_last()), cs.last())
    }
}

/// One click keeps exactly one button active.
pub proof fn lemma_click_keeps_one_active(s: Seq<bool>, c: ButtonClick)
    requires
        exactly_one_active(s),
    ensures
        exactly_one_active(after_click(s, c)),
        after_click(s, c).len() == s.len(),
{
    if c.now_active && c.index < s.len() {
        let t = only_active(s.len(), c.index as int);
        assert(t[c.index as int]);
    }
}

/// Whatever sequence of clicks is made, exactly one button is active after each of them.
pub proof fn lemma_clicks_keep_one_active(s: Seq<bool>, cs: Seq<ButtonClick>)
    requires
        exactly_one_active(s),
    ensures
        forall|k: int| 0 <= k <= cs.len() ==> exactly_one_active(#[trigger] after_clicks(s, cs.take(k))),
    decreases cs.len(),
{
    if cs.len() > 0 {
        let prefix = cs.drop_last();
        lemma_clicks_keep_one_active(s, prefix);
        assert forall|k: int| 0 <= k <= cs.len() implies exactly_one_active(#[trigger] after_clicks(s, cs.take(k))) by {
            if k < cs.len() {
                assert(cs.take(k) =~= prefix.take(k));
            } else {
                assert(cs.take(k) =~= cs);
                assert(cs.take(k).drop_last() =~= prefix.take(prefix.len() as int));
                lemma_click_keeps_one_active(after_clicks(s, prefix), cs.last());
                assert(prefix.take(prefix.len() as int) =~= prefix);
            }
        }
    }
}

/// One toggle control per tool variant, in the order of `variant_at`.
pub struct MouseModeButton {
    pub mode: MouseMode,
    pub active: bool,
}

/// The row of mode buttons.
pub struct ModeButtons {
    buttons: Vec<MouseModeButton>,
}

impl ModeButtons {
    pub closed spec fn wf(&self) -> bool {
        &&& self.buttons@.len() == NUM_VARIANTS
        &&& forall|i: int| 0 <= i < NUM_VARIANTS ==> self.buttons@[i].mode == default_mode(variant_at(i as nat))
        &&& exactly_one_active(self.states())
    }

    /// Whether each button is active, in button order.
    pub closed spec fn states(&self) -> Seq<bool> {
        Seq::new(self.buttons@.len(), |i: int| self.buttons@[i].active)
    }

    /// A well-formed row has one state per variant, exactly one of them set.
    pub proof fn lemma_wf_states(&self)
        requires
            self.wf(),
        ensures
            self.states().len() == NUM_VARIANTS,
            exactly_one_active(self.states()),
    {
    }

    /// One button per variant, the one of `initial` alone active.
    pub fn new(initial: MouseModeVariant) -> (r: ModeButtons)
        ensures
            r.wf(),
            r.states() == only_active(NUM_VARIANTS as nat, variant_index(initial) as int),
    {
        let mut buttons: Vec<MouseModeButton> = Vec::new();
        let mut i: usize = 0;
        let k = initial.index();
        while i < NUM_VARIANTS
            invariant
                i <= NUM_VARIANTS,
                k == variant_index(initial),
                buttons@.len() == i,
                forall|j: int| 0 <= j < i ==> buttons@[j].mode == default_mode(variant_at(j as nat)),
                forall|j: int| 0 <= j < i ==> buttons@[j].active == (j == k),
            decreases NUM_VARIANTS - i,
        {
            let v = MouseModeVariant::from_index(i);
            buttons.push(MouseModeButton { mode: MouseMode::default_for(v), active: i == k });
            i = i + 1;
        }
        let r = ModeButtons { buttons };
        proof {
            lemma_variant_index_bijective(initial, 0);
            assert(r.states() =~= only_active(NUM_VARIANTS as nat, k as int));
            assert(r.states()[k as int]);
        }
        r
    }

    pub fn len(&self) -> (r: usize)
        requires
            self.wf(),
        ensures
            r == NUM_VARIANTS,
    {
        self.buttons.len()
    }

    /// Whether button `i` is active.
    pub fn is_active(&self, i: usize) -> (r: bool)
        requires
            self.wf(),
            i < NUM_VARIANTS,
        ensures
            r == self.states()[i as int],
    {
        self.buttons[i].active
    }

    /// Makes active exactly the button whose variant is `variant`.
    pub fn sync(&mut self, variant: MouseModeVariant)
        requires
            old(self).wf(),
        ensures
            final(self).wf(),
            final(self).states() == only_active(NUM_VARIANTS as nat, variant_index(variant) as int),
    {
        let mut i: usize = 0;
        let n = self.buttons.len();
        while i < n
            invariant
                n == NUM_VARIANTS,
                i <= n,
                self.buttons@.len() == n,
                forall|j: int| 0 <= j < n ==> self.buttons@[j].mode == default_mode(variant_at(j as nat)),
                forall|j: int| 0 <= j < i ==> self.buttons@[j].active == (variant_at(j as nat) == variant),
            decreases n - i,
        {
            let is_match = self.buttons[i].mode.variant() == variant;
            let mode = self.buttons[i].mode;
            self.buttons.set(i, MouseModeButton { mode, active: is_match });
            i = i + 1;
        }
        proof {
            lemma_variant_index_bijective(variant, 0);
            assert forall|j: int| 0 <= j < NUM_VARIANTS implies (#[trigger] variant_at(j as nat) == variant) == (j == variant_index(variant)) by {
                lemma_variant_index_bijective(variant, j as nat);
            }
            assert(self.states() =~= only_active(NUM_VARIANTS as nat, variant_index(variant) as int));
            assert(self.states()[variant_index(variant) as int]);
        }
    }
}

} // verus!
