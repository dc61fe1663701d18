//! The slider state machine and its redraw synchronizer.
//!
//! A `Slider` owns the committed anchor of the head quad, the head's current
//! (possibly uncommitted) x position, an interaction state, and a dirty bit.
//! Pointer events drive it: a button press arms it, the first move that lands
//! inside the head starts a drag, further moves slide the head horizontally,
//! and a release commits the head position back into the anchor.
//!
//! A move updates the head position unconditionally, but a redraw is
//! requested, and the dirty bit set, only when the candidate x lies within
//! the track range `[RANGE_LOWER, RANGE_UPPER]`; outside it the internal
//! geometry deliberately runs ahead of what is on screen until the pointer
//! re-enters the range. The committed anchor is the last moved x, unclamped.

use vstd::prelude::*;

use crate::geometry::{
    generate, in_coord_bounds, indices, spec_generate, spec_indices, Vertex, HEAD_HEIGHT,
    HEAD_WIDTH,
};

verus! {

/// Lower inclusive bound on the head x positions that trigger a redraw
/// (-0.65 NDC).
pub const RANGE_LOWER: i64 = -650_000;

/// Upper inclusive bound on the head x positions that trigger a redraw
/// (0.60 NDC).
pub const RANGE_UPPER: i64 = 600_000;

/// Head anchor x at construction (-0.60 NDC).
pub const INITIAL_ANCHOR_X: i64 = -600_000;

/// Head anchor y at construction (0.55 NDC).
pub const INITIAL_ANCHOR_Y: i64 = 550_000;

/// The interaction state: a press arms the slider, a hit confirms the drag,
/// a release returns to `Idle`. No other transition exists.
#[derive(Copy, Clone, Debug, PartialEq, Eq, Structural)]
pub enum SliderState {
    Idle,
    Pressed,
    Dragging,
}

/// The mathematical view of a `Slider`: its interaction state, the committed
/// anchor, the head's current x, and whether geometry awaits an upload.
pub struct SliderModel {
    pub state: SliderState,
    pub anchor_x: i64,
    pub anchor_y: i64,
    pub head_x: i64,
    pub dirty: bool,
}

/// A horizontal slider widget: head anchor, interaction state, redraw range
/// and dirty bit. Geometry is always derived from the head position and
/// anchor y alone, through `generate`.
pub struct Slider {
    pub state: SliderState,
    pub anchor_x: i64,
    pub anchor_y: i64,
    pub head_x: i64,
    pub dirty: bool,
    pub range_lower: i64,
    pub range_upper: i64,
}

impl View for Slider {
    type V = SliderModel;

    open spec fn view(&self) -> SliderModel {
        SliderModel {
            state: self.state,
            anchor_x: self.anchor_x,
            anchor_y: self.anchor_y,
            head_x: self.head_x,
            dirty: self.dirty,
        }
    }
}

/// Well-formedness of the model: all coordinates stay within the bounds that
/// keep geometry arithmetic exact, and outside a drag the head sits exactly
/// at the committed anchor.
pub open spec fn wf_model(m: SliderModel) -> bool {
    &&& in_coord_bounds(m.anchor_x)
    &&& in_coord_bounds(m.anchor_y)
    &&& in_coord_bounds(m.head_x)
    &&& !(m.state is Dragging) ==> m.head_x == m.anchor_x
}

/// The model constructed by `Slider::new`: idle at the initial anchor, with
/// the initial geometry still to be uploaded.
pub open spec fn init_model() -> SliderModel {
    SliderModel {
        state: SliderState::Idle,
        anchor_x: INITIAL_ANCHOR_X,
        anchor_y: INITIAL_ANCHOR_Y,
        head_x: INITIAL_ANCHOR_X,
        dirty: true,
    }
}

/// Whether a pointer at `(x, y)` lands inside the head quad of `m`. The
/// pointer y comes in the window convention and is negated against the
/// anchor's NDC y; all four comparisons are strict, as in the hit policy.
pub open spec fn hit(m: SliderModel, x: i64, y: i64) -> bool {
    &&& m.anchor_x < x
    &&& x < m.anchor_x + HEAD_WIDTH
    &&& -y < m.anchor_y
    &&& m.anchor_y - HEAD_HEIGHT < -y
}

/// Whether a candidate head x lies within the redraw range, inclusive on
/// both ends.
pub open spec fn in_range(x: i64) -> bool {
    RANGE_LOWER <= x && x <= RANGE_UPPER
}

/// Effect of a confirmed drag step to `x`: the head follows the pointer's x
/// while its y stays fixed, and the dirty bit is set when `x` is in range
/// (and never cleared by a move).
pub open spec fn drag_to(m: SliderModel, x: i64) -> SliderModel {
    SliderModel { state: SliderState::Dragging, head_x: x, dirty: m.dirty || in_range(x), ..m }
}

/// Transition for a left-button press: it arms an idle slider and is ignored
/// in every other state.
pub open spec fn step_button_down(m: SliderModel) -> SliderModel {
    if m.state is Idle {
        SliderModel { state: SliderState::Pressed, ..m }
    } else {
        m
    }
}

/// Transition for a left-button release: a drag commits the head x into the
/// anchor; a click without a drag changes nothing but the state; an idle
/// slider ignores it.
pub open spec fn step_button_up(m: SliderModel) -> SliderModel {
    match m.state {
        SliderState::Idle => m,
        SliderState::Pressed => SliderModel { state: SliderState::Idle, ..m },
        SliderState::Dragging => SliderModel {
            state: SliderState::Idle,
            anchor_x: m.head_x,
            ..m
        },
    }
}

/// Transition for a pointer move to `(x, y)`: ignored while idle; while
/// pressed, a hit on the head confirms the drag and the same move already
/// drags the head to `x`, a miss changes nothing; while dragging, the head
/// follows `x`.
pub open spec fn step_pointer_move(m: SliderModel, x: i64, y: i64) -> SliderModel {
    match m.state {
        SliderState::Idle => m,
        SliderState::Pressed => if hit(m, x, y) {
            drag_to(m, x)
        } else {
            m
        },
        SliderState::Dragging => drag_to(m, x),
    }
}

/// Whether the move to `(x, y)` requests a redraw: exactly when it drags the
/// head (a confirmed drag, or the hit that confirms one) to an in-range x.
pub open spec fn move_requests_redraw(m: SliderModel, x: i64, y: i64) -> bool {
    (m.state is Dragging || (m.state is Pressed && hit(m, x, y))) && in_range(x)
}

/// What `take_dirty_geometry` returns and leaves behind: with the dirty bit
/// set it hands out the current geometry and indices and clears the bit;
/// otherwise it returns nothing and changes nothing.
pub open spec fn take_post(
    pre: SliderModel,
    post: SliderModel,
    r: Option<(Vec<Vertex>, Vec<u16>)>,
) -> bool {
    if pre.dirty {
        &&& r matches Some(g) && g.0@ == spec_generate(pre.head_x, pre.anchor_y) && g.1@
            == spec_indices()
        &&& post == SliderModel { dirty: false, ..pre }
    } else {
        &&& r is None
        &&& post == pre
    }
}

impl Slider {
    /// Whether the slider is well formed: its model is, and its range bounds
    /// are the fixed construction-time constants.
    pub open spec fn wf(&self) -> bool {
        &&& wf_model(self@)
        &&& self.range_lower == RANGE_LOWER
        &&& self.range_upper == RANGE_UPPER
    }

    /// A slider at the default anchor, idle, with its initial geometry
    /// marked dirty so the first frame uploads it.
    pub fn new() -> (s: Self)
        ensures
            s.wf(),
            s@ == init_model(),
    {
        Slider {
            state: SliderState::Idle,
            anchor_x: INITIAL_ANCHOR_X,
            anchor_y: INITIAL_ANCHOR_Y,
            head_x: INITIAL_ANCHOR_X,
            dirty: true,
            range_lower: RANGE_LOWER,
            range_upper: RANGE_UPPER,
        }
    }

    /// Handle a left-button press.
    pub fn on_button_down(&mut self)
        requires
            old(self).wf(),
        ensures
            final(self).wf(),
            final(self)@ == step_button_down(old(self)@),
    {
        if matches!(self.state, SliderState::Idle) {
            self.state = SliderState::Pressed;
        }
    }

    /// Handle a left-button release.
    pub fn on_button_up(&mut self)
        requires
            old(self).wf(),
        ensures
            final(self).wf(),
            final(self)@ == step_button_up(old(self)@),
    {
        match self.state {
            SliderState::Idle => {},
            SliderState::Pressed => {
                self.state = SliderState::Idle;
            },
            SliderState::Dragging => {
                self.anchor_x = self.head_x;
                self.state = SliderState::Idle;
            },
        }
    }

    /// Handle a pointer move to `(x, y)` in micro-NDC units, y in the window
    /// convention. Returns whether the caller should request a redraw.
    pub fn on_pointer_move(&mut self, x: i64, y: i64) -> (redraw: bool)
        requires
            old(self).wf(),
            in_coord_bounds(x),
            in_coord_bounds(y),
        ensures
            final(self).wf(),
            final(self)@ == step_pointer_move(old(self)@, x, y),
            redraw == move_requests_redraw(old(self)@, x, y),
    {
        match self.state {
            SliderState::Idle => false,
            SliderState::Pressed => {
                let inside = self.anchor_x < x && x < self.anchor_x + HEAD_WIDTH && -y
                    < self.anchor_y && self.anchor_y - HEAD_HEIGHT < -y;
                if inside {
                    self.drag_step(x)
                } else {
                    false
                }
            },
            SliderState::Dragging => self.drag_step(x),
        }
    }

    /// One confirmed drag step: slide the head to `x`, set the dirty bit when
    /// `x` is in range, and report whether to request a redraw.
    fn drag_step(&mut self, x: i64) -> (redraw: bool)
        requires
            old(self).wf(),
            in_coord_bounds(x),
        ensures
            final(self).wf(),
            final(self)@ == drag_to(old(self)@, x),
            redraw == in_range(x),
    {
        self.state = SliderState::Dragging;
        self.head_x = x;
        let gate = x >= self.range_lower && x <= self.range_upper;
        if gate {
            self.dirty = true;
        }
        gate
    }

    /// Hand out the geometry once per frame: the current vertices and the
    /// triangulation indices if anything changed since the last call, and
    /// nothing otherwise.
    pub fn take_dirty_geometry(&mut self) -> (r: Option<(Vec<Vertex>, Vec<u16>)>)
        requires
            old(self).wf(),
        ensures
            final(self).wf(),
            take_post(old(self)@, final(self)@, r),
    {
        if self.dirty {
            self.dirty = false;
            Some((generate(self.head_x, self.anchor_y), indices()))
        } else {
            None
        }
    }

    /// The current widget geometry, derived from the head position.
    pub fn geometry(&self) -> (r: Vec<Vertex>)
        requires
            self.wf(),
        ensures
            r@ == spec_generate(self@.head_x, self@.anchor_y),
    {
        generate(self.head_x, self.anchor_y)
    }
}

/// A click without a drag is harmless: from `Idle`, a button press followed
/// by a release with no intervening move leaves the slider, anchor included,
/// exactly as it was, back in `Idle`.
pub proof fn lemma_click_without_drag(m: SliderModel)
    requires
        wf_model(m),
        m.state is Idle,
    ensures
        step_button_up(step_button_down(m)) == m,
{
}

/// After a press arms an idle slider, the first move decides the drag: a
/// move landing inside the head's hit-box starts dragging (and already
/// slides the head to the pointer's x), while a move outside it leaves the
/// slider armed but otherwise untouched.
pub proof fn lemma_first_move_decides_drag(m: SliderModel, x: i64, y: i64)
    requires
        wf_model(m),
        m.state is Idle,
    ensures
        hit(step_button_down(m), x, y) ==> step_pointer_move(step_button_down(m), x, y)
            == (SliderModel {
            state: SliderState::Dragging,
            head_x: x,
            dirty: m.dirty || in_range(x),
            ..m
        }),
        !hit(step_button_down(m), x, y) ==> step_pointer_move(step_button_down(m), x, y)
            == step_button_down(m),
{
}

/// Releasing the button mid-drag commits: the anchor x becomes the last
/// moved x (unclamped), the anchor y is untouched, and the slider returns to
/// `Idle`.
pub proof fn lemma_release_commits(m: SliderModel, x: i64, y: i64)
    requires
        wf_model(m),
        m.state is Dragging,
    ensures
        step_button_up(m).state is Idle,
        step_button_up(m).anchor_x == m.head_x,
        step_button_up(m).anchor_y == m.anchor_y,
        step_button_up(step_pointer_move(m, x, y)).state is Idle,
        step_button_up(step_pointer_move(m, x, y)).anchor_x == x,
        step_button_up(step_pointer_move(m, x, y)).anchor_y == m.anchor_y,
{
}

/// While dragging, a move requests a redraw exactly when the candidate x
/// lies within `[RANGE_LOWER, RANGE_UPPER]`; the head position follows the
/// pointer either way, and its y never changes.
pub proof fn lemma_redraw_gate(m: SliderModel, x: i64, y: i64)
    requires
        wf_model(m),
        m.state is Dragging,
    ensures
        move_requests_redraw(m, x, y) <==> (RANGE_LOWER <= x && x <= RANGE_UPPER),
        step_pointer_move(m, x, y).head_x == x,
        step_pointer_move(m, x, y).anchor_y == m.anchor_y,
        !in_range(x) ==> step_pointer_move(m, x, y).dirty == m.dirty,
        in_range(x) ==> step_pointer_move(m, x, y).dirty,
{
}

} // verus!
