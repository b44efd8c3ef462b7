use vstd::prelude::*;

use crate::event::CanvasEvent;
use crate::interaction::{
    has_move_before_down, initial_state, lemma_start_pos_present_iff_down_after_move, run_events,
    step, InteractionState,
};

verus! {

/// X coordinate of the sentinel position that tells the shader "no active
/// interaction"; chosen outside the visible canvas.
pub const SENTINEL_X: i64 = -1000;

/// Y coordinate of the sentinel position.
pub const SENTINEL_Y: i64 = 0;

/// The record mirrored into the GPU uniform buffer, with both 2-component
/// vectors held as plain coordinates. Each lane is either a canvas
/// coordinate (which always fits) or a sentinel lane; the GPU-side mirror
/// stores the same four lanes in the same order as 32-bit floats.
#[derive(Clone, Copy, Debug, PartialEq, Eq)]
pub struct Uniforms {
    pub mouse_pos: (i64, i64),
    pub seed: (i64, i64),
}

/// The sentinel position `(-1000, 0)`.
pub open spec fn sentinel() -> (i64, i64) {
    (SENTINEL_X, SENTINEL_Y)
}

/// The uniforms that an interaction state prescribes:
/// - `mouse_pos` is the recorded position while the button is held and a
///   position exists, else the sentinel — the mouse uniform is "active" only
///   during a drag;
/// - `seed` is the drag-start snapshot if one exists, else the sentinel —
///   deliberately not cleared on release, so the last drag origin persists
///   until the next press.
pub open spec fn uniforms_of(s: InteractionState) -> Uniforms {
    Uniforms {
        mouse_pos: match s.last_mouse_pos {
            Some(p) => if s.mousedown {
                (p.0 as i64, p.1 as i64)
            } else {
                sentinel()
            },
            None => sentinel(),
        },
        seed: match s.start_mouse_pos {
            Some(p) => (p.0 as i64, p.1 as i64),
            None => sentinel(),
        },
    }
}

impl Uniforms {
    /// The value the GPU buffer is initialised with before any event has
    /// been consumed: no prior position exists, so both fields carry the
    /// sentinel — exactly what the startup state prescribes.
    pub fn new() -> (u: Self)
        ensures
            u.mouse_pos == sentinel(),
            u.seed == sentinel(),
            u == uniforms_of(initial_state()),
    {
        Uniforms {
            mouse_pos: (SENTINEL_X, SENTINEL_Y),
            seed: (SENTINEL_X, SENTINEL_Y),
        }
    }
}

impl InteractionState {
    /// Derives the uniforms this state prescribes, exactly as `uniforms_of`
    /// states them.
    pub fn snapshot_uniforms(&self) -> (u: Uniforms)
        ensures
            u == uniforms_of(*self),
            !self.mousedown ==> u.mouse_pos == sentinel(),
    {
        let mouse_pos: (i64, i64) = match self.last_mouse_pos {
            Some(p) => if self.mousedown {
                (p.0 as i64, p.1 as i64)
            } else {
                (SENTINEL_X, SENTINEL_Y)
            },
            None => (SENTINEL_X, SENTINEL_Y),
        };
        let seed: (i64, i64) = match self.start_mouse_pos {
            Some(p) => (p.0 as i64, p.1 as i64),
            None => (SENTINEL_X, SENTINEL_Y),
        };
        Uniforms { mouse_pos, seed }
    }

    /// The per-event tick of the event loop: consumes one event and returns
    /// the uniforms that the GPU buffer must now mirror — one transition of
    /// `step` followed by one derivation of `uniforms_of`.
    pub fn handle_event(&mut self, e: &CanvasEvent) -> (u: Uniforms)
        ensures
            *final(self) == step(*old(self), *e),
            u == uniforms_of(step(*old(self), *e)),
    {
        self.apply_event(e);
        self.snapshot_uniforms()
    }
}

/// Whenever the button is up, the mouse-position uniform is the sentinel,
/// no matter what position was last recorded.
pub proof fn lemma_mouse_pos_sentinel_while_button_up(s: InteractionState)
    ensures
        !s.mousedown ==> uniforms_of(s).mouse_pos == sentinel(),
{
}

/// The seed uniform is the sentinel exactly when no drag origin has been
/// captured, and otherwise equals that origin: releases in between cannot
/// reset it.
pub proof fn lemma_seed_sentinel_iff_no_drag_origin(s: InteractionState)
    ensures
        s.start_mouse_pos is None <==> uniforms_of(s).seed == sentinel(),
        s.start_mouse_pos matches Some(p) ==> uniforms_of(s).seed == ((p.0 as i64, p.1 as i64)),
{
}

/// From startup, the seed uniform reads as the sentinel exactly as long as
/// no press has yet been preceded by a move — and never again afterwards,
/// however many releases occur in between.
pub proof fn lemma_seed_uniform_sentinel_iff_no_drag_ever(es: Seq<CanvasEvent>)
    ensures
        uniforms_of(run_events(initial_state(), es)).seed
            == sentinel() <==> !has_move_before_down(es),
{
    lemma_start_pos_present_iff_down_after_move(es);
    lemma_seed_sentinel_iff_no_drag_origin(run_events(initial_state(), es));
}

} // verus!
