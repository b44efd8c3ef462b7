use vstd::prelude::*;

use crate::event::CanvasEvent;

verus! {

/// The state mutated by the input handler and read by the uniform update:
/// whether the mouse button is held, the most recently reported cursor
/// position, and the position snapshotted when the current (or last) drag
/// began. Both positions are absent until the corresponding event has
/// occurred at least once.
#[derive(Clone, Copy, Debug, PartialEq, Eq)]
pub struct InteractionState {
    pub mousedown: bool,
    pub last_mouse_pos: Option<(u32, u32)>,
    pub start_mouse_pos: Option<(u32, u32)>,
}

/// The state at startup: button up, no position ever reported, no drag ever
/// started.
pub open spec fn initial_state() -> InteractionState {
    InteractionState {
        mousedown: false,
        last_mouse_pos: None,
        start_mouse_pos: None,
    }
}

/// The transition function of the input handler. Every event is accepted in
/// every state:
/// - `MouseDown` sets the button flag and snapshots `last_mouse_pos` into
///   `start_mouse_pos` (the snapshot may be absent);
/// - `MouseUp` clears the button flag and nothing else;
/// - `MouseMove(x, y)` records `(x, y)` unconditionally.
pub open spec fn step(s: InteractionState, e: CanvasEvent) -> InteractionState {
    match e {
        CanvasEvent::MouseDown => InteractionState {
            mousedown: true,
            last_mouse_pos: s.last_mouse_pos,
            start_mouse_pos: s.last_mouse_pos,
        },
        CanvasEvent::MouseUp => InteractionState {
            mousedown: false,
            last_mouse_pos: s.last_mouse_pos,
            start_mouse_pos: s.start_mouse_pos,
        },
        CanvasEvent::MouseMove(x, y) => InteractionState {
            mousedown: s.mousedown,
            last_mouse_pos: Some((x, y)),
            start_mouse_pos: s.start_mouse_pos,
        },
    }
}

/// The state after a whole sequence of events has been consumed, oldest
/// first.
pub open spec fn run_events(s: InteractionState, es: Seq<CanvasEvent>) -> InteractionState
    decreases es.len(),
{
    if es.len() == 0 {
        s
    } else {
        step(run_events(s, es.drop_last()), es.last())
    }
}

impl InteractionState {
    /// The state at startup.
    pub fn new() -> (s: Self)
        ensures
            s == initial_state(),
    {
        InteractionState {
            mousedown: false,
            last_mouse_pos: None,
            start_mouse_pos: None,
        }
    }

    /// Consumes one event, taking the state through one transition of
    /// `step`.
    pub fn apply_event(&mut self, e: &CanvasEvent)
        ensures
            *final(self) == step(*old(self), *e),
    {
        match e {
            CanvasEvent::MouseDown => {
                self.mousedown = true;
                self.start_mouse_pos = self.last_mouse_pos;
            }
            CanvasEvent::MouseUp => {
                self.mousedown = false;
            }
            CanvasEvent::MouseMove(x, y) => {
                self.last_mouse_pos = Some((*x, *y));
            }
        }
    }
}

/// The payload of the most recent `MouseMove` in `es`, if any.
pub open spec fn latest_move(es: Seq<CanvasEvent>) -> Option<(u32, u32)>
    decreases es.len(),
{
    if es.len() == 0 {
        None
    } else {
        match es.last() {
            CanvasEvent::MouseMove(x, y) => Some((x, y)),
            _ => latest_move(es.drop_last()),
        }
    }
}

/// After any sequence of events, `last_mouse_pos` holds the payload of the
/// most recent `MouseMove`, whatever the button did in between; if the
/// sequence contains no `MouseMove`, it is unchanged.
pub proof fn lemma_last_mouse_pos_tracks_moves(s: InteractionState, es: Seq<CanvasEvent>)
    ensures
        latest_move(es) is Some ==> run_events(s, es).last_mouse_pos == latest_move(es),
        latest_move(es) is None ==> run_events(s, es).last_mouse_pos == s.last_mouse_pos,
    decreases es.len(),
{
    if es.len() > 0 {
        lemma_last_mouse_pos_tracks_moves(s, es.drop_last());
    }
}

/// `start_mouse_pos` changes only on `MouseDown`, and a `MouseDown` makes it
/// equal to the value `last_mouse_pos` held immediately before the press.
pub proof fn lemma_start_pos_only_set_on_mouse_down(s: InteractionState, e: CanvasEvent)
    ensures
        step(s, e).start_mouse_pos != s.start_mouse_pos ==> e is MouseDown,
        e is MouseDown ==> step(s, e).start_mouse_pos == s.last_mouse_pos,
{
}

/// `MouseUp` leaves the drag-start snapshot alone: the seed survives a
/// release untouched.
pub proof fn lemma_start_pos_survives_mouse_up(s: InteractionState)
    ensures
        step(s, CanvasEvent::MouseUp).start_mouse_pos == s.start_mouse_pos,
{
}

/// Some `MouseMove` occurs in `es`.
pub open spec fn has_move(es: Seq<CanvasEvent>) -> bool {
    exists|j: int| 0 <= j < es.len() && es[j] is MouseMove
}

/// Some `MouseDown` in `es` is preceded by a `MouseMove`.
pub open spec fn has_move_before_down(es: Seq<CanvasEvent>) -> bool {
    exists|i: int, j: int|
        0 <= j < i < es.len() && es[i] is MouseDown && es[j] is MouseMove
}

/// Starting from startup, `last_mouse_pos` is present exactly when some
/// `MouseMove` has been consumed.
pub proof fn lemma_last_pos_present_iff_some_move(es: Seq<CanvasEvent>)
    ensures
        run_events(initial_state(), es).last_mouse_pos is Some <==> has_move(es),
    decreases es.len(),
{
    if es.len() > 0 {
        lemma_last_pos_present_iff_some_move(es.drop_last());
        if es.last() is MouseMove {
            assert(es[es.len() - 1] is MouseMove);
        } else {
            if has_move(es) {
                let j = choose|j: int| 0 <= j < es.len() && es[j] is MouseMove;
                assert(es.drop_last()[j] is MouseMove);
            }
            if has_move(es.drop_last()) {
                let j = choose|j: int| 0 <= j < es.drop_last().len() && es.drop_last()[j] is MouseMove;
                assert(es[j] is MouseMove);
            }
        }
    }
}

/// Starting from startup, the drag-start snapshot is present exactly when
/// some `MouseDown` was preceded by a `MouseMove`: before the first press —
/// and after a press that no move preceded — the seed is still the sentinel,
/// and once set it is never cleared again.
pub proof fn lemma_start_pos_present_iff_down_after_move(es: Seq<CanvasEvent>)
    ensures
        run_events(initial_state(), es).start_mouse_pos is Some <==> has_move_before_down(es),
    decreases es.len(),
{
    if es.len() > 0 {
        let prefix = es.drop_last();
        lemma_start_pos_present_iff_down_after_move(prefix);
        lemma_last_pos_present_iff_some_move(prefix);
        let n = es.len() - 1;
        if es.last() is MouseDown {
            if has_move(prefix) {
                let j = choose|j: int| 0 <= j < prefix.len() && prefix[j] is MouseMove;
                assert(es[j] is MouseMove && es[n] is MouseDown);
                assert(has_move_before_down(es));
            }
            if has_move_before_down(es) && !has_move_before_down(prefix) {
                let (i, j) = choose|i: int, j: int|
                    0 <= j < i < es.len() && es[i] is MouseDown && es[j] is MouseMove;
                if i < n {
                    assert(prefix[i] is MouseDown && prefix[j] is MouseMove);
                } else {
                    assert(prefix[j] is MouseMove);
                }
            }
        } else {
            if has_move_before_down(es) {
                let (i, j) = choose|i: int, j: int|
                    0 <= j < i < es.len() && es[i] is MouseDown && es[j] is MouseMove;
                assert(i < n);
                assert(prefix[i] is MouseDown && prefix[j] is MouseMove);
            }
            if has_move_before_down(prefix) {
                let (i, j) = choose|i: int, j: int|
                    0 <= j < i < prefix.len() && prefix[i] is MouseDown && prefix[j] is MouseMove;
                assert(es[i] is MouseDown && es[j] is MouseMove);
            }
        }
    }
}

/// The drag-start snapshot never disappears: once a state can point at a
/// drag origin, every later state can too. Holds for every state reachable
/// from startup, since in such a state a snapshot implies a recorded
/// position (`lemma_reachable_well_formed`).
pub proof fn lemma_start_pos_never_cleared(s: InteractionState, e: CanvasEvent)
    requires
        s.start_mouse_pos is Some ==> s.last_mouse_pos is Some,
        s.start_mouse_pos is Some,
    ensures
        step(s, e).start_mouse_pos is Some,
{
}

/// From startup, every reachable state that holds a drag-start snapshot also
/// holds a recorded mouse position.
pub proof fn lemma_reachable_well_formed(es: Seq<CanvasEvent>)
    ensures
        run_events(initial_state(), es).start_mouse_pos is Some
            ==> run_events(initial_state(), es).last_mouse_pos is Some,
    decreases es.len(),
{
    if es.len() > 0 {
        lemma_reachable_well_formed(es.drop_last());
    }
}

} // verus!
