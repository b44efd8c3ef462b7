use canvas_trail::event::CanvasEvent;
use canvas_trail::interaction::InteractionState;

const SENTINEL: (i64, i64) = (-1000, 0);

#[test]
fn startup_state_is_idle_and_empty() {
    let s = InteractionState::new();
    assert_eq!(s.mousedown, false);
    assert_eq!(s.last_mouse_pos, None);
    assert_eq!(s.start_mouse_pos, None);
}

#[test]
fn initial_uniforms_use_sentinel_for_both_fields() {
    let u = canvas_trail::Uniforms::new();
    assert_eq!(u.mouse_pos, SENTINEL);
    assert_eq!(u.seed, SENTINEL);
}

#[test]
fn press_without_prior_move_keeps_both_uniforms_sentinel() {
    let mut s = InteractionState::new();
    s.apply_event(&CanvasEvent::MouseDown);
    assert_eq!(s.mousedown, true);
    assert_eq!(s.start_mouse_pos, None);
    let u = s.snapshot_uniforms();
    assert_eq!(u.mouse_pos, SENTINEL);
    assert_eq!(u.seed, SENTINEL);
}

#[test]
fn drag_captures_start_and_tracks_latest_move() {
    let mut s = InteractionState::new();
    s.apply_event(&CanvasEvent::MouseMove(50, 60));
    s.apply_event(&CanvasEvent::MouseDown);
    s.apply_event(&CanvasEvent::MouseMove(70, 80));
    assert_eq!(s.start_mouse_pos, Some((50, 60)));
    assert_eq!(s.last_mouse_pos, Some((70, 80)));
    let u = s.snapshot_uniforms();
    assert_eq!(u.mouse_pos, (70, 80));
    assert_eq!(u.seed, (50, 60));
}

#[test]
fn release_resets_mouse_uniform_but_keeps_seed() {
    let mut s = InteractionState::new();
    s.apply_event(&CanvasEvent::MouseMove(50, 60));
    s.apply_event(&CanvasEvent::MouseDown);
    s.apply_event(&CanvasEvent::MouseMove(70, 80));
    s.apply_event(&CanvasEvent::MouseUp);
    let u = s.snapshot_uniforms();
    assert_eq!(u.mouse_pos, SENTINEL);
    assert_eq!(u.seed, (50, 60));
}

#[test]
fn second_drag_cycle_overwrites_first_seed() {
    let mut s = InteractionState::new();
    s.apply_event(&CanvasEvent::MouseMove(10, 20));
    s.apply_event(&CanvasEvent::MouseDown);
    s.apply_event(&CanvasEvent::MouseMove(30, 40));
    s.apply_event(&CanvasEvent::MouseUp);
    s.apply_event(&CanvasEvent::MouseMove(200, 300));
    s.apply_event(&CanvasEvent::MouseDown);
    s.apply_event(&CanvasEvent::MouseMove(210, 310));
    s.apply_event(&CanvasEvent::MouseUp);
    let u = s.snapshot_uniforms();
    assert_eq!(u.seed, (200, 300));
    assert_eq!(s.start_mouse_pos, Some((200, 300)));
    assert_eq!(s.last_mouse_pos, Some((210, 310)));
    assert_eq!(u.mouse_pos, SENTINEL);
}

#[test]
fn moves_are_recorded_while_button_is_up() {
    let mut s = InteractionState::new();
    s.apply_event(&CanvasEvent::MouseMove(1, 2));
    s.apply_event(&CanvasEvent::MouseMove(3, 4));
    assert_eq!(s.last_mouse_pos, Some((3, 4)));
    assert_eq!(s.mousedown, false);
    let u = s.snapshot_uniforms();
    assert_eq!(u.mouse_pos, SENTINEL);
}

#[test]
fn move_and_release_leave_start_pos_unchanged() {
    let mut s = InteractionState::new();
    s.apply_event(&CanvasEvent::MouseMove(5, 6));
    s.apply_event(&CanvasEvent::MouseDown);
    let captured = s.start_mouse_pos;
    s.apply_event(&CanvasEvent::MouseMove(7, 8));
    assert_eq!(s.start_mouse_pos, captured);
    s.apply_event(&CanvasEvent::MouseUp);
    assert_eq!(s.start_mouse_pos, captured);
}

#[test]
fn handle_event_steps_and_reports_in_one_tick() {
    let mut s = InteractionState::new();
    let u0 = s.handle_event(&CanvasEvent::MouseMove(50, 60));
    assert_eq!(u0.mouse_pos, SENTINEL);
    let u1 = s.handle_event(&CanvasEvent::MouseDown);
    assert_eq!(u1.mouse_pos, (50, 60));
    assert_eq!(u1.seed, (50, 60));
    let u2 = s.handle_event(&CanvasEvent::MouseUp);
    assert_eq!(u2.mouse_pos, SENTINEL);
    assert_eq!(u2.seed, (50, 60));
}

#[test]
fn press_during_drag_resnapshots_current_position() {
    let mut s = InteractionState::new();
    s.apply_event(&CanvasEvent::MouseMove(5, 6));
    s.apply_event(&CanvasEvent::MouseDown);
    s.apply_event(&CanvasEvent::MouseMove(9, 9));
    s.apply_event(&CanvasEvent::MouseDown);
    assert_eq!(s.start_mouse_pos, Some((9, 9)));
}
