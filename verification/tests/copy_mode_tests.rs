use mprocs::app::handle_event;
use mprocs::event::{AppEvent, CopyMove, Effect, LoopAction};
use mprocs::proc::{CmdSpec, CopyMode, ProcConfig, SpawnOutcome, StopPolicy};
use mprocs::state::{Scope, State};

fn one_proc_with_output(bytes: &[u8]) -> State {
    let mut s = State::new();
    handle_event(&mut s, &AppEvent::AddProc { cmd: "demo".to_string() });
    s.apply_spawned(0, SpawnOutcome::Spawned);
    s.apply_output(0, bytes);
    s
}

fn up(s: &mut State) {
    handle_event(s, &AppEvent::CopyModeMove { dir: CopyMove::Up });
}

fn right(s: &mut State) {
    handle_event(s, &AppEvent::CopyModeMove { dir: CopyMove::Right });
}

fn copied_text(effects: &[Effect]) -> String {
    match &effects[0] {
        Effect::CopyText { text } => text.clone(),
        other => panic!("expected copied text, got {:?}", other),
    }
}

#[test]
fn enter_focuses_the_terminal_and_anchors_bottom_left() {
    let mut s = one_proc_with_output(b"hello");
    let (a, _e) = handle_event(&mut s, &AppEvent::CopyModeEnter);
    assert_eq!(a, LoopAction::Render);
    assert_eq!(s.scope, Scope::Term);
    match &s.procs[0].copy_mode {
        CopyMode::Anchored(_snap, pos) => {
            assert_eq!(pos.x, 0);
            assert_eq!(pos.y as usize, s.procs[0].rows - 1);
        },
        other_mode => panic!("expected an anchored selection, not {:?}", matches!(other_mode, CopyMode::Inactive(_))),
    }
}

#[test]
fn enter_needs_a_running_proc() {
    let mut s = State::new();
    handle_event(&mut s, &AppEvent::AddProc { cmd: "demo".to_string() });
    // the spawn never completed, so the proc is not running
    let (_a, _e) = handle_event(&mut s, &AppEvent::CopyModeEnter);
    assert!(matches!(s.procs[0].copy_mode, CopyMode::Inactive(_)));
}

#[test]
fn copy_round_trip_uses_the_snapshot() {
    let mut s = one_proc_with_output(b"hello world");
    handle_event(&mut s, &AppEvent::CopyModeEnter);
    // walk to the output line and select the first five columns
    for _ in 0..23 {
        up(&mut s);
    }
    handle_event(&mut s, &AppEvent::CopyModeEnd);
    for _ in 0..4 {
        right(&mut s);
    }
    // output that arrives after entering must not show in the copy
    s.apply_output(0, b"\rXXXXXXXXXXX");
    let (_a, effects) = handle_event(&mut s, &AppEvent::CopyModeCopy);
    assert_eq!(copied_text(&effects), "hello");
    assert!(matches!(s.procs[0].copy_mode, CopyMode::Inactive(_)));
}

#[test]
fn selection_is_order_invariant() {
    // selecting forward and backward over the same two points
    let mut s1 = one_proc_with_output(b"abcdef");
    handle_event(&mut s1, &AppEvent::CopyModeEnter);
    for _ in 0..23 {
        up(&mut s1);
    }
    handle_event(&mut s1, &AppEvent::CopyModeEnd);
    for _ in 0..3 {
        right(&mut s1);
    }
    let (_a, ef_forward) = handle_event(&mut s1, &AppEvent::CopyModeCopy);

    let mut s2 = one_proc_with_output(b"abcdef");
    handle_event(&mut s2, &AppEvent::CopyModeEnter);
    for _ in 0..23 {
        up(&mut s2);
    }
    for _ in 0..3 {
        right(&mut s2);
    }
    handle_event(&mut s2, &AppEvent::CopyModeEnd);
    // move back to the left edge: the end travels the other way
    for _ in 0..3 {
        handle_event(&mut s2, &AppEvent::CopyModeMove { dir: CopyMove::Left });
    }
    let (_a, ef_backward) = handle_event(&mut s2, &AppEvent::CopyModeCopy);
    assert_eq!(copied_text(&ef_forward), copied_text(&ef_backward));
    assert_eq!(copied_text(&ef_forward), "abcd");
}

#[test]
fn deselecting_leaves_copy_mode() {
    let mut s = one_proc_with_output(b"abc");
    handle_event(&mut s, &AppEvent::AddProc { cmd: "other".to_string() });
    s.apply_spawned(1, SpawnOutcome::Spawned);
    handle_event(&mut s, &AppEvent::SelectProc { index: 0 });
    handle_event(&mut s, &AppEvent::CopyModeEnter);
    assert!(!matches!(s.procs[0].copy_mode, CopyMode::Inactive(_)));
    // moving the selection to another process ends the first one's copy mode
    handle_event(&mut s, &AppEvent::NextProc);
    assert!(matches!(s.procs[0].copy_mode, CopyMode::Inactive(_)));
}

#[test]
fn child_exit_leaves_copy_mode() {
    let mut s = one_proc_with_output(b"abc");
    handle_event(&mut s, &AppEvent::CopyModeEnter);
    assert!(!matches!(s.procs[0].copy_mode, CopyMode::Inactive(_)));
    mprocs::app::handle_proc_update(&mut s, 0, mprocs::event::ProcUpdate::Stopped);
    assert!(matches!(s.procs[0].copy_mode, CopyMode::Inactive(_)));
}

#[test]
fn moves_are_bounded_by_the_snapshot() {
    // no history exists when copy mode starts; history that the live screen
    // gains afterwards must not widen the selection's range
    let mut s = one_proc_with_output(b"start");
    handle_event(&mut s, &AppEvent::CopyModeEnter);
    for _ in 0..40 {
        s.apply_output(0, b"line\r\n");
    }
    for _ in 0..100 {
        up(&mut s);
    }
    match &s.procs[0].copy_mode {
        CopyMode::Anchored(_snap, pos) => assert_eq!(pos.y, 0),
        _ => panic!("still anchored"),
    }
}

#[test]
fn leave_discards_the_selection() {
    let mut s = one_proc_with_output(b"abc");
    handle_event(&mut s, &AppEvent::CopyModeEnter);
    handle_event(&mut s, &AppEvent::CopyModeLeave);
    assert!(matches!(s.procs[0].copy_mode, CopyMode::Inactive(_)));
    // copying now hands nothing to the clipboard
    let (_a, effects) = handle_event(&mut s, &AppEvent::CopyModeCopy);
    assert!(effects.is_empty());
}

#[test]
fn moves_clamp_to_the_screen() {
    let mut s = one_proc_with_output(b"x");
    handle_event(&mut s, &AppEvent::CopyModeEnter);
    // walking far past the edges stays inside
    for _ in 0..100 {
        handle_event(&mut s, &AppEvent::CopyModeMove { dir: CopyMove::Down });
    }
    for _ in 0..300 {
        handle_event(&mut s, &AppEvent::CopyModeMove { dir: CopyMove::Right });
    }
    match &s.procs[0].copy_mode {
        CopyMode::Anchored(_snap, pos) => {
            assert_eq!(pos.y as usize, s.procs[0].rows - 1);
            assert_eq!(pos.x as usize, s.procs[0].cols - 1);
        },
        _ => panic!("still anchored"),
    }
}
