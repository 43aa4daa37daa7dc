use mprocs::app::{handle_event, handle_proc_update, should_exit, start_procs};
use mprocs::event::{AppEvent, Effect, LoopAction, ProcUpdate, SigKind};
use mprocs::proc::{CmdSpec, Proc, ProcConfig, ProcState, SpawnOutcome, StopPolicy};
use mprocs::state::{Modal, Scope, State};

fn cfg(name: &str, autostart: bool) -> ProcConfig {
    ProcConfig {
        name: name.to_string(),
        cmd: CmdSpec::Shell { shell: name.to_string() },
        cwd: None,
        env: Vec::new(),
        autostart,
        stop: StopPolicy::default(),
    }
}

fn booted(names: &[&str]) -> State {
    let mut s = State::new();
    let cfgs: Vec<ProcConfig> = names.iter().map(|n| cfg(n, true)).collect();
    let effects = start_procs(&mut s, cfgs, 24, 80);
    assert_eq!(effects.len(), names.len());
    for i in 0..names.len() {
        s.apply_spawned(i, SpawnOutcome::Spawned);
    }
    s
}

#[test]
fn start_while_running_is_a_noop() {
    let mut p = Proc::new(7, cfg("web", true), 24, 80);
    assert!(!p.is_up());
    p.start(SpawnOutcome::Spawned);
    assert!(p.is_up());
    // starting again changes nothing
    p.start(SpawnOutcome::Failed("boom".to_string()));
    assert!(p.is_up());
}

#[test]
fn failed_spawn_enters_the_error_state() {
    let mut p = Proc::new(7, cfg("web", true), 24, 80);
    p.start(SpawnOutcome::Failed("no such file".to_string()));
    assert!(!p.is_up());
    assert!(matches!(p.state, ProcState::Error(_)));
    // a fresh start attempt is allowed from the error state
    p.start(SpawnOutcome::Spawned);
    assert!(p.is_up());
}

#[test]
fn stop_only_signals_until_the_exit_is_observed() {
    let mut p = Proc::new(3, cfg("db", true), 24, 80);
    p.start(SpawnOutcome::Spawned);
    let e = p.stop();
    assert_eq!(e, Some(Effect::Signal { id: 3, sig: SigKind::Terminate }));
    assert!(p.is_up());
    p.on_stopped();
    assert!(!p.is_up());
    assert!(matches!(p.state, ProcState::NotRunning));
    // a stop while down does nothing
    assert_eq!(p.stop(), None);
}

#[test]
fn restart_spawns_exactly_once_after_the_stop() {
    let mut s = booted(&["web"]);
    let (a, ef) = handle_event(&mut s, &AppEvent::RestartProc);
    assert_eq!(a, LoopAction::Skip);
    assert_eq!(ef, vec![Effect::Signal { id: 0, sig: SigKind::Terminate }]);
    assert!(s.procs[0].to_restart);
    let (a2, ef2) = handle_proc_update(&mut s, 0, ProcUpdate::Stopped);
    assert_eq!(a2, LoopAction::Render);
    assert_eq!(ef2, vec![Effect::Spawn { id: 0 }]);
    assert!(!s.procs[0].to_restart);
    assert!(matches!(s.procs[0].state, ProcState::NotRunning));
    // a second stop notification spawns nothing more
    let (_a3, ef3) = handle_proc_update(&mut s, 0, ProcUpdate::Stopped);
    assert!(ef3.is_empty());
}

#[test]
fn two_procs_scenario() {
    // both autostart; "web" is focused first
    let mut s = booted(&["web", "db"]);
    assert!(s.procs[0].is_up());
    assert!(s.procs[1].is_up());
    assert_eq!(s.selected, 0);
    assert_eq!(s.procs[0].name, "web");
    let (_a, _e) = handle_event(&mut s, &AppEvent::NextProc);
    assert_eq!(s.selected, 1);
    assert_eq!(s.procs[1].name, "db");
    let (_a, ef) = handle_event(&mut s, &AppEvent::TermProc);
    assert_eq!(ef, vec![Effect::Signal { id: 1, sig: SigKind::Terminate }]);
    let (_a, _e) = handle_proc_update(&mut s, 1, ProcUpdate::Stopped);
    assert!(matches!(s.procs[1].state, ProcState::NotRunning));
    assert!(s.procs[0].is_up());
}

#[test]
fn removal_is_refused_while_running() {
    let mut s = booted(&["web", "db"]);
    let (_a, _e) = handle_event(&mut s, &AppEvent::RemoveProc { id: 0 });
    assert_eq!(s.procs.len(), 2);
    // once it is down, removal goes through
    let (_a, _e) = handle_proc_update(&mut s, 0, ProcUpdate::Stopped);
    let (_a, _e) = handle_event(&mut s, &AppEvent::RemoveProc { id: 0 });
    assert_eq!(s.procs.len(), 1);
    assert_eq!(s.procs[0].name, "db");
}

#[test]
fn output_marks_unfocused_procs_changed() {
    let mut s = booted(&["web", "db"]);
    // output on the unfocused process raises its activity flag
    s.apply_output(1, b"hi");
    let (a, _e) = handle_proc_update(&mut s, 1, ProcUpdate::Render);
    assert_eq!(a, LoopAction::Render);
    assert!(s.procs[1].changed);
    // the focused process's own output never raises its flag
    s.apply_output(0, b"hi");
    let (_a, _e) = handle_proc_update(&mut s, 0, ProcUpdate::Render);
    assert!(!s.procs[0].changed);
    // selecting the process clears the flag
    handle_event(&mut s, &AppEvent::NextProc);
    assert!(!s.procs[1].changed);
}

#[test]
fn removal_keeps_the_selection_in_range() {
    let mut s = booted(&["web", "db"]);
    handle_event(&mut s, &AppEvent::SelectProc { index: 1 });
    handle_proc_update(&mut s, 1, ProcUpdate::Stopped);
    handle_event(&mut s, &AppEvent::RemoveProc { id: 1 });
    assert_eq!(s.procs.len(), 1);
    assert_eq!(s.selected, 0);
}

#[test]
fn quit_confirmation_scenario() {
    let mut s = booted(&["web"]);
    // asking to quit with a running process opens the confirmation
    let (a, _e) = handle_event(&mut s, &AppEvent::QuitOrAsk);
    assert_eq!(a, LoopAction::Render);
    assert!(matches!(s.modal, Some(Modal::Quit)));
    assert!(!s.quitting);
    // confirming sends the quit command, which stops the process
    s.modal = None;
    let (a, ef) = handle_event(&mut s, &AppEvent::Quit);
    assert_eq!(a, LoopAction::Render);
    assert!(s.quitting);
    assert_eq!(ef, vec![Effect::Signal { id: 0, sig: SigKind::Terminate }]);
    // the loop keeps going until the process reports its stop
    assert!(!should_exit(&s, LoopAction::Render));
    let (a2, _e) = handle_proc_update(&mut s, 0, ProcUpdate::Stopped);
    assert!(should_exit(&s, a2));
}

#[test]
fn quit_without_running_procs_is_direct() {
    let mut s = State::new();
    let (_a, _e) = handle_event(&mut s, &AppEvent::QuitOrAsk);
    assert!(s.quitting);
    assert!(s.modal.is_none());
}

#[test]
fn force_quit_kills_and_exits() {
    let mut s = booted(&["web"]);
    let (a, ef) = handle_event(&mut s, &AppEvent::ForceQuit);
    assert_eq!(a, LoopAction::ForceQuit);
    assert_eq!(ef, vec![Effect::Signal { id: 0, sig: SigKind::Kill }]);
    assert!(should_exit(&s, a));
}

#[test]
fn add_proc_appends_and_spawns() {
    let mut s = State::new();
    let (a, ef) = handle_event(&mut s, &AppEvent::AddProc { cmd: "echo hi".to_string() });
    assert_eq!(a, LoopAction::Render);
    assert_eq!(ef, vec![Effect::Spawn { id: 0 }]);
    assert_eq!(s.procs.len(), 1);
    assert_eq!(s.procs[0].name, "echo hi");
    assert!(matches!(s.procs[0].state, ProcState::NotRunning));
    assert!(s.procs[0].autostart);
}

#[test]
fn selection_wraps_modulo_the_count() {
    let mut s = booted(&["a", "b", "c"]);
    let (_a, _e) = handle_event(&mut s, &AppEvent::SelectProc { index: 7 });
    assert_eq!(s.selected, 1);
    let (_a, _e) = handle_event(&mut s, &AppEvent::PrevProc);
    assert_eq!(s.selected, 0);
    let (_a, _e) = handle_event(&mut s, &AppEvent::PrevProc);
    assert_eq!(s.selected, 2);
}

#[test]
fn batch_applies_in_order_and_force_quit_cuts() {
    let mut s = booted(&["a", "b"]);
    let (a, _e) = handle_event(
        &mut s,
        &AppEvent::Batch {
            cmds: vec![AppEvent::NextProc, AppEvent::FocusTerm],
        },
    );
    assert_eq!(a, LoopAction::Render);
    assert_eq!(s.selected, 1);
    assert_eq!(s.scope, Scope::Term);
    let (a, _e) = handle_event(
        &mut s,
        &AppEvent::Batch {
            cmds: vec![AppEvent::ForceQuit, AppEvent::FocusProcs],
        },
    );
    assert_eq!(a, LoopAction::ForceQuit);
    // the command after the force quit was not applied
    assert_eq!(s.scope, Scope::Term);
}

#[test]
fn focus_commands() {
    let mut s = State::new();
    assert_eq!(s.scope, Scope::Procs);
    handle_event(&mut s, &AppEvent::ToggleFocus);
    assert_eq!(s.scope, Scope::Term);
    handle_event(&mut s, &AppEvent::Zoom);
    assert_eq!(s.scope, Scope::TermZoom);
    handle_event(&mut s, &AppEvent::ToggleFocus);
    assert_eq!(s.scope, Scope::Procs);
}
