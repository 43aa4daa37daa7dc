use mprocs::encode::encode_key;
use mprocs::event::AppEvent;
use mprocs::input_line::InputLine;
use mprocs::key::{print_key, Key, KeyCode};
use mprocs::keymap::{keymap_line, Keymap};
use mprocs::layout::{AppLayout, Rect};
use mprocs::proc::SpawnOutcome;
use mprocs::state::{KeymapGroup, Modal, State};
use mprocs::theme::Theme;
use mprocs::ui::{handle_input, MouseButton, MouseEvent, MouseKind, TermEvent, UiConfig};

#[test]
fn keys_encode_as_standard_sequences() {
    assert_eq!(encode_key(&Key::plain(KeyCode::Char('a'))), b"a".to_vec());
    assert_eq!(encode_key(&Key::ctrl(KeyCode::Char('c'))), b"\x03".to_vec());
    assert_eq!(encode_key(&Key::plain(KeyCode::Enter)), b"\r".to_vec());
    assert_eq!(encode_key(&Key::plain(KeyCode::Up)), b"\x1b[A".to_vec());
    assert_eq!(encode_key(&Key::ctrl(KeyCode::Right)), b"\x1b[1;5C".to_vec());
    assert_eq!(encode_key(&Key::plain(KeyCode::PageUp)), b"\x1b[5~".to_vec());
    assert_eq!(encode_key(&Key::plain(KeyCode::F(1))), b"\x1bOP".to_vec());
}

#[test]
fn key_labels() {
    assert_eq!(print_key(&Key::ctrl(KeyCode::Char('a'))), "C-a");
    assert_eq!(print_key(&Key::plain(KeyCode::PageDown)), "PgDn");
    assert_eq!(print_key(&Key::plain(KeyCode::F(10))), "F10");
}

#[test]
fn layout_splits_the_area() {
    let area = Rect::new(0, 0, 100, 40);
    let l = AppLayout::new(area, false, false, 30);
    assert_eq!(l.procs, Rect::new(0, 0, 30, 37));
    assert_eq!(l.term, Rect::new(30, 0, 70, 37));
    assert_eq!(l.keymap, Rect::new(0, 37, 100, 3));
    assert_eq!(l.zoom_banner.height, 0);
    assert_eq!(l.term_area(), Rect::new(31, 1, 68, 35));
}

#[test]
fn zoomed_layout_hides_list_and_help() {
    let area = Rect::new(0, 0, 100, 40);
    let l = AppLayout::new(area, true, false, 30);
    assert_eq!(l.procs.width, 0);
    assert_eq!(l.keymap.height, 0);
    assert_eq!(l.zoom_banner.height, 1);
    assert_eq!(l.term, Rect::new(0, 1, 100, 39));
}

#[test]
fn keymap_resolution_prefers_earlier_binds() {
    let mut map = Keymap::new();
    map.add(KeymapGroup::Procs, Key::plain(KeyCode::Char('q')), AppEvent::QuitOrAsk);
    map.add(KeymapGroup::Procs, Key::plain(KeyCode::Char('q')), AppEvent::ForceQuit);
    let got = map.resolve(KeymapGroup::Procs, &Key::plain(KeyCode::Char('q')));
    assert_eq!(got, Some(&AppEvent::QuitOrAsk));
    assert_eq!(map.resolve(KeymapGroup::Term, &Key::plain(KeyCode::Char('q'))), None);
}

#[test]
fn help_line_shows_bound_commands() {
    let mut map = Keymap::new();
    map.add(KeymapGroup::Procs, Key::plain(KeyCode::Char('q')), AppEvent::QuitOrAsk);
    map.add(KeymapGroup::Procs, Key::plain(KeyCode::Down), AppEvent::NextProc);
    let line = keymap_line(&map, KeymapGroup::Procs);
    assert_eq!(line.len(), 2);
    assert_eq!(line[0], ("q".to_string(), "Quit".to_string()));
    assert_eq!(line[1], ("Down".to_string(), "Next".to_string()));
}

#[test]
fn input_line_editing() {
    let mut l = InputLine::new();
    l.insert_char('h');
    l.insert_char('i');
    l.move_left();
    l.insert_char('u');
    assert_eq!(l.value(), "hui");
    l.move_home();
    l.delete();
    assert_eq!(l.value(), "ui");
    l.move_end();
    l.backspace();
    assert_eq!(l.value(), "u");
}

#[test]
fn add_proc_dialog_collects_a_command() {
    let mut s = State::new();
    let map = Keymap::new();
    let cfg = UiConfig::new();
    let area = Rect::new(0, 0, 80, 24);
    mprocs::app::handle_event(&mut s, &AppEvent::ShowAddProc);
    assert!(matches!(s.modal, Some(Modal::AddProc { .. })));
    for c in "ls".chars() {
        handle_input(&mut s, &TermEvent::Key(Key::plain(KeyCode::Char(c))), &map, &cfg, area);
    }
    let (_a, _ef, queued) = handle_input(
        &mut s,
        &TermEvent::Key(Key::plain(KeyCode::Enter)),
        &map,
        &cfg,
        area,
    );
    assert_eq!(queued, Some(AppEvent::AddProc { cmd: "ls".to_string() }));
    assert!(s.modal.is_none());
}

#[test]
fn quit_dialog_confirms_with_y() {
    let mut s = State::new();
    mprocs::app::handle_event(&mut s, &AppEvent::AddProc { cmd: "svc".to_string() });
    s.apply_spawned(0, SpawnOutcome::Spawned);
    mprocs::app::handle_event(&mut s, &AppEvent::QuitOrAsk);
    assert!(matches!(s.modal, Some(Modal::Quit)));
    let map = Keymap::new();
    let cfg = UiConfig::new();
    let area = Rect::new(0, 0, 80, 24);
    let (_a, _ef, queued) = handle_input(
        &mut s,
        &TermEvent::Key(Key::plain(KeyCode::Char('y'))),
        &map,
        &cfg,
        area,
    );
    assert_eq!(queued, Some(AppEvent::Quit));
    assert!(s.modal.is_none());
}

#[test]
fn dismissing_a_dialog_changes_nothing_else() {
    let mut s = State::new();
    mprocs::app::handle_event(&mut s, &AppEvent::ShowAddProc);
    let map = Keymap::new();
    let cfg = UiConfig::new();
    let area = Rect::new(0, 0, 80, 24);
    // while a modal is open, a bound-looking key only reaches the modal
    let (_a, _ef, queued) = handle_input(
        &mut s,
        &TermEvent::Key(Key::plain(KeyCode::Esc)),
        &map,
        &cfg,
        area,
    );
    assert_eq!(queued, None);
    assert!(s.modal.is_none());
    assert_eq!(s.procs.len(), 0);
}

#[test]
fn a_modal_swallows_mouse_input() {
    let mut s = State::new();
    mprocs::app::handle_event(&mut s, &AppEvent::AddProc { cmd: "svc".to_string() });
    s.apply_spawned(0, SpawnOutcome::Spawned);
    mprocs::app::handle_event(&mut s, &AppEvent::QuitOrAsk);
    assert!(matches!(s.modal, Some(Modal::Quit)));
    let map = Keymap::new();
    let cfg = UiConfig::new();
    let area = Rect::new(0, 0, 80, 24);
    // a click in the process list would normally move the focus there
    let ev = TermEvent::Mouse(MouseEvent {
        kind: MouseKind::Down(MouseButton::Left),
        column: 2,
        row: 2,
    });
    let before_scope = s.scope;
    let (_a, effects, queued) = handle_input(&mut s, &ev, &map, &cfg, area);
    assert!(effects.is_empty());
    assert_eq!(queued, None);
    assert_eq!(s.scope, before_scope);
    assert!(matches!(s.modal, Some(Modal::Quit)));
}

#[test]
fn resize_reaches_every_proc() {
    let mut s = State::new();
    mprocs::app::handle_event(&mut s, &AppEvent::AddProc { cmd: "one".to_string() });
    s.apply_spawned(0, SpawnOutcome::Spawned);
    let map = Keymap::new();
    let cfg = UiConfig::new();
    let area = Rect::new(0, 0, 80, 24);
    let (_a, effects, _q) = handle_input(&mut s, &TermEvent::Resize(100, 50), &map, &cfg, area);
    assert_eq!(effects.len(), 1);
    assert!(s.procs[0].rows > 0);
    assert_eq!(s.term_cols, s.procs[0].cols);
}

#[test]
fn wheel_scrolls_the_view_when_the_child_did_not_ask() {
    let mut s = State::new();
    mprocs::app::handle_event(&mut s, &AppEvent::AddProc { cmd: "logger".to_string() });
    s.apply_spawned(0, SpawnOutcome::Spawned);
    // enough output to build scrollback: the pane from handle_input's layout
    for _ in 0..40 {
        s.apply_output(0, b"line\r\n");
    }
    let before = match &s.procs[0].state {
        mprocs::proc::ProcState::Running(sc) => sc.offset,
        _ => panic!("running"),
    };
    assert_eq!(before, 0);
    let map = Keymap::new();
    let cfg = UiConfig::new();
    let area = Rect::new(0, 0, 80, 24);
    let ev = TermEvent::Mouse(MouseEvent { kind: MouseKind::ScrollUp, column: 40, row: 5 });
    handle_input(&mut s, &ev, &map, &cfg, area);
    let after = match &s.procs[0].state {
        mprocs::proc::ProcState::Running(sc) => sc.offset,
        _ => panic!("running"),
    };
    assert_eq!(after, cfg.mouse_scroll_speed);
}

#[test]
fn mouse_reports_reach_a_child_that_asked() {
    let mut s = State::new();
    mprocs::app::handle_event(&mut s, &AppEvent::AddProc { cmd: "tui-app".to_string() });
    s.apply_spawned(0, SpawnOutcome::Spawned);
    // the child switches mouse reporting on, in the extended encoding
    s.apply_output(0, b"\x1b[?1000h\x1b[?1006h");
    let map = Keymap::new();
    let cfg = UiConfig::new();
    let area = Rect::new(0, 0, 80, 24);
    let ev = TermEvent::Mouse(MouseEvent {
        kind: MouseKind::Down(MouseButton::Left),
        column: 40,
        row: 5,
    });
    let (_a, effects, _q) = handle_input(&mut s, &ev, &map, &cfg, area);
    assert_eq!(effects.len(), 1);
    match &effects[0] {
        mprocs::event::Effect::WriteBytes { id, bytes } => {
            assert_eq!(*id, 0);
            // pane-relative, one-based coordinates
            assert_eq!(bytes.as_slice(), &b"\x1b[<0;10;5M"[..]);
        },
        other => panic!("unexpected effect {:?}", other),
    }
    // a child that never asked gets nothing; the click only moves the focus
    let mut s2 = State::new();
    mprocs::app::handle_event(&mut s2, &AppEvent::AddProc { cmd: "plain".to_string() });
    s2.apply_spawned(0, SpawnOutcome::Spawned);
    let (_a, effects2, _q) = handle_input(&mut s2, &ev, &map, &cfg, area);
    assert!(effects2.is_empty());
    assert_eq!(s2.scope, mprocs::state::Scope::Term);
}

#[test]
fn theme_styles() {
    let t = Theme::default();
    let active = t.style(true);
    let idle = t.style(false);
    assert_ne!(active, idle);
    assert!(t.copy_mode_label().bold);
    assert_eq!(t.get_procs_item(true), t.procs_item_active);
}
