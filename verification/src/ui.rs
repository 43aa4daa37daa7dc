//! Terminal input handling.
//!
//! The shell decodes raw terminal events into [`TermEvent`]s; this module
//! resolves them — modal dialogs first, then the key-binding table, then the
//! fall-through to the focused terminal — into state changes, effects, and
//! commands to enqueue.

use vstd::prelude::*;

use crate::app::{handle_event, handles, scroll_rel};
use crate::event::{AppEvent, Effect, LoopAction};
use crate::input_line::{InputLine, INPUT_LINE_MAX};
use crate::key::{Key, KeyCode};
use crate::keymap::{resolve_spec, Bind, Keymap};
use crate::layout::{layout_spec, AppLayout, Rect};
use crate::proc::Proc;
use crate::state::{keymap_group_spec, selected_to, KeymapGroup, Modal, Scope, State};

verus! {

/// A mouse button.
#[derive(Clone, Copy, Debug, PartialEq, Eq, Structural)]
pub enum MouseButton {
    Left,
    Right,
    Middle,
}

/// What a mouse event reports.
#[derive(Clone, Copy, Debug, PartialEq, Eq, Structural)]
pub enum MouseKind {
    Down(MouseButton),
    Up,
    Drag,
    Moved,
    ScrollDown,
    ScrollUp,
}

/// A mouse event at a cell.
#[derive(Clone, Copy, Debug, PartialEq, Eq, Structural)]
pub struct MouseEvent {
    pub kind: MouseKind,
    pub column: u16,
    pub row: u16,
}

/// One decoded terminal input event.
#[derive(Clone, Copy, Debug, PartialEq, Eq, Structural)]
pub enum TermEvent {
    Key(Key),
    Mouse(MouseEvent),
    Resize(u16, u16),
}

/// The interface preferences that input handling and layout need.
#[derive(Clone, Copy, Debug, PartialEq, Eq, Structural)]
pub struct UiConfig {
    pub proc_list_width: u16,
    pub hide_keymap_window: bool,
    pub mouse_scroll_speed: usize,
}

impl UiConfig {
    /// The defaults: a 30-column process list, the help bar shown, three
    /// lines per wheel tick.
    pub fn new() -> (c: UiConfig)
        ensures
            c == (UiConfig { proc_list_width: 30u16, hide_keymap_window: false, mouse_scroll_speed: 3usize }),
    {
        UiConfig { proc_list_width: 30, hide_keymap_window: false, mouse_scroll_speed: 3 }
    }
}


/// A key press without any modifier.
pub open spec fn plain_key(k: Key) -> bool {
    !k.ctrl && !k.alt && !k.shift
}

/// Relates the add-dialog's input line before and after one key: printable
/// characters insert at the cursor, deletions and movements act around it,
/// anything else leaves the line alone. Only keys without control or alt
/// reach the line.
pub open spec fn line_edited(before: InputLine, k: Key, after: InputLine) -> bool {
    if k.ctrl || k.alt {
        after == before
    } else {
        match k.code {
            KeyCode::Char(c) => {
                if before.chars@.len() < INPUT_LINE_MAX {
                    after.chars@ == before.chars@.insert(before.cursor as int, c)
                        && after.cursor == before.cursor + 1
                } else {
                    after == before
                }
            },
            KeyCode::Backspace => {
                if before.cursor > 0 {
                    after.chars@ == before.chars@.remove(before.cursor - 1) && after.cursor
                        == before.cursor - 1
                } else {
                    after == before
                }
            },
            KeyCode::Delete => {
                if before.cursor < before.chars@.len() {
                    after.chars@ == before.chars@.remove(before.cursor as int) && after.cursor
                        == before.cursor
                } else {
                    after == before
                }
            },
            KeyCode::Left => after.chars@ == before.chars@ && after.cursor == (if before.cursor
                > 0 {
                before.cursor - 1
            } else {
                0int
            }),
            KeyCode::Right => after.chars@ == before.chars@ && after.cursor == (if before.cursor
                < before.chars@.len() {
                before.cursor + 1
            } else {
                before.chars@.len() as int
            }),
            KeyCode::Home => after.chars@ == before.chars@ && after.cursor == 0,
            KeyCode::End => after.chars@ == before.chars@ && after.cursor
                == before.chars@.len(),
            _ => after == before,
        }
    }
}

/// The behaviour of a key press while a modal dialog is open: the modal
/// takes the key first and nothing else changes. Confirmation keys close
/// the dialog and queue one command for the loop; the add dialog's other
/// keys edit its text line.
pub open spec fn modal_rel(
    pre: State,
    k: Key,
    post: State,
    action: LoopAction,
    effects: Seq<Effect>,
    queued: Option<AppEvent>,
) -> bool {
    &&& effects.len() == 0
    &&& match pre.modal {
        Some(Modal::AddProc { input }) => {
            if plain_key(k) && k.code == KeyCode::Enter {
                &&& post == (State { modal: Option::None, ..pre })
                &&& action == LoopAction::Skip
                &&& match queued {
                    Some(AppEvent::AddProc { cmd }) => cmd@ == input.chars@,
                    _ => false,
                }
            } else if plain_key(k) && k.code == KeyCode::Esc {
                &&& post == (State { modal: Option::None, ..pre })
                &&& action == LoopAction::Render
                &&& queued is None
            } else {
                &&& action == LoopAction::Render
                &&& queued is None
                &&& match post.modal {
                    Some(Modal::AddProc { input: edited }) => line_edited(input, k, edited),
                    _ => false,
                }
                &&& post == (State { modal: post.modal, ..pre })
            }
        },
        Some(Modal::RemoveProc { id }) => {
            if plain_key(k) && k.code == KeyCode::Char('y') {
                &&& post == (State { modal: Option::None, ..pre })
                &&& action == LoopAction::Skip
                &&& queued == Some(AppEvent::RemoveProc { id })
            } else if plain_key(k) && (k.code == KeyCode::Esc || k.code == KeyCode::Char('n')) {
                &&& post == (State { modal: Option::None, ..pre })
                &&& action == LoopAction::Render
                &&& queued is None
            } else {
                post == pre && action == LoopAction::Skip && queued is None
            }
        },
        Some(Modal::Quit) => {
            if plain_key(k) && k.code == KeyCode::Char('y') {
                &&& post == (State { modal: Option::None, ..pre })
                &&& action == LoopAction::Skip
                &&& queued == Some(AppEvent::Quit)
            } else if plain_key(k) && (k.code == KeyCode::Esc || k.code == KeyCode::Char('n')) {
                &&& post == (State { modal: Option::None, ..pre })
                &&& action == LoopAction::Render
                &&& queued is None
            } else {
                post == pre && action == LoopAction::Skip && queued is None
            }
        },
        _ => post == pre,
    }
}

/// Relates a process before and after a resize of the terminal pane.
pub open spec fn proc_resized(p: Proc, rows: usize, cols: usize, q: Proc) -> bool {
    &&& q == (Proc { state: q.state, rows: rows, cols: cols, ..p })
    &&& q.state.life() == p.state.life()
    &&& p.state.is_running() ==> q.state is Running && crate::screen::resized_view(
        p.state.screen_view(),
        q.state.screen_view(),
        rows,
        cols,
    )
    &&& !p.state.is_running() ==> q.state == p.state
}

/// The pseudo-terminal resize requests for every running process, in list
/// order.
pub open spec fn resize_effects(procs: Seq<Proc>, i: int, rows: usize, cols: usize) -> Seq<
    Effect,
>
    decreases procs.len() - i,
{
    if i < 0 || i >= procs.len() {
        Seq::empty()
    } else {
        (if procs[i].state.is_running() {
            seq![Effect::ResizePty { id: procs[i].id, rows, cols }]
        } else {
            Seq::empty()
        }) + resize_effects(procs, i + 1, rows, cols)
    }
}

/// The behaviour of a terminal-size change: every process is resized to the
/// new pane size, which is also recorded for processes created later, and
/// the shell is asked to resize each running child's pseudo-terminal.
pub open spec fn resized(
    pre: State,
    post: State,
    rows: usize,
    cols: usize,
    effects: Seq<Effect>,
) -> bool {
    &&& post.term_rows == rows
    &&& post.term_cols == cols
    &&& post.procs@.len() == pre.procs@.len()
    &&& (forall|k: int|
        0 <= k < pre.procs@.len() ==> proc_resized(
            pre.procs@[k],
            rows,
            cols,
            #[trigger] post.procs@[k],
        ))
    &&& post == (State { procs: post.procs, term_rows: rows, term_cols: cols, ..pre })
    &&& effects == resize_effects(pre.procs@, 0, rows, cols)
}

/// The behaviour of a mouse event outside any modal: pointer movement does
/// nothing; in the terminal pane a press focuses it, and the event is
/// forwarded to the child as an extended mouse report when the child asked
/// for mouse reporting — otherwise the wheel scrolls the selected terminal;
/// in the process list a press focuses it, a left click selects the entry
/// under the pointer, and the wheel walks the selection without wrapping.
pub open spec fn mouse_rel(
    pre: State,
    m: MouseEvent,
    cfg: UiConfig,
    area: Rect,
    post: State,
    action: LoopAction,
    effects: Seq<Effect>,
) -> bool {
    if m.kind is Moved {
        post == pre && action == LoopAction::Skip && effects.len() == 0
    } else {
        let l = layout_spec(
            area,
            pre.scope.is_zoomed_spec(),
            cfg.hide_keymap_window,
            cfg.proc_list_width,
        );
        let ta = l.term.inner_spec();
        if ta.hit_spec(m.column, m.row) {
            let mid = if pre.scope is Procs && m.kind is Down {
                State { scope: Scope::Term, ..pre }
            } else {
                pre
            };
            let fwd = mid.has_current() && mid.current_spec().state.is_running()
                && mid.current_spec().state.screen_view().mouse_on
                && mid.current_spec().state.screen_view().mouse_sgr;
            &&& action == LoopAction::Render
            &&& if fwd {
                &&& post == mid
                &&& effects.len() == 1
                &&& match effects[0] {
                    Effect::WriteBytes { id, bytes } => id == mid.current_spec().id && bytes@
                        == crate::encode::mouse_bytes(
                        m.kind,
                        (m.column - ta.x) as u16,
                        (m.row - ta.y) as u16,
                    ),
                    _ => false,
                }
            } else {
                &&& effects.len() == 0
                &&& match m.kind {
                    MouseKind::ScrollUp => scroll_rel(
                        mid,
                        post,
                        if mid.has_current() {
                            LoopAction::Render
                        } else {
                            LoopAction::Skip
                        },
                        Seq::empty(),
                        true,
                        cfg.mouse_scroll_speed as int,
                    ),
                    MouseKind::ScrollDown => scroll_rel(
                        mid,
                        post,
                        if mid.has_current() {
                            LoopAction::Render
                        } else {
                            LoopAction::Skip
                        },
                        Seq::empty(),
                        false,
                        cfg.mouse_scroll_speed as int,
                    ),
                    _ => post == mid,
                }
            }
        } else if l.procs.hit_spec(m.column, m.row) {
            let mid = if pre.scope is Term && m.kind is Down {
                State { scope: Scope::Procs, ..pre }
            } else {
                pre
            };
            &&& action == LoopAction::Render
            &&& effects.len() == 0
            &&& match m.kind {
                MouseKind::Down(MouseButton::Left) => {
                    if m.row > l.procs.y && (m.row - l.procs.y - 1) < mid.procs@.len() {
                        selected_to(mid, (m.row - l.procs.y - 1) as usize, post)
                    } else {
                        post == mid
                    }
                },
                MouseKind::ScrollDown => {
                    if mid.procs@.len() > 0 && mid.selected < mid.procs@.len() - 1 {
                        selected_to(mid, (mid.selected + 1) as usize, post)
                    } else {
                        post == mid
                    }
                },
                MouseKind::ScrollUp => {
                    if mid.selected > 0 && mid.procs@.len() > 0 {
                        selected_to(mid, (mid.selected - 1) as usize, post)
                    } else {
                        post == mid
                    }
                },
                _ => post == mid,
            }
        } else {
            post == pre && action == LoopAction::Render && effects.len() == 0
        }
    }
}

/// The whole behaviour of [`handle_input`]: an open modal intercepts all
/// pointer and key input — keys act on the modal alone, mouse events are
/// swallowed; a size change still reaches every process, deliberately, so
/// the display cannot go stale behind a dialog. Without a modal, keys go
/// through the binding table of the current scope and are handled exactly
/// as [`handles`] says; unbound keys are forwarded to the focused terminal,
/// or dropped when the process list has the focus; mouse and resize events
/// act per [`mouse_rel`] and [`resized`].
pub open spec fn input_rel(
    pre: State,
    ev: TermEvent,
    binds: Seq<Bind>,
    cfg: UiConfig,
    area: Rect,
    post: State,
    action: LoopAction,
    effects: Seq<Effect>,
    queued: Option<AppEvent>,
) -> bool {
    if pre.modal is Some && ev is Key {
        modal_rel(pre, ev->Key_0, post, action, effects, queued)
    } else if pre.modal is Some && ev is Mouse {
        post == pre && action == LoopAction::Skip && effects.len() == 0 && queued is None
    } else {
        match ev {
            TermEvent::Key(k) => {
                &&& queued is None
                &&& match resolve_spec(binds, keymap_group_spec(pre), k) {
                    Some(b) => handles(pre, b, post, action, effects),
                    None => match pre.scope {
                        Scope::Procs => post == pre && action == LoopAction::Skip
                            && effects.len() == 0,
                        _ => handles(pre, AppEvent::SendKey { key: k }, post, action, effects),
                    },
                }
            },
            TermEvent::Mouse(m) => queued is None && mouse_rel(
                pre,
                m,
                cfg,
                area,
                post,
                action,
                effects,
            ),
            TermEvent::Resize(w, h) => {
                let ta = layout_spec(
                    Rect { x: 0u16, y: 0u16, width: w, height: h },
                    pre.scope.is_zoomed_spec(),
                    cfg.hide_keymap_window,
                    cfg.proc_list_width,
                ).term.inner_spec();
                &&& queued is None
                &&& action == LoopAction::Render
                &&& resized(pre, post, ta.height as usize, ta.width as usize, effects)
            },
        }
    }
}

/// Resolves one terminal input event. An open modal intercepts keys and
/// mouse input; only a size change passes through it. Other keys go
/// through the binding table of the current scope; unbound keys are
/// forwarded to the focused terminal. The third result is a command the
/// caller must feed back through the command queue, preserving the order
/// the original events arrived in.
pub fn handle_input(
    s: &mut State,
    ev: &TermEvent,
    map: &Keymap,
    cfg: &UiConfig,
    area: Rect,
) -> (r: (LoopAction, Vec<Effect>, Option<AppEvent>))
    requires
        old(s).wf(),
        area.x as int + area.width as int <= u16::MAX,
        area.y as int + area.height as int <= u16::MAX,
    ensures
        final(s).wf(),
        input_rel(*old(s), *ev, map.binds@, *cfg, area, *final(s), r.0, r.1@, r.2),
{
    let modal_open = matches!(&s.modal, Some(_));
    if modal_open {
        if let TermEvent::Key(k) = ev {
            return modal_key(s, k);
        }
        if matches!(ev, TermEvent::Mouse(_)) {
            return (LoopAction::Skip, Vec::new(), None);
        }
    }
    match ev {
        TermEvent::Key(k) => {
            let group = s.get_keymap_group();
            match map.resolve(group, k) {
                Some(bound) => {
                    let out = handle_event(s, bound);
                    (out.0, out.1, None)
                },
                None => {
                    match s.scope {
                        Scope::Procs => (LoopAction::Skip, Vec::new(), None),
                        Scope::Term | Scope::TermZoom => {
                            let out = handle_event(s, &AppEvent::SendKey { key: *k });
                            (out.0, out.1, None)
                        },
                    }
                },
            }
        },
        TermEvent::Mouse(m) => {
            let out = mouse_input(s, m, cfg, area);
            (out.0, out.1, None)
        },
        TermEvent::Resize(w, h) => {
            let layout = AppLayout::new(
                Rect::new(0, 0, *w, *h),
                s.scope.is_zoomed(),
                cfg.hide_keymap_window,
                cfg.proc_list_width,
            );
            let ta = layout.term_area();
            let ef = resize_procs(s, ta.height as usize, ta.width as usize);
            (LoopAction::Render, ef, None)
        },
    }
}

/// A key press while a modal dialog is open.
fn modal_key(s: &mut State, k: &Key) -> (r: (LoopAction, Vec<Effect>, Option<AppEvent>))
    requires
        old(s).wf(),
        old(s).modal is Some,
    ensures
        final(s).wf(),
        modal_rel(*old(s), *k, *final(s), r.0, r.1@, r.2),
{
    let plain = !k.ctrl && !k.alt;
    let is_add = matches!(&s.modal, Some(Modal::AddProc { .. }));
    if is_add {
        if plain && !k.shift && matches!(k.code, KeyCode::Enter) {
            let cmd = match &s.modal {
                Some(Modal::AddProc { input }) => input.value(),
                _ => String::new(),
            };
            s.modal = None;
            return (LoopAction::Skip, Vec::new(), Some(AppEvent::AddProc { cmd }));
        }
        if plain && !k.shift && matches!(k.code, KeyCode::Esc) {
            s.modal = None;
            return (LoopAction::Render, Vec::new(), None);
        }
        match &mut s.modal {
            Some(Modal::AddProc { input }) => {
                if plain {
                    match k.code {
                        KeyCode::Char(c) => input.insert_char(c),
                        KeyCode::Backspace => input.backspace(),
                        KeyCode::Delete => input.delete(),
                        KeyCode::Left => input.move_left(),
                        KeyCode::Right => input.move_right(),
                        KeyCode::Home => input.move_home(),
                        KeyCode::End => input.move_end(),
                        _ => {},
                    }
                }
            },
            _ => {},
        }
        return (LoopAction::Render, Vec::new(), None);
    }
    let remove_id: Option<usize> = match &s.modal {
        Some(Modal::RemoveProc { id }) => Some(*id),
        _ => None,
    };
    match remove_id {
        Some(id) => {
            if plain && !k.shift && matches!(k.code, KeyCode::Char('y')) {
                s.modal = None;
                return (LoopAction::Skip, Vec::new(), Some(AppEvent::RemoveProc { id }));
            }
            if plain && !k.shift && (matches!(k.code, KeyCode::Esc) || matches!(
                k.code,
                KeyCode::Char('n'),
            )) {
                s.modal = None;
                return (LoopAction::Render, Vec::new(), None);
            }
            (LoopAction::Skip, Vec::new(), None)
        },
        None => {
            // the quit confirmation
            if plain && !k.shift && matches!(k.code, KeyCode::Char('y')) {
                s.modal = None;
                return (LoopAction::Skip, Vec::new(), Some(AppEvent::Quit));
            }
            if plain && !k.shift && (matches!(k.code, KeyCode::Esc) || matches!(
                k.code,
                KeyCode::Char('n'),
            )) {
                s.modal = None;
                return (LoopAction::Render, Vec::new(), None);
            }
            (LoopAction::Skip, Vec::new(), None)
        },
    }
}

/// A mouse event outside any modal: clicks move the focus and the
/// selection, the wheel scrolls the terminal view or walks the process
/// list.
fn mouse_input(s: &mut State, m: &MouseEvent, cfg: &UiConfig, area: Rect) -> (r: (
    LoopAction,
    Vec<Effect>,
))
    requires
        old(s).wf(),
        area.x as int + area.width as int <= u16::MAX,
        area.y as int + area.height as int <= u16::MAX,
    ensures
        final(s).wf(),
        mouse_rel(*old(s), *m, *cfg, area, *final(s), r.0, r.1@),
{
    if matches!(m.kind, MouseKind::Moved) {
        return (LoopAction::Skip, Vec::new());
    }
    let layout = AppLayout::new(
        area,
        s.scope.is_zoomed(),
        cfg.hide_keymap_window,
        cfg.proc_list_width,
    );
    let ta = layout.term_area();
    if ta.check_hit(m.column, m.row) {
        if matches!(s.scope, Scope::Procs) && matches!(m.kind, MouseKind::Down(_)) {
            s.scope = Scope::Term;
        }
        let mut ef: Vec<Effect> = Vec::new();
        let mut forwarded = false;
        if s.selected < s.procs.len() {
            let rc = m.column - ta.x;
            let rr = m.row - ta.y;
            match s.procs[s.selected].send_mouse(m.kind, rc, rr) {
                Some(x) => {
                    ef.push(x);
                    forwarded = true;
                },
                None => {},
            }
        }
        if !forwarded {
            match m.kind {
                MouseKind::ScrollUp => {
                    let _a = crate::app::handle_event(
                        s,
                        &AppEvent::ScrollUpLines { n: cfg.mouse_scroll_speed },
                    );
                },
                MouseKind::ScrollDown => {
                    let _a = crate::app::handle_event(
                        s,
                        &AppEvent::ScrollDownLines { n: cfg.mouse_scroll_speed },
                    );
                },
                _ => {},
            }
        }
        (LoopAction::Render, ef)
    } else if layout.procs.check_hit(m.column, m.row) {
        if matches!(s.scope, Scope::Term) && matches!(m.kind, MouseKind::Down(_)) {
            s.scope = Scope::Procs;
        }
        match m.kind {
            MouseKind::Down(MouseButton::Left) => {
                // list entries start under the border row
                if m.row > layout.procs.y {
                    let index = (m.row - layout.procs.y - 1) as usize;
                    if index < s.procs.len() {
                        s.select_proc(index);
                    }
                }
            },
            MouseKind::ScrollDown => {
                if s.procs.len() > 0 && s.selected < s.procs.len() - 1 {
                    let next = s.selected + 1;
                    s.select_proc(next);
                }
            },
            MouseKind::ScrollUp => {
                if s.selected > 0 && s.procs.len() > 0 {
                    let prev = s.selected - 1;
                    s.select_proc(prev);
                }
            },
            _ => {},
        }
        (LoopAction::Render, Vec::new())
    } else {
        (LoopAction::Render, Vec::new())
    }
}

/// Resizes every process to the new terminal-pane size and records it for
/// processes created later.
pub fn resize_procs(s: &mut State, rows: usize, cols: usize) -> (ef: Vec<Effect>)
    requires
        old(s).wf(),
    ensures
        final(s).wf(),
        final(s).term_rows == rows,
        final(s).term_cols == cols,
        final(s).procs@.len() == old(s).procs@.len(),
        forall|k: int|
            0 <= k < final(s).procs@.len() ==> (#[trigger] final(s).procs@[k]).rows == rows
                && final(s).procs@[k].cols == cols,
        *final(s) == (State {
            procs: final(s).procs,
            term_rows: rows,
            term_cols: cols,
            ..*old(s)
        }),
        resized(*old(s), *final(s), rows, cols, ef@),
{
    s.term_rows = rows;
    s.term_cols = cols;
    let mut ef: Vec<Effect> = Vec::new();
    proof {
        assert(Seq::<Effect>::empty() + resize_effects(old(s).procs@, 0, rows, cols)
            =~= resize_effects(old(s).procs@, 0, rows, cols));
    }
    let mut i: usize = 0;
    while i < s.procs.len()
        invariant
            s.wf(),
            i <= s.procs@.len(),
            s.procs@.len() == old(s).procs@.len(),
            forall|k: int|
                0 <= k < i ==> proc_resized(old(s).procs@[k], rows, cols, #[trigger] s.procs@[k]),
            forall|k: int|
                i <= k < s.procs@.len() ==> #[trigger] s.procs@[k] == old(s).procs@[k],
            *s == (State {
                procs: s.procs,
                term_rows: rows,
                term_cols: cols,
                ..*old(s)
            }),
            ef@ + resize_effects(old(s).procs@, i as int, rows, cols) == resize_effects(
                old(s).procs@,
                0,
                rows,
                cols,
            ),
        decreases s.procs@.len() - i,
    {
        let ghost before = s.procs@;
        let mut p = s.procs.remove(i);
        let e = p.resize(rows, cols);
        let ghost q = p;
        s.procs.insert(i, p);
        proof {
            assert(s.procs@ =~= before.update(i as int, q));
        }
        match e {
            Some(x) => {
                ef.push(x);
                proof {
                    assert(ef@ + resize_effects(old(s).procs@, i as int + 1, rows, cols)
                        =~= resize_effects(old(s).procs@, 0, rows, cols));
                }
            },
            None => {
                proof {
                    assert(ef@ + resize_effects(old(s).procs@, i as int + 1, rows, cols)
                        =~= resize_effects(old(s).procs@, 0, rows, cols));
                }
            },
        }
        i += 1;
    }
    proof {
        assert(ef@ + Seq::<Effect>::empty() =~= ef@);
    }
    ef
}

} // verus!
