//! The event loop's decisions.
//!
//! Each iteration of the (unverified) outer loop hands exactly one event to
//! one of the functions here: an application command, a process update, or —
//! through [`crate::ui`] — a terminal input event. The functions mutate the
//! [`State`], return whether to redraw, and hand back the outside work as
//! [`Effect`]s. The whole behaviour of [`handle_event`] is captured by the
//! relation [`handles`], one clause per command.

use vstd::prelude::*;

use crate::event::{AppEvent, CopyMove, Effect, LoopAction, ProcUpdate, SigKind};
use crate::input_line::InputLine;
use crate::proc::{
    move_pos, sel_in_bounds, sel_text_of, scroll_down_target, scroll_up_target, CmdSpec, CopyMode,
    Pos, Proc, ProcConfig, ProcState, StopPolicy,
};
use crate::screen::Screen;
use crate::state::{selected_to, Modal, Scope, State};

verus! {

broadcast use vstd::std_specs::vec::group_vec_axioms;

/// How the actions of consecutive commands of a batch combine: a force quit
/// wins, otherwise any render wins.
pub open spec fn combine_action(a: LoopAction, b: LoopAction) -> LoopAction {
    if a == LoopAction::ForceQuit || b == LoopAction::ForceQuit {
        LoopAction::ForceQuit
    } else if a == LoopAction::Render || b == LoopAction::Render {
        LoopAction::Render
    } else {
        LoopAction::Skip
    }
}

/// The stop (or kill) requests for every running process, in list order.
pub open spec fn signal_effects_from(procs: Seq<Proc>, i: int, kill: bool) -> Seq<Effect>
    decreases procs.len() - i,
{
    if i < 0 || i >= procs.len() {
        Seq::empty()
    } else {
        (if procs[i].state.is_running() {
            seq![
                Effect::Signal {
                    id: procs[i].id,
                    sig: if kill {
                        SigKind::Kill
                    } else {
                        procs[i].stop.sig
                    },
                },
            ]
        } else {
            Seq::empty()
        }) + signal_effects_from(procs, i + 1, kill)
    }
}

/// The selection after the list length changed: kept where it still points
/// at an entry, otherwise moved to the last entry (or to 0 on an empty
/// list).
pub open spec fn clamped_sel(sel: usize, len: int) -> int {
    if sel < len {
        sel as int
    } else if len == 0 {
        0
    } else {
        len - 1
    }
}

/// The process list after a removal request: a process leaves only when it
/// is down and carries the requested id.
pub open spec fn retain_spec(procs: Seq<Proc>, id: usize) -> Seq<Proc>
    decreases procs.len(),
{
    if procs.len() == 0 {
        Seq::empty()
    } else {
        (if procs[0].state.is_running() || procs[0].id != id {
            seq![procs[0]]
        } else {
            Seq::empty()
        }) + retain_spec(procs.drop_first(), id)
    }
}

/// A process after its child's exit was observed: the instance and any
/// copy-mode selection over it are gone.
pub open spec fn after_exit(p: Proc) -> Proc {
    if p.state.is_running() {
        Proc { state: ProcState::NotRunning, copy_mode: CopyMode::Inactive(Option::None), ..p }
    } else {
        p
    }
}

/// A process after a scroll command.
pub open spec fn proc_scrolled(p: Proc, up: bool, n: int) -> Proc {
    match p.state {
        ProcState::Running(s) => Proc {
            state: ProcState::Running(
                Screen {
                    offset: if up {
                        scroll_up_target(s@, n) as usize
                    } else {
                        scroll_down_target(s@, n) as usize
                    },
                    ..s
                },
            ),
            ..p
        },
        _ => p,
    }
}

/// A process after a half-screen scroll command.
pub open spec fn proc_scrolled_half(p: Proc, up: bool) -> Proc {
    match p.state {
        ProcState::Running(s) => proc_scrolled(p, up, s@.rows / 2),
        _ => p,
    }
}

/// Relates a process before and after a copy-mode movement: the point is
/// clamped by the frozen snapshot's size and history, so it can never
/// leave the text the selection is over.
pub open spec fn moved_proc(p: Proc, dir: CopyMove, q: Proc) -> bool {
    if !(p.state.is_running() && p.copy_mode.is_active()) {
        q == p
    } else {
        &&& q == (Proc { copy_mode: q.copy_mode, ..p })
        &&& q.copy_mode.is_active()
        &&& q.copy_mode.snap_view() == p.copy_mode.snap_view()
        &&& q.copy_mode.active_pos() == move_pos(
            p.copy_mode.active_pos(),
            dir,
            p.copy_mode.snap_view().rows,
            p.copy_mode.snap_view().cols,
            p.copy_mode.snap_view().scrollback.len() as int,
        )
        &&& (p.copy_mode is Anchored <==> q.copy_mode is Anchored)
        &&& (p.copy_mode is Ranged ==> q.copy_mode is Ranged && q.copy_mode->Ranged_1
            == p.copy_mode->Ranged_1)
    }
}

/// Relates a process before and after entering copy mode.
pub open spec fn entered_proc(p: Proc, q: Proc) -> bool {
    if p.state.is_running() {
        &&& q == (Proc { copy_mode: q.copy_mode, ..p })
        &&& q.copy_mode is Anchored
        &&& q.copy_mode.snap_view() == p.state.screen_view()
        &&& q.copy_mode.active_pos() == (Pos {
            y: (p.state.screen_view().rows - 1) as i32,
            x: 0,
        })
    } else {
        q == p
    }
}

/// Relates a process and the effects of a copy request: when a selection is
/// ranged and inside the snapshot, its text goes to the clipboard; copy mode
/// is reset either way.
pub open spec fn copied(p: Proc, effects: Seq<Effect>) -> bool {
    if p.copy_mode is Ranged && sel_in_bounds(
        p.copy_mode.snap_view(),
        p.copy_mode->Ranged_1,
        p.copy_mode->Ranged_2,
    ) {
        &&& effects.len() == 1
        &&& match effects[0] {
            Effect::CopyText { text } => text@ == sel_text_of(
                p.copy_mode.snap_view(),
                p.copy_mode->Ranged_1,
                p.copy_mode->Ranged_2,
            ),
            _ => false,
        }
    } else {
        effects.len() == 0
    }
}


/// The behaviour of a half-screen scroll command.
pub open spec fn scroll_half_rel(pre: State, post: State, action: LoopAction, up: bool) -> bool {
    if pre.has_current() {
        &&& action == LoopAction::Render
        &&& post.procs@ == pre.procs@.update(
            pre.selected as int,
            proc_scrolled_half(pre.current_spec(), up),
        )
        &&& post == (State { procs: post.procs, ..pre })
    } else {
        post == pre && action == LoopAction::Skip
    }
}

/// The behaviour of entering copy mode.
pub open spec fn enter_rel(pre: State, post: State) -> bool {
    if pre.has_current() {
        if pre.current_spec().state.is_running() {
            &&& post.procs@.len() == pre.procs@.len()
            &&& (forall|k: int|
                0 <= k < pre.procs@.len() && k != pre.selected as int ==> post.procs@[k]
                    == pre.procs@[k])
            &&& entered_proc(pre.current_spec(), post.procs@[pre.selected as int])
            &&& post == (State { scope: Scope::Term, procs: post.procs, ..pre })
        } else {
            post == pre
        }
    } else {
        post == pre
    }
}

/// The behaviour of leaving copy mode.
pub open spec fn leave_rel(pre: State, post: State) -> bool {
    if pre.has_current() {
        &&& post.procs@ == pre.procs@.update(
            pre.selected as int,
            Proc { copy_mode: CopyMode::Inactive(Option::None), ..pre.current_spec() },
        )
        &&& post == (State { procs: post.procs, ..pre })
    } else {
        post == pre
    }
}

/// The behaviour of a copy-mode movement.
pub open spec fn move_rel(pre: State, dir: CopyMove, post: State) -> bool {
    if pre.has_current() {
        &&& post.procs@.len() == pre.procs@.len()
        &&& (forall|k: int|
            0 <= k < pre.procs@.len() && k != pre.selected as int ==> post.procs@[k]
                == pre.procs@[k])
        &&& moved_proc(pre.current_spec(), dir, post.procs@[pre.selected as int])
        &&& post == (State { procs: post.procs, ..pre })
    } else {
        post == pre
    }
}

/// The behaviour of freezing the selection start.
pub open spec fn end_rel(pre: State, post: State) -> bool {
    if pre.has_current() {
        {
            let cur = pre.current_spec();
            match cur.copy_mode {
                CopyMode::Anchored(snap, pos) => {
                    &&& post.procs@ == pre.procs@.update(
                        pre.selected as int,
                        Proc { copy_mode: CopyMode::Ranged(snap, pos, pos), ..cur },
                    )
                    &&& post == (State { procs: post.procs, ..pre })
                },
                _ => post == pre,
            }
        }
    } else {
        post == pre
    }
}

/// The behaviour of extracting the selection.
pub open spec fn copy_rel(pre: State, post: State, effects: Seq<Effect>) -> bool {
    if pre.has_current() {
        &&& copied(pre.current_spec(), effects)
        &&& post.procs@ == pre.procs@.update(
            pre.selected as int,
            Proc { copy_mode: CopyMode::Inactive(Option::None), ..pre.current_spec() },
        )
        &&& post == (State { procs: post.procs, ..pre })
    } else {
        post == pre && effects.len() == 0
    }
}

/// The whole behaviour of [`handle_event`]: relates the state before one
/// command, the command, the state after it, the returned action and the
/// requested effects.
pub open spec fn handles(
    pre: State,
    e: AppEvent,
    post: State,
    action: LoopAction,
    effects: Seq<Effect>,
) -> bool
    decreases e,
{
    match e {
        AppEvent::Batch { cmds } => batch_rel(pre, cmds@, 0, post, action, effects),
        AppEvent::QuitOrAsk => {
            &&& action == LoopAction::Render
            &&& effects.len() == 0
            &&& if !pre.all_down_spec() {
                post == (State { modal: Some(Modal::Quit), ..pre })
            } else {
                post == (State { quitting: true, ..pre })
            }
        },
        AppEvent::Quit => {
            &&& action == LoopAction::Render
            &&& post == (State { quitting: true, ..pre })
            &&& effects == signal_effects_from(pre.procs@, 0, false)
        },
        AppEvent::ForceQuit => {
            &&& action == LoopAction::ForceQuit
            &&& post == pre
            &&& effects == signal_effects_from(pre.procs@, 0, true)
        },
        AppEvent::ToggleFocus => {
            &&& action == LoopAction::Render
            &&& effects.len() == 0
            &&& post == (State { scope: pre.scope.toggle_spec(), ..pre })
        },
        AppEvent::FocusProcs => {
            &&& action == LoopAction::Render
            &&& effects.len() == 0
            &&& post == (State { scope: Scope::Procs, ..pre })
        },
        AppEvent::FocusTerm => {
            &&& action == LoopAction::Render
            &&& effects.len() == 0
            &&& post == (State { scope: Scope::Term, ..pre })
        },
        AppEvent::Zoom => {
            &&& action == LoopAction::Render
            &&& effects.len() == 0
            &&& post == (State { scope: Scope::TermZoom, ..pre })
        },
        AppEvent::NextProc => {
            &&& action == LoopAction::Render
            &&& effects.len() == 0
            &&& selected_to(
                pre,
                if pre.selected + 1 >= pre.procs@.len() {
                    0usize
                } else {
                    (pre.selected + 1) as usize
                },
                post,
            )
        },
        AppEvent::PrevProc => {
            &&& action == LoopAction::Render
            &&& effects.len() == 0
            &&& selected_to(
                pre,
                if pre.selected > 0 {
                    (pre.selected - 1) as usize
                } else if pre.procs@.len() == 0 {
                    0usize
                } else {
                    (pre.procs@.len() - 1) as usize
                },
                post,
            )
        },
        AppEvent::SelectProc { index } => {
            &&& action == LoopAction::Render
            &&& effects.len() == 0
            &&& selected_to(pre, index, post)
        },
        AppEvent::StartProc => {
            &&& action == LoopAction::Skip
            &&& post == pre
            &&& if pre.has_current() && !pre.current_spec().state.is_running() {
                effects == seq![Effect::Spawn { id: pre.current_spec().id }]
            } else {
                effects.len() == 0
            }
        },
        AppEvent::TermProc => {
            &&& action == LoopAction::Skip
            &&& post == pre
            &&& if pre.has_current() && pre.current_spec().state.is_running() {
                effects == seq![
                    Effect::Signal {
                        id: pre.current_spec().id,
                        sig: pre.current_spec().stop.sig,
                    },
                ]
            } else {
                effects.len() == 0
            }
        },
        AppEvent::KillProc => {
            &&& action == LoopAction::Skip
            &&& post == pre
            &&& if pre.has_current() && pre.current_spec().state.is_running() {
                effects == seq![Effect::Signal { id: pre.current_spec().id, sig: SigKind::Kill }]
            } else {
                effects.len() == 0
            }
        },
        AppEvent::RestartProc => restart_rel(pre, post, action, effects, false),
        AppEvent::ForceRestartProc => restart_rel(pre, post, action, effects, true),
        AppEvent::ScrollUpLines { n } => scroll_rel(pre, post, action, effects, true, n as int),
        AppEvent::ScrollDownLines { n } => scroll_rel(pre, post, action, effects, false, n as int),
        AppEvent::ScrollUp => effects.len() == 0 && scroll_half_rel(pre, post, action, true),
        AppEvent::ScrollDown => effects.len() == 0 && scroll_half_rel(pre, post, action, false),
        AppEvent::ShowAddProc => {
            &&& action == LoopAction::Render
            &&& effects.len() == 0
            &&& match post.modal {
                Some(Modal::AddProc { input }) => input.chars@.len() == 0 && input.cursor == 0,
                _ => false,
            }
            &&& post == (State { modal: post.modal, ..pre })
        },
        AppEvent::AddProc { cmd } => {
            &&& action == LoopAction::Render
            &&& if pre.next_id < usize::MAX {
                &&& post.procs@.len() == pre.procs@.len() + 1
                &&& post.procs@.take(pre.procs@.len() as int) == pre.procs@
                &&& added_proc(post.procs@.last(), cmd, pre.next_id, pre.term_rows, pre.term_cols)
                &&& post == (State {
                    procs: post.procs,
                    next_id: (pre.next_id + 1) as usize,
                    ..pre
                })
                &&& effects == seq![Effect::Spawn { id: pre.next_id }]
            } else {
                post == pre && effects.len() == 0
            }
        },
        AppEvent::ShowRemoveProc => {
            if pre.has_current() && !pre.current_spec().state.is_running() {
                &&& action == LoopAction::Render
                &&& effects.len() == 0
                &&& post == (State {
                    modal: Some(Modal::RemoveProc { id: pre.current_spec().id }),
                    ..pre
                })
            } else {
                &&& action == LoopAction::Skip
                &&& effects.len() == 0
                &&& post == pre
            }
        },
        AppEvent::RemoveProc { id } => {
            &&& action == LoopAction::Render
            &&& effects.len() == 0
            &&& post.procs@ == retain_spec(pre.procs@, id)
            &&& post.selected == clamped_sel(pre.selected, post.procs@.len() as int)
            &&& post == (State { procs: post.procs, selected: post.selected, ..pre })
        },
        AppEvent::CopyModeEnter => action == LoopAction::Render && effects.len() == 0
            && enter_rel(pre, post),
        AppEvent::CopyModeLeave => action == LoopAction::Render && effects.len() == 0
            && leave_rel(pre, post),
        AppEvent::CopyModeMove { dir } => action == LoopAction::Render && effects.len() == 0
            && move_rel(pre, dir, post),
        AppEvent::CopyModeEnd => action == LoopAction::Render && effects.len() == 0
            && end_rel(pre, post),
        AppEvent::CopyModeCopy => action == LoopAction::Render && copy_rel(pre, post, effects),
        AppEvent::SendKey { key } => {
            &&& action == LoopAction::Skip
            &&& post == pre
            &&& if pre.has_current() && pre.current_spec().state.is_running() {
                &&& effects.len() == 1
                &&& match effects[0] {
                    Effect::WriteBytes { id, bytes } => id == pre.current_spec().id && bytes@
                        == crate::encode::key_bytes(key),
                    _ => false,
                }
            } else {
                effects.len() == 0
            }
        },
    }
}

/// The behaviour of a restart command: a running process is signalled and
/// marked for restart; a stopped one is simply started again.
pub open spec fn restart_rel(
    pre: State,
    post: State,
    action: LoopAction,
    effects: Seq<Effect>,
    kill: bool,
) -> bool {
    &&& action == LoopAction::Skip
    &&& if pre.has_current() {
        {
            let cur = pre.current_spec();
            if cur.state.is_running() {
                &&& post.procs@ == pre.procs@.update(
                    pre.selected as int,
                    Proc { to_restart: true, ..cur },
                )
                &&& post == (State { procs: post.procs, ..pre })
                &&& effects == seq![
                    Effect::Signal {
                        id: cur.id,
                        sig: if kill {
                            SigKind::Kill
                        } else {
                            cur.stop.sig
                        },
                    },
                ]
            } else {
                &&& post == pre
                &&& effects == seq![Effect::Spawn { id: cur.id }]
            }
        }
    } else {
        post == pre && effects.len() == 0
    }
}

/// The behaviour of a line-scroll command.
pub open spec fn scroll_rel(
    pre: State,
    post: State,
    action: LoopAction,
    effects: Seq<Effect>,
    up: bool,
    n: int,
) -> bool {
    &&& effects.len() == 0
    &&& if pre.has_current() {
        &&& action == LoopAction::Render
        &&& post.procs@ == pre.procs@.update(
            pre.selected as int,
            proc_scrolled(pre.current_spec(), up, n),
        )
        &&& post == (State { procs: post.procs, ..pre })
    } else {
        post == pre && action == LoopAction::Skip
    }
}

/// The process a successful add command appends: not running until its
/// spawn completes, named after its command line, with the default stop
/// policy and autostart set.
pub open spec fn added_proc(p: Proc, cmd: String, id: usize, rows: usize, cols: usize) -> bool {
    &&& p.id == id
    &&& p.rows == rows
    &&& p.cols == cols
    &&& p.name == cmd
    &&& p.cmd == (CmdSpec::Shell { shell: cmd })
    &&& p.cwd is None
    &&& p.env@.len() == 0
    &&& p.autostart
    &&& p.stop == (StopPolicy { sig: SigKind::Terminate, grace_ms: 3000u64 })
    &&& p.state is NotRunning
    &&& !p.to_restart
    &&& !p.changed
    &&& p.copy_mode == CopyMode::Inactive(Option::None)
}

/// Carries the intermediate values of a force-quitting batch step for
/// quantifier instantiation; always true.
pub open spec fn batch_wit_fq(mid: State, ef1: Seq<Effect>) -> bool {
    true
}

/// Carries the intermediate values of a batch step for quantifier
/// instantiation; always true.
pub open spec fn batch_wit(
    mid: State,
    a1: LoopAction,
    ef1: Seq<Effect>,
    a2: LoopAction,
    ef2: Seq<Effect>,
) -> bool {
    true
}

/// A batch applies its commands in order, from position `i` on, stopping
/// early when one of them forces a quit.
pub open spec fn batch_rel(
    pre: State,
    cmds: Seq<AppEvent>,
    i: int,
    post: State,
    action: LoopAction,
    effects: Seq<Effect>,
) -> bool
    decreases cmds, cmds.len() - i,
{
    if i < 0 || i >= cmds.len() {
        post == pre && action == LoopAction::Skip && effects == Seq::<Effect>::empty()
    } else {
        ||| (exists|mid: State, ef1: Seq<Effect>|
            #![trigger batch_wit_fq(mid, ef1)]
            {
                &&& handles(pre, cmds[i], mid, LoopAction::ForceQuit, ef1)
                &&& post == mid
                &&& action == LoopAction::ForceQuit
                &&& effects == ef1
            })
        ||| (exists|
            mid: State,
            a1: LoopAction,
            ef1: Seq<Effect>,
            a2: LoopAction,
            ef2: Seq<Effect>,
        |
            #![trigger batch_wit(mid, a1, ef1, a2, ef2)]
            {
                &&& handles(pre, cmds[i], mid, a1, ef1)
                &&& a1 != LoopAction::ForceQuit
                &&& batch_rel(mid, cmds, i + 1, post, a2, ef2)
                &&& effects == ef1 + ef2
                &&& action == combine_action(a1, a2)
            })
    }
}

/// Executes one application command against the state, returning whether to
/// redraw and the outside work to perform.
pub fn handle_event(s: &mut State, e: &AppEvent) -> (r: (LoopAction, Vec<Effect>))
    requires
        old(s).wf(),
    ensures
        final(s).wf(),
        handles(*old(s), *e, *final(s), r.0, r.1@),
    decreases *e,
{
    match e {
        AppEvent::Batch { cmds } => run_batch(s, cmds),
        _ => handle_plain(s, e),
    }
}

/// Executes any command but a batch.
fn handle_plain(s: &mut State, e: &AppEvent) -> (r: (LoopAction, Vec<Effect>))
    requires
        old(s).wf(),
        !(*e is Batch),
    ensures
        final(s).wf(),
        handles(*old(s), *e, *final(s), r.0, r.1@),
{
    match e {
        AppEvent::QuitOrAsk
        | AppEvent::Quit
        | AppEvent::ForceQuit
        | AppEvent::ToggleFocus
        | AppEvent::FocusProcs
        | AppEvent::FocusTerm
        | AppEvent::Zoom => handle_focus_cmd(s, e),
        AppEvent::NextProc
        | AppEvent::PrevProc
        | AppEvent::SelectProc { .. }
        | AppEvent::StartProc
        | AppEvent::TermProc
        | AppEvent::KillProc
        | AppEvent::RestartProc
        | AppEvent::ForceRestartProc => handle_select_cmd(s, e),
        AppEvent::ScrollUpLines { .. }
        | AppEvent::ScrollDownLines { .. }
        | AppEvent::ScrollUp
        | AppEvent::ScrollDown
        | AppEvent::CopyModeEnter
        | AppEvent::CopyModeLeave
        | AppEvent::CopyModeMove { .. }
        | AppEvent::CopyModeEnd
        | AppEvent::CopyModeCopy => handle_view_cmd(s, e),
        _ => handle_modal_cmd(s, e),
    }
}

/// Executes the quitting and focus commands.
#[verifier::rlimit(100)]
fn handle_focus_cmd(s: &mut State, e: &AppEvent) -> (r: (LoopAction, Vec<Effect>))
    requires
        old(s).wf(),
        (*e is QuitOrAsk) || (*e is Quit) || (*e is ForceQuit) || (*e is ToggleFocus) || (*e
            is FocusProcs) || (*e is FocusTerm) || (*e is Zoom),
    ensures
        final(s).wf(),
        handles(*old(s), *e, *final(s), r.0, r.1@),
{
    match e {
        AppEvent::QuitOrAsk => {
            if s.any_proc_up() {
                s.modal = Some(Modal::Quit);
            } else {
                s.quitting = true;
            }
            (LoopAction::Render, Vec::new())
        },
        AppEvent::Quit => {
            s.quitting = true;
            let ef = signal_all(s, false);
            (LoopAction::Render, ef)
        },
        AppEvent::ForceQuit => {
            let ef = signal_all(s, true);
            (LoopAction::ForceQuit, ef)
        },
        AppEvent::ToggleFocus => {
            s.scope = s.scope.toggle();
            (LoopAction::Render, Vec::new())
        },
        AppEvent::FocusProcs => {
            s.scope = Scope::Procs;
            (LoopAction::Render, Vec::new())
        },
        AppEvent::FocusTerm => {
            s.scope = Scope::Term;
            (LoopAction::Render, Vec::new())
        },
        AppEvent::Zoom => {
            s.scope = Scope::TermZoom;
            (LoopAction::Render, Vec::new())
        },
        _ => {
            proof {
                assert(false);
            }
            (LoopAction::Skip, Vec::new())
        },
    }
}

/// Executes the selection and lifecycle commands.
#[verifier::rlimit(100)]
fn handle_select_cmd(s: &mut State, e: &AppEvent) -> (r: (LoopAction, Vec<Effect>))
    requires
        old(s).wf(),
        (*e is NextProc) || (*e is PrevProc) || (*e is SelectProc) || (*e is StartProc) || (*e
            is TermProc) || (*e is KillProc) || (*e is RestartProc) || (*e is ForceRestartProc),
    ensures
        final(s).wf(),
        handles(*old(s), *e, *final(s), r.0, r.1@),
{
    match e {
        AppEvent::NextProc => {
            let next = if s.procs.len() == 0 {
                0
            } else if s.selected >= s.procs.len() - 1 {
                0
            } else {
                s.selected + 1
            };
            s.select_proc(next);
            (LoopAction::Render, Vec::new())
        },
        AppEvent::PrevProc => {
            let next = if s.selected > 0 {
                s.selected - 1
            } else if s.procs.len() == 0 {
                0
            } else {
                s.procs.len() - 1
            };
            s.select_proc(next);
            (LoopAction::Render, Vec::new())
        },
        AppEvent::SelectProc { index } => {
            s.select_proc(*index);
            (LoopAction::Render, Vec::new())
        },
        AppEvent::StartProc => {
            let mut ef: Vec<Effect> = Vec::new();
            if s.selected < s.procs.len() {
                let p = &s.procs[s.selected];
                if !p.is_up() {
                    ef.push(Effect::Spawn { id: p.id });
                }
            }
            (LoopAction::Skip, ef)
        },
        AppEvent::TermProc => {
            let mut ef: Vec<Effect> = Vec::new();
            if s.selected < s.procs.len() {
                match s.procs[s.selected].stop() {
                    Some(x) => ef.push(x),
                    None => {},
                }
            }
            (LoopAction::Skip, ef)
        },
        AppEvent::KillProc => {
            let mut ef: Vec<Effect> = Vec::new();
            if s.selected < s.procs.len() {
                match s.procs[s.selected].kill() {
                    Some(x) => ef.push(x),
                    None => {},
                }
            }
            (LoopAction::Skip, ef)
        },
        AppEvent::RestartProc => {
            let ef = restart_current(s, false);
            (LoopAction::Skip, ef)
        },
        AppEvent::ForceRestartProc => {
            let ef = restart_current(s, true);
            (LoopAction::Skip, ef)
        },
        _ => {
            proof {
                assert(false);
            }
            (LoopAction::Skip, Vec::new())
        },
    }
}

/// Executes the scrolling and copy-mode commands.
#[verifier::rlimit(100)]
fn handle_view_cmd(s: &mut State, e: &AppEvent) -> (r: (LoopAction, Vec<Effect>))
    requires
        old(s).wf(),
        (*e is ScrollUpLines) || (*e is ScrollDownLines) || (*e is ScrollUp) || (*e
            is ScrollDown) || (*e is CopyModeEnter) || (*e is CopyModeLeave) || (*e
            is CopyModeMove) || (*e is CopyModeEnd) || (*e is CopyModeCopy),
    ensures
        final(s).wf(),
        handles(*old(s), *e, *final(s), r.0, r.1@),
{
    match e {
        AppEvent::ScrollUpLines { n } => {
            let a = scroll_current(s, true, false, *n);
            (a, Vec::new())
        },
        AppEvent::ScrollDownLines { n } => {
            let a = scroll_current(s, false, false, *n);
            (a, Vec::new())
        },
        AppEvent::ScrollUp => {
            let a = scroll_current(s, true, true, 0);
            (a, Vec::new())
        },
        AppEvent::ScrollDown => {
            let a = scroll_current(s, false, true, 0);
            (a, Vec::new())
        },
        AppEvent::CopyModeEnter => {
            enter_copy_mode(s);
            (LoopAction::Render, Vec::new())
        },
        AppEvent::CopyModeLeave => {
            leave_copy_mode(s);
            (LoopAction::Render, Vec::new())
        },
        AppEvent::CopyModeMove { dir } => {
            move_copy_mode(s, *dir);
            (LoopAction::Render, Vec::new())
        },
        AppEvent::CopyModeEnd => {
            end_copy_mode(s);
            (LoopAction::Render, Vec::new())
        },
        AppEvent::CopyModeCopy => {
            let ef = copy_copy_mode(s);
            (LoopAction::Render, ef)
        },
        _ => {
            proof {
                assert(false);
            }
            (LoopAction::Skip, Vec::new())
        },
    }
}

/// Executes the modal, add, remove and key-forwarding commands.
#[verifier::rlimit(100)]
fn handle_modal_cmd(s: &mut State, e: &AppEvent) -> (r: (LoopAction, Vec<Effect>))
    requires
        old(s).wf(),
        (*e is ShowAddProc) || (*e is AddProc) || (*e is ShowRemoveProc) || (*e is RemoveProc)
            || (*e is SendKey),
    ensures
        final(s).wf(),
        handles(*old(s), *e, *final(s), r.0, r.1@),
{
    match e {
        AppEvent::ShowAddProc => {
            s.modal = Some(Modal::AddProc { input: InputLine::new() });
            (LoopAction::Render, Vec::new())
        },
        AppEvent::AddProc { cmd } => {
            let ef = add_proc_cmd(s, cmd);
            (LoopAction::Render, ef)
        },
        AppEvent::ShowRemoveProc => {
            if s.selected < s.procs.len() {
                let p = &s.procs[s.selected];
                if !p.is_up() {
                    let id = p.id;
                    s.modal = Some(Modal::RemoveProc { id });
                    (LoopAction::Render, Vec::new())
                } else {
                    (LoopAction::Skip, Vec::new())
                }
            } else {
                (LoopAction::Skip, Vec::new())
            }
        },
        AppEvent::RemoveProc { id } => {
            remove_proc_cmd(s, *id);
            (LoopAction::Render, Vec::new())
        },
        AppEvent::SendKey { key } => {
            let mut ef: Vec<Effect> = Vec::new();
            if s.selected < s.procs.len() {
                match s.procs[s.selected].send_key(key) {
                    Some(x) => ef.push(x),
                    None => {},
                }
            }
            (LoopAction::Skip, ef)
        },
        _ => {
            proof {
                assert(false);
            }
            (LoopAction::Skip, Vec::new())
        },
    }
}

/// One batch step that forced a quit extends to the whole batch relation.
proof fn lemma_batch_fq(
    pre: State,
    cmds: Seq<AppEvent>,
    i: int,
    mid: State,
    ef1: Seq<Effect>,
)
    requires
        0 <= i < cmds.len(),
        handles(pre, cmds[i], mid, LoopAction::ForceQuit, ef1),
    ensures
        batch_rel(pre, cmds, i, mid, LoopAction::ForceQuit, ef1),
{
    assert(batch_wit_fq(mid, ef1));
}

/// One ordinary batch step composed with the rest of the batch.
proof fn lemma_batch_step(
    pre: State,
    cmds: Seq<AppEvent>,
    i: int,
    mid: State,
    a1: LoopAction,
    ef1: Seq<Effect>,
    post: State,
    a2: LoopAction,
    ef2: Seq<Effect>,
)
    requires
        0 <= i < cmds.len(),
        handles(pre, cmds[i], mid, a1, ef1),
        a1 != LoopAction::ForceQuit,
        batch_rel(mid, cmds, i + 1, post, a2, ef2),
    ensures
        batch_rel(pre, cmds, i, post, combine_action(a1, a2), ef1 + ef2),
{
    assert(batch_wit(mid, a1, ef1, a2, ef2));
}

/// Applies the commands of a batch in order, stopping early on a force
/// quit.
fn run_batch(s: &mut State, cmds: &Vec<AppEvent>) -> (r: (LoopAction, Vec<Effect>))
    requires
        old(s).wf(),
    ensures
        final(s).wf(),
        batch_rel(*old(s), cmds@, 0, *final(s), r.0, r.1@),
    decreases cmds@,
{
    let mut ret = LoopAction::Skip;
    let mut ef: Vec<Effect> = Vec::new();
    let ghost pre = *s;
    let mut j: usize = 0;
    while j < cmds.len()
        invariant
            s.wf(),
            j <= cmds.len(),
            pre == *old(s),
            ret != LoopAction::ForceQuit,
            forall|post: State, a2: LoopAction, ef2: Seq<Effect>|
                #[trigger] batch_rel(*s, cmds@, j as int, post, a2, ef2) ==> batch_rel(
                    pre,
                    cmds@,
                    0,
                    post,
                    combine_action(ret, a2),
                    ef@ + ef2,
                ),
        decreases cmds.len() - j,
    {
        let ghost mid0 = *s;
        let ghost acc0 = ef@;
        let (a1, mut ef1) = handle_event(s, &cmds[j]);
        let ghost ef1v = ef1@;
        ef.append(&mut ef1);
        if matches!(a1, LoopAction::ForceQuit) {
            proof {
                assert(handles(mid0, cmds@[j as int], *s, LoopAction::ForceQuit, ef1v));
                lemma_batch_fq(mid0, cmds@, j as int, *s, ef1v);
                assert(batch_rel(
                    pre,
                    cmds@,
                    0,
                    *s,
                    combine_action(ret, LoopAction::ForceQuit),
                    acc0 + ef1v,
                ));
                assert(ef@ =~= acc0 + ef1v);
            }
            return (LoopAction::ForceQuit, ef);
        }
        proof {
            assert(ef@ =~= acc0 + ef1v);
            assert forall|post: State, a2: LoopAction, ef2: Seq<Effect>|
                #[trigger] batch_rel(*s, cmds@, j as int + 1, post, a2, ef2) implies batch_rel(
                pre,
                cmds@,
                0,
                post,
                combine_action(combine_action(ret, a1), a2),
                ef@ + ef2,
            ) by {
                assert(handles(mid0, cmds@[j as int], *s, a1, ef1v));
                lemma_batch_step(mid0, cmds@, j as int, *s, a1, ef1v, post, a2, ef2);
                assert(batch_rel(
                    pre,
                    cmds@,
                    0,
                    post,
                    combine_action(ret, combine_action(a1, a2)),
                    acc0 + (ef1v + ef2),
                ));
                assert(acc0 + (ef1v + ef2) =~= ef@ + ef2);
                assert(combine_action(ret, combine_action(a1, a2)) == combine_action(
                    combine_action(ret, a1),
                    a2,
                ));
            }
        }
        ret = merge_action(ret, a1);
        j += 1;
    }
    proof {
        assert(batch_rel(*s, cmds@, j as int, *s, LoopAction::Skip, Seq::<Effect>::empty()));
        assert(ef@ + Seq::<Effect>::empty() =~= ef@);
    }
    (ret, ef)
}


/// Scrolls the selected process by lines or half a screen.
fn scroll_current(s: &mut State, up: bool, half: bool, n: usize) -> (a: LoopAction)
    requires
        old(s).wf(),
    ensures
        final(s).wf(),
        half ==> scroll_half_rel(*old(s), *final(s), a, up),
        !half ==> scroll_rel(*old(s), *final(s), a, Seq::<Effect>::empty(), up, n as int),
{
    if s.selected < s.procs.len() {
        let sel = s.selected;
        let mut p = s.procs.remove(sel);
        if half {
            if up {
                p.scroll_half_screen_up();
            } else {
                p.scroll_half_screen_down();
            }
        } else {
            if up {
                p.scroll_up_lines(n);
            } else {
                p.scroll_down_lines(n);
            }
        }
        let ghost q = p;
        s.procs.insert(sel, p);
        proof {
            assert(s.procs@ =~= old(s).procs@.update(sel as int, q));
        }
        LoopAction::Render
    } else {
        LoopAction::Skip
    }
}

/// Enters copy mode on the selected process, focusing the terminal pane
/// when it succeeds.
fn enter_copy_mode(s: &mut State)
    requires
        old(s).wf(),
    ensures
        final(s).wf(),
        enter_rel(*old(s), *final(s)),
{
    if s.selected < s.procs.len() {
        let sel = s.selected;
        if s.procs[sel].is_up() {
            let mut p = s.procs.remove(sel);
            let entered = p.copy_mode_enter();
            let ghost q = p;
            s.procs.insert(sel, p);
            proof {
                assert(s.procs@ =~= old(s).procs@.update(sel as int, q));
            }
            if entered {
                s.scope = Scope::Term;
            }
        }
    }
}

/// Leaves copy mode on the selected process.
fn leave_copy_mode(s: &mut State)
    requires
        old(s).wf(),
    ensures
        final(s).wf(),
        leave_rel(*old(s), *final(s)),
{
    if s.selected < s.procs.len() {
        let sel = s.selected;
        let mut p = s.procs.remove(sel);
        p.copy_mode_leave();
        let ghost q = p;
        s.procs.insert(sel, p);
        proof {
            assert(s.procs@ =~= old(s).procs@.update(sel as int, q));
        }
    }
}

/// Moves the copy-mode point of the selected process.
fn move_copy_mode(s: &mut State, dir: CopyMove)
    requires
        old(s).wf(),
    ensures
        final(s).wf(),
        move_rel(*old(s), dir, *final(s)),
{
    if s.selected < s.procs.len() {
        let sel = s.selected;
        let mut p = s.procs.remove(sel);
        p.copy_mode_move(dir);
        let ghost q = p;
        s.procs.insert(sel, p);
        proof {
            assert(s.procs@ =~= old(s).procs@.update(sel as int, q));
        }
    }
}

/// Freezes the selection start of the selected process.
fn end_copy_mode(s: &mut State)
    requires
        old(s).wf(),
    ensures
        final(s).wf(),
        end_rel(*old(s), *final(s)),
{
    if s.selected < s.procs.len() {
        let sel = s.selected;
        let anchored = matches!(&s.procs[sel].copy_mode, CopyMode::Anchored(_, _));
        if anchored {
            let mut p = s.procs.remove(sel);
            p.copy_mode_end();
            let ghost q = p;
            s.procs.insert(sel, p);
            proof {
                assert(s.procs@ =~= old(s).procs@.update(sel as int, q));
            }
        }
    }
}

/// Extracts the selection of the selected process and resets its copy mode.
fn copy_copy_mode(s: &mut State) -> (ef: Vec<Effect>)
    requires
        old(s).wf(),
    ensures
        final(s).wf(),
        copy_rel(*old(s), *final(s), ef@),
{
    let mut ef: Vec<Effect> = Vec::new();
    if s.selected < s.procs.len() {
        let sel = s.selected;
        let mut p = s.procs.remove(sel);
        let eff = p.copy_mode_copy();
        let ghost q = p;
        s.procs.insert(sel, p);
        proof {
            assert(s.procs@ =~= old(s).procs@.update(sel as int, q));
        }
        match eff {
            Some(x) => ef.push(x),
            None => {},
        }
    }
    ef
}


/// Removes the process with the given id, unless it is running, and keeps
/// the selection inside the shortened list.
fn remove_proc_cmd(s: &mut State, id: usize)
    requires
        old(s).wf(),
    ensures
        final(s).wf(),
        final(s).procs@ == retain_spec(old(s).procs@, id),
        final(s).selected == clamped_sel(old(s).selected, final(s).procs@.len() as int),
        *final(s) == (State {
            procs: final(s).procs,
            selected: final(s).selected,
            ..*old(s)
        }),
{
    let mut kept: Vec<Proc> = Vec::new();
    while s.procs.len() > 0
        invariant
            kept@ + retain_spec(s.procs@, id) == retain_spec(old(s).procs@, id),
            procs_ok(kept@ + s.procs@, old(s).next_id),
            *s == (State { procs: s.procs, ..*old(s) }),
        decreases s.procs.len(),
    {
        let ghost combined = kept@ + s.procs@;
        let p = s.procs.remove(0);
        let keep = p.is_up() || p.id != id;
        let ghost q = p;
        if keep {
            kept.push(p);
        }
        proof {
            if keep {
                assert(kept@ + s.procs@ =~= combined);
                assert(kept@ + retain_spec(s.procs@, id) =~= retain_spec(old(s).procs@, id));
            } else {
                assert forall|i: int, j: int|
                    0 <= i < (kept@ + s.procs@).len() && 0 <= j < (kept@ + s.procs@).len() && i
                        != j implies (#[trigger] (kept@ + s.procs@)[i]).id != (#[trigger] (kept@
                    + s.procs@)[j]).id by {
                    let lift = |k: int|
                        if k < kept@.len() {
                            k
                        } else {
                            k + 1
                        };
                    assert((kept@ + s.procs@)[i] == combined[lift(i)]);
                    assert((kept@ + s.procs@)[j] == combined[lift(j)]);
                }
                assert forall|i: int| 0 <= i < (kept@ + s.procs@).len() implies (#[trigger] (kept@
                    + s.procs@)[i]).wf() && (kept@ + s.procs@)[i].id < old(s).next_id by {
                    let lift = |k: int|
                        if k < kept@.len() {
                            k
                        } else {
                            k + 1
                        };
                    assert((kept@ + s.procs@)[i] == combined[lift(i)]);
                }
                assert(kept@ + retain_spec(s.procs@, id) =~= retain_spec(old(s).procs@, id));
            }
        }
    }
    let ghost kv = kept@;
    s.procs = kept;
    proof {
        assert(kv + Seq::<Proc>::empty() =~= kv);
        assert(retain_spec(Seq::<Proc>::empty(), id) =~= Seq::<Proc>::empty());
    }
    if s.selected >= s.procs.len() {
        let len = s.procs.len();
        s.selected = if len == 0 {
            0
        } else {
            len - 1
        };
    }
}

/// Appends a process built from a command line and asks for its spawn.
fn add_proc_cmd(s: &mut State, cmd: &String) -> (ef: Vec<Effect>)
    requires
        old(s).wf(),
    ensures
        final(s).wf(),
        if old(s).next_id < usize::MAX {
            &&& final(s).procs@.len() == old(s).procs@.len() + 1
            &&& final(s).procs@.take(old(s).procs@.len() as int) == old(s).procs@
            &&& added_proc(
                final(s).procs@.last(),
                *cmd,
                old(s).next_id,
                old(s).term_rows,
                old(s).term_cols,
            )
            &&& *final(s) == (State {
                procs: final(s).procs,
                next_id: (old(s).next_id + 1) as usize,
                ..*old(s)
            })
            &&& ef@ == seq![Effect::Spawn { id: old(s).next_id }]
        } else {
            *final(s) == *old(s) && ef@.len() == 0
        },
{
    let mut ef: Vec<Effect> = Vec::new();
    if s.next_id < usize::MAX {
        let id = s.next_id;
        let cfg = ProcConfig {
            name: clone_string(cmd),
            cmd: CmdSpec::Shell { shell: clone_string(cmd) },
            cwd: None,
            env: Vec::new(),
            autostart: true,
            stop: StopPolicy { sig: SigKind::Terminate, grace_ms: 3000 },
        };
        let rows = s.term_rows;
        let cols = s.term_cols;
        let p = Proc::new(id, cfg, rows, cols);
        s.procs.push(p);
        s.next_id = id + 1;
        ef.push(Effect::Spawn { id });
        proof {
            assert(s.procs@.take(old(s).procs@.len() as int) =~= old(s).procs@);
            assert(ef@ =~= seq![Effect::Spawn { id: old(s).next_id }]);
        }
    }
    ef
}

/// Combines the actions of two consecutive batch commands.
fn merge_action(a: LoopAction, b: LoopAction) -> (r: LoopAction)
    ensures
        r == combine_action(a, b),
{
    match (a, b) {
        (LoopAction::ForceQuit, _) => LoopAction::ForceQuit,
        (_, LoopAction::ForceQuit) => LoopAction::ForceQuit,
        (LoopAction::Render, _) => LoopAction::Render,
        (_, LoopAction::Render) => LoopAction::Render,
        _ => LoopAction::Skip,
    }
}

/// An owned copy of a string.
fn clone_string(s: &String) -> (r: String)
    ensures
        r@ == s@,
        r == *s,
{
    s.clone()
}

/// Collects the stop (or kill) requests for every running process.
fn signal_all(s: &State, kill: bool) -> (ef: Vec<Effect>)
    ensures
        ef@ == signal_effects_from(s.procs@, 0, kill),
{
    let mut ef: Vec<Effect> = Vec::new();
    let mut i: usize = 0;
    while i < s.procs.len()
        invariant
            i <= s.procs.len(),
            ef@ + signal_effects_from(s.procs@, i as int, kill) == signal_effects_from(
                s.procs@,
                0,
                kill,
            ),
        decreases s.procs.len() - i,
    {
        let eo = if kill {
            s.procs[i].kill()
        } else {
            s.procs[i].stop()
        };
        match eo {
            Some(x) => {
                ef.push(x);
                proof {
                    assert(ef@ + signal_effects_from(s.procs@, i as int + 1, kill)
                        =~= signal_effects_from(s.procs@, 0, kill));
                }
            },
            None => {
                proof {
                    assert(ef@ + signal_effects_from(s.procs@, i as int + 1, kill)
                        =~= signal_effects_from(s.procs@, 0, kill));
                }
            },
        }
        i += 1;
    }
    proof {
        assert(ef@ + Seq::<Effect>::empty() =~= ef@);
    }
    ef
}

/// Handles a restart command for the selected process.
fn restart_current(s: &mut State, kill: bool) -> (ef: Vec<Effect>)
    requires
        old(s).wf(),
    ensures
        final(s).wf(),
        restart_rel(*old(s), *final(s), LoopAction::Skip, ef@, kill),
{
    let mut ef: Vec<Effect> = Vec::new();
    if s.selected < s.procs.len() {
        let sel = s.selected;
        if s.procs[sel].is_up() {
            let eo = if kill {
                s.procs[sel].kill()
            } else {
                s.procs[sel].stop()
            };
            let mut p = s.procs.remove(sel);
            p.to_restart = true;
            let ghost q = p;
            s.procs.insert(sel, p);
            proof {
                assert(s.procs@ =~= old(s).procs@.update(sel as int, q));
            }
            match eo {
                Some(x) => ef.push(x),
                None => {},
            }
        } else {
            let id = s.procs[sel].id;
            ef.push(Effect::Spawn { id });
        }
    }
    ef
}

/// The behaviour of [`handle_proc_update`].
pub open spec fn handles_update(
    pre: State,
    id: usize,
    upd: ProcUpdate,
    post: State,
    action: LoopAction,
    effects: Seq<Effect>,
) -> bool {
    match upd {
        ProcUpdate::Render => {
            &&& effects.len() == 0
            &&& match pre.index_of_id(id) {
                Some(i) => {
                    &&& action == LoopAction::Render
                    &&& if i != pre.selected as int {
                        post.procs@ == pre.procs@.update(
                            i,
                            Proc { changed: true, ..pre.procs@[i] },
                        ) && post == (State { procs: post.procs, ..pre })
                    } else {
                        post == pre
                    }
                },
                None => post == pre && action == LoopAction::Skip,
            }
        },
        ProcUpdate::Stopped => {
            &&& action == LoopAction::Render
            &&& match pre.index_of_id(id) {
                Some(i) => {
                    let q = after_exit(pre.procs@[i]);
                    if q.to_restart {
                        &&& post.procs@ == pre.procs@.update(i, Proc { to_restart: false, ..q })
                        &&& post == (State { procs: post.procs, ..pre })
                        &&& effects == seq![Effect::Spawn { id: id }]
                    } else {
                        &&& post.procs@ == pre.procs@.update(i, q)
                        &&& post == (State { procs: post.procs, ..pre })
                        &&& effects.len() == 0
                    }
                },
                None => post == pre && effects.len() == 0,
            }
        },
        ProcUpdate::Started => {
            &&& post == pre
            &&& effects.len() == 0
            &&& action == LoopAction::Render
        },
    }
}

/// Applies one process-lifecycle notification: new output triggers a
/// redraw and marks the activity flag on a process that is not the selected
/// one; a stop completes any pending restart by asking for exactly one new
/// spawn.
pub fn handle_proc_update(s: &mut State, id: usize, upd: ProcUpdate) -> (r: (
    LoopAction,
    Vec<Effect>,
))
    requires
        old(s).wf(),
    ensures
        final(s).wf(),
        handles_update(*old(s), id, upd, *final(s), r.0, r.1@),
{
    match upd {
        ProcUpdate::Render => {
            let found = s.find_proc(id);
            match found {
                Some(i) => {
                    proof {
                        assert(old(s).index_of_id(id) is Some);
                        let j = choose|j: int|
                            0 <= j < old(s).procs.len() && (#[trigger] old(s).procs[j]).id == id;
                        assert(old(s).procs[j].id == id);
                        assert(j == i as int);
                    }
                    if i != s.selected {
                        let mut p = s.procs.remove(i);
                        p.changed = true;
                        let ghost q = p;
                        s.procs.insert(i, p);
                        proof {
                            assert(s.procs@ =~= old(s).procs@.update(i as int, q));
                        }
                    }
                    (LoopAction::Render, Vec::new())
                },
                None => {
                    proof {
                        assert(old(s).index_of_id(id) is None);
                    }
                    (LoopAction::Skip, Vec::new())
                },
            }
        },
        ProcUpdate::Stopped => {
            let mut ef: Vec<Effect> = Vec::new();
            let found = s.find_proc(id);
            match found {
                Some(i) => {
                    proof {
                        assert(old(s).index_of_id(id) is Some);
                        let j = choose|j: int|
                            0 <= j < old(s).procs.len() && (#[trigger] old(s).procs[j]).id == id;
                        assert(old(s).procs[j].id == id);
                        assert(j == i as int);
                    }
                    let mut p = s.procs.remove(i);
                    p.on_stopped();
                    if p.to_restart {
                        p.to_restart = false;
                        ef.push(Effect::Spawn { id });
                    }
                    let ghost q = p;
                    s.procs.insert(i, p);
                    proof {
                        assert(s.procs@ =~= old(s).procs@.update(i as int, q));
                    }
                },
                None => {
                    proof {
                        assert(old(s).index_of_id(id) is None);
                    }
                },
            }
            (LoopAction::Render, ef)
        },
        ProcUpdate::Started => (LoopAction::Render, Vec::new()),
    }
}

/// Whether the loop must exit after an event: a force quit exits at once;
/// otherwise the graceful-quit barrier applies — quitting was requested and
/// every process is down.
pub fn should_exit(s: &State, action: LoopAction) -> (r: bool)
    ensures
        r == (action == LoopAction::ForceQuit || (s.quitting && s.all_down_spec())),
{
    if s.quitting && s.all_procs_down() {
        true
    } else {
        matches!(action, LoopAction::ForceQuit)
    }
}

/// The spawn requests for every process of a fresh configuration that wants
/// to start at once.
pub open spec fn autostart_effects(cfgs: Seq<ProcConfig>, base: int) -> Seq<Effect>
    decreases cfgs.len(),
{
    if cfgs.len() == 0 {
        Seq::empty()
    } else {
        (if cfgs[0].autostart {
            seq![Effect::Spawn { id: base as usize }]
        } else {
            Seq::empty()
        }) + autostart_effects(cfgs.drop_first(), base + 1)
    }
}

/// Creates the configured processes in order and asks the shell to spawn
/// each one marked autostart.
pub fn start_procs(s: &mut State, cfgs: Vec<ProcConfig>, rows: usize, cols: usize) -> (ef: Vec<
    Effect,
>)
    requires
        old(s).wf(),
        old(s).next_id + cfgs@.len() <= usize::MAX,
    ensures
        final(s).wf(),
        final(s).procs@.len() == old(s).procs@.len() + cfgs@.len(),
        forall|k: int|
            0 <= k < old(s).procs@.len() ==> final(s).procs@[k] == old(s).procs@[k],
        forall|j: int|
            0 <= j < cfgs@.len() ==> {
                let p = #[trigger] final(s).procs@[old(s).procs@.len() + j];
                &&& p.id == old(s).next_id + j
                &&& p.name == cfgs@[j].name
                &&& p.cmd == cfgs@[j].cmd
                &&& p.autostart == cfgs@[j].autostart
                &&& p.stop == cfgs@[j].stop
                &&& p.state is NotRunning
                &&& !p.to_restart
            },
        *final(s) == (State {
            procs: final(s).procs,
            next_id: (old(s).next_id + cfgs@.len()) as usize,
            term_rows: rows,
            term_cols: cols,
            ..*old(s)
        }),
        ef@ == autostart_effects(cfgs@, old(s).next_id as int),
{
    s.term_rows = rows;
    s.term_cols = cols;
    let mut ef: Vec<Effect> = Vec::new();
    let mut cfgs = cfgs;
    let ghost allcfgs = cfgs@;
    let ghost base = old(s).next_id as int;
    while cfgs.len() > 0
        invariant
            s.wf(),
            allcfgs.len() >= cfgs@.len(),
            cfgs@ == allcfgs.skip(allcfgs.len() - cfgs@.len()),
            s.next_id == old(s).next_id + (allcfgs.len() - cfgs@.len()),
            s.next_id + cfgs@.len() <= usize::MAX,
            s.procs@.len() == old(s).procs@.len() + (allcfgs.len() - cfgs@.len()),
            forall|k: int|
                0 <= k < old(s).procs@.len() ==> s.procs@[k] == old(s).procs@[k],
            forall|j: int|
                0 <= j < allcfgs.len() - cfgs@.len() ==> {
                    let p = #[trigger] s.procs@[old(s).procs@.len() + j];
                    &&& p.id == old(s).next_id + j
                    &&& p.name == allcfgs[j].name
                    &&& p.cmd == allcfgs[j].cmd
                    &&& p.autostart == allcfgs[j].autostart
                    &&& p.stop == allcfgs[j].stop
                    &&& p.state is NotRunning
                    &&& !p.to_restart
                },
            *s == (State {
                procs: s.procs,
                next_id: s.next_id,
                term_rows: rows,
                term_cols: cols,
                ..*old(s)
            }),
            ef@ + autostart_effects(cfgs@, s.next_id as int) == autostart_effects(allcfgs, base),
        decreases cfgs.len(),
    {
        let cfg = cfgs.remove(0);
        let id = s.next_id;
        let auto = cfg.autostart;
        let p = Proc::new(id, cfg, rows, cols);
        let ghost q = p;
        s.procs.push(p);
        s.next_id = id + 1;
        if auto {
            ef.push(Effect::Spawn { id });
        }
        proof {
            assert(ef@ + autostart_effects(cfgs@, s.next_id as int) =~= autostart_effects(
                allcfgs,
                base,
            ));
        }
    }
    proof {
        assert(ef@ + Seq::<Effect>::empty() =~= ef@);
        assert(autostart_effects(cfgs@, s.next_id as int) =~= Seq::<Effect>::empty());
    }
    ef
}

/// The well-formedness of a list of processes on its own: each is well
/// formed, each id is below the counter, and the ids are pairwise distinct.
pub open spec fn procs_ok(ps: Seq<Proc>, next: usize) -> bool {
    &&& (forall|i: int| 0 <= i < ps.len() ==> (#[trigger] ps[i]).wf())
    &&& (forall|i: int| 0 <= i < ps.len() ==> (#[trigger] ps[i]).id < next)
    &&& (forall|i: int, j: int|
        0 <= i < ps.len() && 0 <= j < ps.len() && i != j ==> (#[trigger] ps[i]).id
            != (#[trigger] ps[j]).id)
}

} // verus!
