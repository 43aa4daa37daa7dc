//! One supervised process.
//!
//! A [`Proc`] owns a command specification, a lifecycle state and, while
//! running, the emulated screen of its pseudo-terminal. The operating-system
//! half of each operation (spawning, signalling, writing to the terminal) is
//! returned as an [`Effect`] for the unverified shell to carry out; the
//! lifecycle transitions themselves are verified against the small
//! state machine [`life_step`].

use vstd::prelude::*;

use crate::encode::{encode_key, key_bytes};
use crate::event::{Effect, SigKind};
use crate::key::Key;
use crate::screen::{clamp_dim, clamp_hist, blank_cell, Screen, ScreenView};

verus! {

/// How many lines of history each process screen retains.
pub const SCROLLBACK_LINES: usize = 1000;

/// How a process is asked to stop: a signal kind, and the grace period the
/// operator is expected to wait before escalating to a kill. Nothing
/// escalates automatically.
#[derive(Clone, Copy, Debug, PartialEq, Eq, Structural)]
pub struct StopPolicy {
    pub sig: SigKind,
    pub grace_ms: u64,
}

impl Default for StopPolicy {
    /// A polite termination request with a three-second grace period.
    fn default() -> (r: StopPolicy)
        ensures
            r == (StopPolicy { sig: SigKind::Terminate, grace_ms: 3000u64 }),
    {
        StopPolicy { sig: SigKind::Terminate, grace_ms: 3000 }
    }
}

/// What command a process runs.
#[derive(Debug, PartialEq)]
pub enum CmdSpec {
    /// A shell command line.
    Shell { shell: String },
    /// An argument vector.
    Argv { args: Vec<String> },
}

/// Everything needed to create one process.
#[derive(Debug, PartialEq)]
pub struct ProcConfig {
    pub name: String,
    pub cmd: CmdSpec,
    pub cwd: Option<String>,
    pub env: Vec<(String, String)>,
    pub autostart: bool,
    pub stop: StopPolicy,
}

/// What came of an attempt to spawn the child.
#[derive(Debug, PartialEq)]
pub enum SpawnOutcome {
    /// The child is attached to a fresh pseudo-terminal.
    Spawned,
    /// The child could not be launched.
    Failed(String),
}

/// Lifecycle state of a process.
pub enum ProcState {
    /// No child exists.
    NotRunning,
    /// A child is attached; its terminal output accumulates in the screen.
    Running(Screen),
    /// The last spawn attempt failed with this message.
    Error(String),
}

/// The lifecycle state with the payload abstracted away.
#[derive(Clone, Copy, Debug, PartialEq, Eq, Structural)]
pub enum Life {
    NotRunning,
    Running,
    Error,
}

/// One abstract lifecycle operation.
#[derive(Clone, Copy, Debug, PartialEq, Eq, Structural)]
pub enum LifeOp {
    /// A start request together with whether the spawn succeeded.
    Start(bool),
    /// A polite stop request.
    Stop,
    /// An unconditional kill request.
    Kill,
    /// The child exited (end of stream on its terminal).
    ChildExit,
}

/// The lifecycle state machine. A start is a no-op while running; stop and
/// kill only send signals, so the state changes when the child's exit is
/// observed; an exit notification for a process that is not running is a
/// no-op.
pub open spec fn life_step(l: Life, op: LifeOp) -> Life {
    match op {
        LifeOp::Start(ok) => if l is Running {
            l
        } else if ok {
            Life::Running
        } else {
            Life::Error
        },
        LifeOp::Stop => l,
        LifeOp::Kill => l,
        LifeOp::ChildExit => if l is Running {
            Life::NotRunning
        } else {
            l
        },
    }
}

/// A whole sequence of lifecycle operations applied in order.
pub open spec fn life_run(l: Life, ops: Seq<LifeOp>) -> Life
    decreases ops.len(),
{
    if ops.len() == 0 {
        l
    } else {
        life_run(life_step(l, ops[0]), ops.drop_first())
    }
}

impl ProcState {
    /// The abstract lifecycle state.
    pub open spec fn life(self) -> Life {
        match self {
            ProcState::NotRunning => Life::NotRunning,
            ProcState::Running(_) => Life::Running,
            ProcState::Error(_) => Life::Error,
        }
    }

    /// Whether a child is attached.
    pub open spec fn is_running(self) -> bool {
        self is Running
    }

    /// The screen of the running child.
    pub open spec fn screen_view(self) -> ScreenView
        recommends
            self.is_running(),
    {
        match self {
            ProcState::Running(s) => s@,
            _ => vstd::pervasive::arbitrary(),
        }
    }

    /// The message of the error state.
    pub open spec fn error_msg(self) -> Seq<char>
        recommends
            self is Error,
    {
        match self {
            ProcState::Error(m) => m@,
            _ => vstd::pervasive::arbitrary(),
        }
    }
}

/// A point of the copy-mode selection: `y` is a line address (negative rows
/// walk into scrollback), `x` a column.
#[derive(Clone, Copy, Debug, PartialEq, Eq, Structural)]
pub struct Pos {
    pub y: i32,
    pub x: i32,
}

impl Pos {
    /// Reading order: top to bottom, then left to right.
    pub open spec fn le(self, o: Pos) -> bool {
        self.y < o.y || (self.y == o.y && self.x <= o.x)
    }

    /// The two points ordered by reading order.
    pub open spec fn low_high(a: Pos, b: Pos) -> (Pos, Pos) {
        if a.le(b) {
            (a, b)
        } else {
            (b, a)
        }
    }

    /// Orders two selection endpoints by reading order.
    pub fn to_low_high(a: &Pos, b: &Pos) -> (r: (Pos, Pos))
        ensures
            r == Pos::low_high(*a, *b),
    {
        if a.y < b.y || (a.y == b.y && a.x <= b.x) {
            (*a, *b)
        } else {
            (*b, *a)
        }
    }
}

/// Ordering two points by reading order does not depend on the order they
/// are given in.
pub proof fn lemma_low_high_symmetric(a: Pos, b: Pos)
    ensures
        Pos::low_high(a, b) == Pos::low_high(b, a),
{
}

/// Copy-mode state of a process.
pub enum CopyMode {
    /// Copy mode is off; an extracted selection may be cached.
    Inactive(Option<String>),
    /// A frozen screen with a single movable point.
    Anchored(Screen, Pos),
    /// A frozen screen with a fixed start and a movable end.
    Ranged(Screen, Pos, Pos),
}

impl CopyMode {
    /// Whether copy mode is on.
    pub open spec fn is_active(self) -> bool {
        !(self is Inactive)
    }

    /// The frozen screen of an active copy mode.
    pub open spec fn snap_view(self) -> ScreenView
        recommends
            self.is_active(),
    {
        match self {
            CopyMode::Anchored(s, _) => s@,
            CopyMode::Ranged(s, _, _) => s@,
            _ => vstd::pervasive::arbitrary(),
        }
    }

    /// The movable point of an active copy mode.
    pub open spec fn active_pos(self) -> Pos
        recommends
            self.is_active(),
    {
        match self {
            CopyMode::Anchored(_, p) => p,
            CopyMode::Ranged(_, _, p) => p,
            _ => vstd::pervasive::arbitrary(),
        }
    }
}

/// A movable copy-mode point clamped by the live screen: vertical moves stay
/// in `[-scrollback_len, rows - 1]`, horizontal moves in `[0, cols - 1]`.
pub open spec fn move_pos(p: Pos, dir: crate::event::CopyMove, rows: int, cols: int, sb: int) -> Pos {
    match dir {
        crate::event::CopyMove::Up => if p.y > -sb {
            Pos { y: (p.y - 1) as i32, x: p.x }
        } else {
            p
        },
        crate::event::CopyMove::Down => if p.y < rows - 1 {
            Pos { y: (p.y + 1) as i32, x: p.x }
        } else {
            p
        },
        crate::event::CopyMove::Left => if p.x > 0 {
            Pos { y: p.y, x: (p.x - 1) as i32 }
        } else {
            p
        },
        crate::event::CopyMove::Right => if p.x < cols - 1 {
            Pos { y: p.y, x: (p.x + 1) as i32 }
        } else {
            p
        },
    }
}

/// One supervised process.
pub struct Proc {
    /// Stable identifier, unique among the application's processes.
    pub id: usize,
    pub name: String,
    pub cmd: CmdSpec,
    pub cwd: Option<String>,
    pub env: Vec<(String, String)>,
    pub autostart: bool,
    pub stop: StopPolicy,
    /// Lifecycle state; owns the screen while running.
    pub state: ProcState,
    /// Start again once the current child has fully stopped.
    pub to_restart: bool,
    /// Output arrived while this process was not the selected one.
    pub changed: bool,
    /// Copy-mode overlay.
    pub copy_mode: CopyMode,
    /// Size of the terminal pane, used when a screen is created.
    pub rows: usize,
    pub cols: usize,
}

/// The view of a freshly created screen of the given pane size.
pub open spec fn fresh_screen_view(v: ScreenView, rows: usize, cols: usize) -> bool {
    &&& v.wf()
    &&& v.rows == clamp_dim(rows)
    &&& v.cols == clamp_dim(cols)
    &&& v.scrollback.len() == 0
    &&& v.offset == 0
    &&& v.cur_row == 0
    &&& v.cur_col == 0
    &&& v.max_scrollback == clamp_hist(SCROLLBACK_LINES)
    &&& forall|y: int, x: int| 0 <= y < v.rows && 0 <= x < v.cols ==> v.grid[y][x] == blank_cell()
}

impl Proc {
    /// Screens held by this process are well formed.
    pub open spec fn wf(self) -> bool {
        &&& (self.state.is_running() ==> self.state.screen_view().wf())
        &&& (self.copy_mode.is_active() ==> self.copy_mode.snap_view().wf())
    }

    /// A new process in the `NotRunning` state; nothing is spawned yet.
    pub fn new(id: usize, cfg: ProcConfig, rows: usize, cols: usize) -> (p: Proc)
        ensures
            p.wf(),
            p.id == id,
            p.name == cfg.name,
            p.cmd == cfg.cmd,
            p.cwd == cfg.cwd,
            p.env == cfg.env,
            p.autostart == cfg.autostart,
            p.stop == cfg.stop,
            p.state is NotRunning,
            !p.to_restart,
            !p.changed,
            p.copy_mode == CopyMode::Inactive(Option::None),
            p.rows == rows,
            p.cols == cols,
    {
        let ProcConfig { name, cmd, cwd, env, autostart, stop } = cfg;
        Proc {
            id,
            name,
            cmd,
            cwd,
            env,
            autostart,
            stop,
            state: ProcState::NotRunning,
            to_restart: false,
            changed: false,
            copy_mode: CopyMode::Inactive(Option::None),
            rows,
            cols,
        }
    }

    /// Whether a child is attached.
    pub fn is_up(&self) -> (r: bool)
        ensures
            r == self.state.is_running(),
    {
        match &self.state {
            ProcState::Running(_) => true,
            _ => false,
        }
    }

    /// Applies the outcome of a spawn attempt. A start while running is a
    /// no-op; a successful spawn attaches a fresh screen sized to the pane;
    /// a failed spawn records the error. Refines `life_step` with
    /// `LifeOp::Start`.
    pub fn start(&mut self, outcome: SpawnOutcome)
        requires
            old(self).wf(),
        ensures
            final(self).wf(),
            started_proc(*old(self), outcome, *final(self)),
            final(self).state.life() == life_step(
                old(self).state.life(),
                LifeOp::Start(outcome is Spawned),
            ),
            old(self).state.is_running() ==> *final(self) == *old(self),
            !old(self).state.is_running() ==> *final(self) == (Proc {
                state: final(self).state,
                ..*old(self)
            }),
            !old(self).state.is_running() && outcome is Spawned ==> {
                &&& final(self).state.is_running()
                &&& fresh_screen_view(
                    final(self).state.screen_view(),
                    old(self).rows,
                    old(self).cols,
                )
            },
            !old(self).state.is_running() && outcome is Failed ==> final(self).state
                == ProcState::Error(outcome->Failed_0),
    {
        if self.is_up() {
            return ;
        }
        match outcome {
            SpawnOutcome::Spawned => {
                let screen = Screen::new(self.rows, self.cols, SCROLLBACK_LINES);
                self.state = ProcState::Running(screen);
            },
            SpawnOutcome::Failed(msg) => {
                self.state = ProcState::Error(msg);
            },
        }
    }

    /// Asks the child to stop with the configured policy. Does not change
    /// state: the exit is observed through the update channel. Refines
    /// `life_step` with `LifeOp::Stop` (the state is unchanged).
    pub fn stop(&self) -> (e: Option<Effect>)
        ensures
            self.state.is_running() ==> e == Some(
                Effect::Signal { id: self.id, sig: self.stop.sig },
            ),
            !self.state.is_running() ==> e is None,
    {
        if self.is_up() {
            Some(Effect::Signal { id: self.id, sig: self.stop.sig })
        } else {
            None
        }
    }

    /// Asks the child to terminate unconditionally. Refines `life_step`
    /// with `LifeOp::Kill` (the state is unchanged).
    pub fn kill(&self) -> (e: Option<Effect>)
        ensures
            self.state.is_running() ==> e == Some(
                Effect::Signal { id: self.id, sig: SigKind::Kill },
            ),
            !self.state.is_running() ==> e is None,
    {
        if self.is_up() {
            Some(Effect::Signal { id: self.id, sig: SigKind::Kill })
        } else {
            None
        }
    }

    /// Records that the child exited; any copy-mode selection dies with the
    /// instance, since copy mode only exists on a running process. Refines
    /// `life_step` with `LifeOp::ChildExit`.
    pub fn on_stopped(&mut self)
        requires
            old(self).wf(),
        ensures
            final(self).wf(),
            final(self).state.life() == life_step(old(self).state.life(), LifeOp::ChildExit),
            old(self).state.is_running() ==> *final(self) == (Proc {
                state: ProcState::NotRunning,
                copy_mode: CopyMode::Inactive(Option::None),
                ..*old(self)
            }),
            !old(self).state.is_running() ==> *final(self) == *old(self),
    {
        if self.is_up() {
            self.state = ProcState::NotRunning;
            self.copy_mode = CopyMode::Inactive(None);
        }
    }

    /// Feeds a chunk of the child's output into the screen, exactly as the
    /// emulation spec interprets it. The frozen copy-mode screen, the pane
    /// geometry and the view offset are untouched.
    pub fn apply_output(&mut self, bytes: &[u8])
        requires
            old(self).wf(),
        ensures
            final(self).wf(),
            fed_proc(*old(self), bytes@, *final(self)),
    {
        match &mut self.state {
            ProcState::Running(screen) => {
                screen.feed(bytes);
            },
            _ => {},
        }
    }

    /// Records the new pane size and resizes the live screen to it. The
    /// shell receives a request to resize the pseudo-terminal as well.
    pub fn resize(&mut self, rows: usize, cols: usize) -> (e: Option<Effect>)
        requires
            old(self).wf(),
        ensures
            final(self).wf(),
            final(self).rows == rows,
            final(self).cols == cols,
            final(self).state.life() == old(self).state.life(),
            *final(self) == (Proc {
                state: final(self).state,
                rows: rows,
                cols: cols,
                ..*old(self)
            }),
            old(self).state.is_running() ==> {
                &&& final(self).state.is_running()
                &&& crate::screen::resized_view(
                    old(self).state.screen_view(),
                    final(self).state.screen_view(),
                    rows,
                    cols,
                )
                &&& final(self).state.screen_view().rows == clamp_dim(rows)
                &&& final(self).state.screen_view().cols == clamp_dim(cols)
                &&& e == Some(Effect::ResizePty { id: old(self).id, rows, cols })
            },
            !old(self).state.is_running() ==> final(self).state == old(self).state && e is None,
    {
        self.rows = rows;
        self.cols = cols;
        match &mut self.state {
            ProcState::Running(screen) => {
                screen.resize(rows, cols);
                Some(Effect::ResizePty { id: self.id, rows, cols })
            },
            _ => None,
        }
    }

    /// Forwards a key press to the child as terminal input bytes.
    pub fn send_key(&self, key: &Key) -> (e: Option<Effect>)
        ensures
            self.state.is_running() ==> match e {
                Some(Effect::WriteBytes { id, bytes }) => id == self.id && bytes@ == key_bytes(
                    *key,
                ),
                _ => false,
            },
            !self.state.is_running() ==> e is None,
    {
        if self.is_up() {
            let bytes = encode_key(key);
            Some(Effect::WriteBytes { id: self.id, bytes })
        } else {
            None
        }
    }

    /// Forwards a mouse event to the child as an extended mouse report,
    /// when the child asked for mouse reporting in that encoding; the
    /// coordinates are zero-based cells of the terminal pane.
    pub fn send_mouse(&self, kind: crate::ui::MouseKind, col: u16, row: u16) -> (e: Option<
        Effect,
    >)
        requires
            col < u16::MAX,
            row < u16::MAX,
        ensures
            self.state.is_running() && self.state.screen_view().mouse_on
                && self.state.screen_view().mouse_sgr ==> match e {
                Some(Effect::WriteBytes { id, bytes }) => id == self.id && bytes@
                    == crate::encode::mouse_bytes(kind, col, row),
                _ => false,
            },
            !(self.state.is_running() && self.state.screen_view().mouse_on
                && self.state.screen_view().mouse_sgr) ==> e is None,
    {
        match &self.state {
            ProcState::Running(screen) => {
                if screen.mouse_on && screen.mouse_sgr {
                    let bytes = crate::encode::encode_mouse(kind, col, row);
                    Some(Effect::WriteBytes { id: self.id, bytes })
                } else {
                    None
                }
            },
            _ => None,
        }
    }

    /// Scrolls the live screen's view up `n` lines, clamped to the history.
    pub fn scroll_up_lines(&mut self, n: usize)
        requires
            old(self).wf(),
        ensures
            final(self).wf(),
            *final(self) == (Proc { state: final(self).state, ..*old(self) }),
            final(self).state.life() == old(self).state.life(),
            old(self).state.is_running() ==> final(self).state == ProcState::Running(
                Screen {
                    offset: scroll_up_target(old(self).state.screen_view(), n as int) as usize,
                    ..old(self).state->Running_0
                },
            ),
            !old(self).state.is_running() ==> *final(self) == *old(self),
    {
        match &mut self.state {
            ProcState::Running(screen) => {
                screen.scroll_up_view(n);
            },
            _ => {},
        }
    }

    /// Scrolls the live screen's view down `n` lines, clamped at the live
    /// grid.
    pub fn scroll_down_lines(&mut self, n: usize)
        requires
            old(self).wf(),
        ensures
            final(self).wf(),
            *final(self) == (Proc { state: final(self).state, ..*old(self) }),
            final(self).state.life() == old(self).state.life(),
            old(self).state.is_running() ==> final(self).state == ProcState::Running(
                Screen {
                    offset: scroll_down_target(old(self).state.screen_view(), n as int) as usize,
                    ..old(self).state->Running_0
                },
            ),
            !old(self).state.is_running() ==> *final(self) == *old(self),
    {
        match &mut self.state {
            ProcState::Running(screen) => {
                screen.scroll_down_view(n);
            },
            _ => {},
        }
    }

    /// Scrolls up by half the screen height.
    pub fn scroll_half_screen_up(&mut self)
        requires
            old(self).wf(),
        ensures
            final(self).wf(),
            *final(self) == (Proc { state: final(self).state, ..*old(self) }),
            final(self).state.life() == old(self).state.life(),
            old(self).state.is_running() ==> final(self).state == ProcState::Running(
                Screen {
                    offset: scroll_up_target(
                        old(self).state.screen_view(),
                        old(self).state.screen_view().rows / 2,
                    ) as usize,
                    ..old(self).state->Running_0
                },
            ),
            !old(self).state.is_running() ==> *final(self) == *old(self),
    {
        match &mut self.state {
            ProcState::Running(screen) => {
                let half = screen.size().0 / 2;
                screen.scroll_up_view(half);
            },
            _ => {},
        }
    }

    /// Scrolls down by half the screen height.
    pub fn scroll_half_screen_down(&mut self)
        requires
            old(self).wf(),
        ensures
            final(self).wf(),
            *final(self) == (Proc { state: final(self).state, ..*old(self) }),
            final(self).state.life() == old(self).state.life(),
            old(self).state.is_running() ==> final(self).state == ProcState::Running(
                Screen {
                    offset: scroll_down_target(
                        old(self).state.screen_view(),
                        old(self).state.screen_view().rows / 2,
                    ) as usize,
                    ..old(self).state->Running_0
                },
            ),
            !old(self).state.is_running() ==> *final(self) == *old(self),
    {
        match &mut self.state {
            ProcState::Running(screen) => {
                let half = screen.size().0 / 2;
                screen.scroll_down_view(half);
            },
            _ => {},
        }
    }

    /// Enters copy mode: freezes a snapshot of the live screen and anchors
    /// the selection at the bottom-left visible cell. Does nothing unless a
    /// child runs.
    pub fn copy_mode_enter(&mut self) -> (entered: bool)
        requires
            old(self).wf(),
        ensures
            final(self).wf(),
            entered == old(self).state.is_running(),
            *final(self) == (Proc { copy_mode: final(self).copy_mode, ..*old(self) }),
            old(self).state.is_running() ==> {
                &&& final(self).copy_mode is Anchored
                &&& final(self).copy_mode.snap_view() == old(self).state.screen_view()
                &&& final(self).copy_mode.active_pos() == (Pos {
                    y: (old(self).state.screen_view().rows - 1) as i32,
                    x: 0,
                })
            },
            !old(self).state.is_running() ==> *final(self) == *old(self),
    {
        match &self.state {
            ProcState::Running(screen) => {
                let snap = screen.snapshot();
                let (rows, _cols) = screen.size();
                let y: i32 = (rows - 1) as i32;
                self.copy_mode = CopyMode::Anchored(snap, Pos { y, x: 0 });
                true
            },
            _ => false,
        }
    }

    /// Leaves copy mode, discarding any snapshot.
    pub fn copy_mode_leave(&mut self)
        requires
            old(self).wf(),
        ensures
            final(self).wf(),
            *final(self) == (Proc {
                copy_mode: CopyMode::Inactive(Option::None),
                ..*old(self)
            }),
    {
        self.copy_mode = CopyMode::Inactive(None);
    }

    /// Moves the active copy-mode point, clamped by the live screen's size
    /// and history. The frozen snapshot itself is never touched. Does
    /// nothing unless a child runs and copy mode is on.
    pub fn copy_mode_move(&mut self, dir: crate::event::CopyMove)
        requires
            old(self).wf(),
        ensures
            final(self).wf(),
            *final(self) == (Proc { copy_mode: final(self).copy_mode, ..*old(self) }),
            !(old(self).state.is_running() && old(self).copy_mode.is_active()) ==> *final(self)
                == *old(self),
            old(self).state.is_running() && old(self).copy_mode.is_active() ==> {
                &&& final(self).copy_mode.is_active()
                &&& final(self).copy_mode.snap_view() == old(self).copy_mode.snap_view()
                &&& final(self).copy_mode.active_pos() == move_pos(
                    old(self).copy_mode.active_pos(),
                    dir,
                    old(self).copy_mode.snap_view().rows,
                    old(self).copy_mode.snap_view().cols,
                    old(self).copy_mode.snap_view().scrollback.len() as int,
                )
                &&& (old(self).copy_mode is Anchored <==> final(self).copy_mode is Anchored)
                &&& (old(self).copy_mode is Ranged ==> final(self).copy_mode is Ranged
                    && final(self).copy_mode->Ranged_1 == old(self).copy_mode->Ranged_1)
            },
    {
        if !self.is_up() {
            return ;
        }
        // the selection lives on the frozen snapshot; its size and history
        // bound the movement
        let (srows, scols, ssb): (usize, usize, usize) = match &self.copy_mode {
            CopyMode::Anchored(snap, _) => {
                let (r, c) = snap.size();
                (r, c, snap.scrollback_len())
            },
            CopyMode::Ranged(snap, _, _) => {
                let (r, c) = snap.size();
                (r, c, snap.scrollback_len())
            },
            CopyMode::Inactive(_) => {
                return ;
            },
        };
        proof {
            assert(self.copy_mode.snap_view().wf());
        }
        match &mut self.copy_mode {
            CopyMode::Anchored(_, pos) => {
                *pos = step_pos(*pos, dir, srows, scols, ssb);
            },
            CopyMode::Ranged(_, _, pos) => {
                *pos = step_pos(*pos, dir, srows, scols, ssb);
            },
            CopyMode::Inactive(_) => {},
        }
    }

    /// Freezes the current point as the fixed start of the selection; the
    /// same point then keeps moving as the end. Only meaningful while
    /// anchored.
    pub fn copy_mode_end(&mut self)
        requires
            old(self).wf(),
        ensures
            final(self).wf(),
            *final(self) == (Proc { copy_mode: final(self).copy_mode, ..*old(self) }),
            old(self).copy_mode is Anchored ==> final(self).copy_mode == CopyMode::Ranged(
                old(self).copy_mode->Anchored_0,
                old(self).copy_mode->Anchored_1,
                old(self).copy_mode->Anchored_1,
            ),
            !(old(self).copy_mode is Anchored) ==> *final(self) == *old(self),
    {
        let mut cm = CopyMode::Inactive(None);
        core::mem::swap(&mut self.copy_mode, &mut cm);
        match cm {
            CopyMode::Anchored(screen, start) => {
                self.copy_mode = CopyMode::Ranged(screen, start, start);
            },
            other => {
                self.copy_mode = other;
            },
        }
    }

    /// Extracts the selected text from the frozen snapshot and resets copy
    /// mode. The text is handed to the clipboard through an effect; the two
    /// endpoints may be given in either order. Yields no text unless the
    /// selection is ranged and both endpoints lie inside the snapshot.
    pub fn copy_mode_copy(&mut self) -> (e: Option<Effect>)
        requires
            old(self).wf(),
        ensures
            final(self).wf(),
            *final(self) == (Proc {
                copy_mode: CopyMode::Inactive(Option::None),
                ..*old(self)
            }),
            old(self).copy_mode is Ranged && sel_in_bounds(
                old(self).copy_mode.snap_view(),
                old(self).copy_mode->Ranged_1,
                old(self).copy_mode->Ranged_2,
            ) ==> match e {
                Some(Effect::CopyText { text }) => text@ == sel_text_of(
                    old(self).copy_mode.snap_view(),
                    old(self).copy_mode->Ranged_1,
                    old(self).copy_mode->Ranged_2,
                ),
                _ => false,
            },
            !(old(self).copy_mode is Ranged && sel_in_bounds(
                old(self).copy_mode.snap_view(),
                old(self).copy_mode->Ranged_1,
                old(self).copy_mode->Ranged_2,
            )) ==> e is None,
    {
        let mut cm = CopyMode::Inactive(None);
        core::mem::swap(&mut self.copy_mode, &mut cm);
        match cm {
            CopyMode::Ranged(screen, start, end) => {
                let (low, high) = Pos::to_low_high(&start, &end);
                let sb = screen.scrollback_len();
                let (rows, cols) = screen.size();
                if sb <= 0x7fffffff && rows <= 0x7fffffff && cols <= 0x7fffffff && -(low.y as i64)
                    <= sb as i64 && (high.y as i64) < rows as i64 && 0 <= low.x && (low.x as i64)
                    < cols as i64 && 0 <= high.x && (high.x as i64) < cols as i64 {
                    let text = screen.get_selected_text(low.x, low.y, high.x, high.y);
                    Some(Effect::CopyText { text })
                } else {
                    None
                }
            },
            _ => None,
        }
    }
}

/// Relates a process before and after the outcome of a spawn attempt was
/// applied: a start while running is a no-op, a successful spawn attaches a
/// fresh screen sized to the pane, a failed spawn records the error.
pub open spec fn started_proc(p: Proc, outcome: SpawnOutcome, q: Proc) -> bool {
    &&& q.state.life() == life_step(p.state.life(), LifeOp::Start(outcome is Spawned))
    &&& (p.state.is_running() ==> q == p)
    &&& (!p.state.is_running() ==> q == (Proc { state: q.state, ..p }))
    &&& (!p.state.is_running() && outcome is Spawned ==> q.state.is_running()
        && fresh_screen_view(q.state.screen_view(), p.rows, p.cols))
    &&& (!p.state.is_running() && outcome is Failed ==> q.state == ProcState::Error(
        outcome->Failed_0,
    ))
}

/// Relates a process before and after one chunk of child output: only the
/// running screen changes, and it advances exactly per the emulation spec.
pub open spec fn fed_proc(p: Proc, bytes: Seq<u8>, q: Proc) -> bool {
    &&& q == (Proc { state: q.state, ..p })
    &&& q.state.life() == p.state.life()
    &&& p.state.is_running() ==> q.state is Running && q.state.screen_view()
        == crate::screen::feed_spec(p.state.screen_view(), bytes)
    &&& !p.state.is_running() ==> q == p
}

/// Whether both selection endpoints lie inside the snapshot.
pub open spec fn sel_in_bounds(v: ScreenView, a: Pos, b: Pos) -> bool {
    let (low, high) = Pos::low_high(a, b);
    &&& -(v.scrollback.len() as int) <= low.y as int
    &&& (high.y as int) < v.rows
    &&& 0 <= low.x as int
    &&& (low.x as int) < v.cols
    &&& 0 <= high.x as int
    &&& (high.x as int) < v.cols
}

/// The text selected between two endpoints, in either order.
pub open spec fn sel_text_of(v: ScreenView, a: Pos, b: Pos) -> Seq<char> {
    let (low, high) = Pos::low_high(a, b);
    v.sel_text(low.x as int, low.y as int, high.x as int, high.y as int)
}

/// The view offset after scrolling up `n` lines.
pub open spec fn scroll_up_target(v: ScreenView, n: int) -> int {
    if v.offset + n <= v.scrollback.len() {
        v.offset + n
    } else {
        v.scrollback.len() as int
    }
}

/// The view offset after scrolling down `n` lines.
pub open spec fn scroll_down_target(v: ScreenView, n: int) -> int {
    if n <= v.offset {
        v.offset - n
    } else {
        0
    }
}

/// Applies one clamped movement to a copy-mode point.
fn step_pos(p: Pos, dir: crate::event::CopyMove, rows: usize, cols: usize, sb: usize) -> (r: Pos)
    requires
        1 <= rows <= 0xffff,
        1 <= cols <= 0xffff,
        sb <= 100000,
    ensures
        r == move_pos(p, dir, rows as int, cols as int, sb as int),
{
    match dir {
        crate::event::CopyMove::Up => {
            if p.y > -(sb as i32) {
                Pos { y: p.y - 1, x: p.x }
            } else {
                p
            }
        },
        crate::event::CopyMove::Down => {
            if p.y < (rows as i32) - 1 {
                Pos { y: p.y + 1, x: p.x }
            } else {
                p
            }
        },
        crate::event::CopyMove::Left => {
            if p.x > 0 {
                Pos { y: p.y, x: p.x - 1 }
            } else {
                p
            }
        },
        crate::event::CopyMove::Right => {
            if p.x < (cols as i32) - 1 {
                Pos { y: p.y, x: p.x + 1 }
            } else {
                p
            }
        },
    }
}

} // verus!
