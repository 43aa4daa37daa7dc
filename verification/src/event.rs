//! Application commands and the values the event loop trades in.
//!
//! An [`AppEvent`] is one operation of the closed command set; keyboard
//! bindings, modal dialogs and the remote-control listener all produce the
//! same representation. Handling a command yields a [`LoopAction`] (whether
//! to redraw) and a list of [`Effect`]s: the outside work the unverified
//! shell must carry out.

use vstd::prelude::*;

use crate::key::Key;

verus! {

/// What the event loop does after handling one event.
#[derive(Clone, Copy, Debug, PartialEq, Eq, Structural)]
pub enum LoopAction {
    /// Redraw the screen.
    Render,
    /// Nothing visible changed.
    Skip,
    /// Leave the loop at once.
    ForceQuit,
}

/// A movement in copy mode.
#[derive(Clone, Copy, Debug, PartialEq, Eq, Structural)]
pub enum CopyMove {
    Up,
    Right,
    Left,
    Down,
}

/// A lifecycle notification from a process's background reader.
#[derive(Clone, Copy, Debug, PartialEq, Eq, Structural)]
pub enum ProcUpdate {
    /// New output was applied to the process's screen.
    Render,
    /// The child exited (its pseudo-terminal reached end of stream).
    Stopped,
    /// The child was spawned.
    Started,
}

/// The signal kind of a stop policy.
#[derive(Clone, Copy, Debug, PartialEq, Eq, Structural)]
pub enum SigKind {
    /// An interrupt request, as from the terminal's interrupt key.
    Interrupt,
    /// A polite termination request.
    Terminate,
    /// Unconditional termination.
    Kill,
}

/// Outside work requested by the library, carried out by the shell.
#[derive(Clone, Debug, PartialEq)]
pub enum Effect {
    /// Spawn the child of the process with this id; report the outcome back
    /// through [`crate::state::State::apply_spawned`].
    Spawn { id: usize },
    /// Send the given signal to the child of this process.
    Signal { id: usize, sig: SigKind },
    /// Write these bytes to the pseudo-terminal input of this process.
    WriteBytes { id: usize, bytes: Vec<u8> },
    /// Resize the pseudo-terminal of this process.
    ResizePty { id: usize, rows: usize, cols: usize },
    /// Hand this text to the clipboard.
    CopyText { text: String },
}

/// One operation of the closed application-command set.
#[derive(Debug, PartialEq)]
pub enum AppEvent {
    /// Several commands applied in order.
    Batch { cmds: Vec<AppEvent> },
    /// Quit if nothing runs, otherwise ask for confirmation.
    QuitOrAsk,
    /// Quit gracefully: stop every running process and leave once all are
    /// down.
    Quit,
    /// Kill every running process and leave at once.
    ForceQuit,
    /// Toggle focus between the process list and the terminal pane.
    ToggleFocus,
    /// Focus the process list.
    FocusProcs,
    /// Focus the terminal pane.
    FocusTerm,
    /// Zoom the terminal pane.
    Zoom,
    /// Select the next process, wrapping around.
    NextProc,
    /// Select the previous process, wrapping around.
    PrevProc,
    /// Select the process at this index, modulo the process count.
    SelectProc { index: usize },
    /// Start the selected process.
    StartProc,
    /// Stop the selected process with its stop policy.
    TermProc,
    /// Kill the selected process.
    KillProc,
    /// Restart the selected process (stop, then start once stopped).
    RestartProc,
    /// Restart the selected process by killing it first.
    ForceRestartProc,
    /// Scroll the selected terminal up `n` lines.
    ScrollUpLines { n: usize },
    /// Scroll the selected terminal down `n` lines.
    ScrollDownLines { n: usize },
    /// Scroll the selected terminal up half a screen.
    ScrollUp,
    /// Scroll the selected terminal down half a screen.
    ScrollDown,
    /// Open the dialog that adds a process.
    ShowAddProc,
    /// Add a process running this shell command.
    AddProc { cmd: String },
    /// Open the dialog that confirms removal of the selected process.
    ShowRemoveProc,
    /// Remove the process with this id; refused while it runs.
    RemoveProc { id: usize },
    /// Enter copy mode on the selected process.
    CopyModeEnter,
    /// Leave copy mode.
    CopyModeLeave,
    /// Move the active copy-mode position.
    CopyModeMove { dir: CopyMove },
    /// Freeze the first endpoint of the selection.
    CopyModeEnd,
    /// Copy the selection and leave copy mode.
    CopyModeCopy,
    /// Forward a key press to the selected process.
    SendKey { key: Key },
}

/// Short label of a command, as shown in the help bar.
pub open spec fn desc_spec(e: AppEvent) -> Seq<char> {
    match e {
        AppEvent::Batch { .. } => "Batch"@,
        AppEvent::QuitOrAsk => "Quit"@,
        AppEvent::Quit => "Quit"@,
        AppEvent::ForceQuit => "Force quit"@,
        AppEvent::ToggleFocus => "Toggle focus"@,
        AppEvent::FocusProcs => "Focus procs"@,
        AppEvent::FocusTerm => "Focus term"@,
        AppEvent::Zoom => "Zoom"@,
        AppEvent::NextProc => "Next"@,
        AppEvent::PrevProc => "Prev"@,
        AppEvent::SelectProc { .. } => "Select"@,
        AppEvent::StartProc => "Start"@,
        AppEvent::TermProc => "Stop"@,
        AppEvent::KillProc => "Kill"@,
        AppEvent::RestartProc => "Restart"@,
        AppEvent::ForceRestartProc => "Force restart"@,
        AppEvent::ScrollUpLines { .. } => "Scroll up"@,
        AppEvent::ScrollDownLines { .. } => "Scroll down"@,
        AppEvent::ScrollUp => "Scroll up"@,
        AppEvent::ScrollDown => "Scroll down"@,
        AppEvent::ShowAddProc => "Add proc"@,
        AppEvent::AddProc { .. } => "Add proc"@,
        AppEvent::ShowRemoveProc => "Remove proc"@,
        AppEvent::RemoveProc { .. } => "Remove proc"@,
        AppEvent::CopyModeEnter => "Copy mode"@,
        AppEvent::CopyModeLeave => "Leave copy mode"@,
        AppEvent::CopyModeMove { .. } => "Move"@,
        AppEvent::CopyModeEnd => "Start selection"@,
        AppEvent::CopyModeCopy => "Copy"@,
        AppEvent::SendKey { .. } => "Send key"@,
    }
}

impl AppEvent {
    /// Short label of this command, as shown in the help bar.
    pub fn desc(&self) -> (s: String)
        ensures
            s@ == desc_spec(*self),
    {
        match self {
            AppEvent::Batch { .. } => String::from_str("Batch"),
            AppEvent::QuitOrAsk => String::from_str("Quit"),
            AppEvent::Quit => String::from_str("Quit"),
            AppEvent::ForceQuit => String::from_str("Force quit"),
            AppEvent::ToggleFocus => String::from_str("Toggle focus"),
            AppEvent::FocusProcs => String::from_str("Focus procs"),
            AppEvent::FocusTerm => String::from_str("Focus term"),
            AppEvent::Zoom => String::from_str("Zoom"),
            AppEvent::NextProc => String::from_str("Next"),
            AppEvent::PrevProc => String::from_str("Prev"),
            AppEvent::SelectProc { .. } => String::from_str("Select"),
            AppEvent::StartProc => String::from_str("Start"),
            AppEvent::TermProc => String::from_str("Stop"),
            AppEvent::KillProc => String::from_str("Kill"),
            AppEvent::RestartProc => String::from_str("Restart"),
            AppEvent::ForceRestartProc => String::from_str("Force restart"),
            AppEvent::ScrollUpLines { .. } => String::from_str("Scroll up"),
            AppEvent::ScrollDownLines { .. } => String::from_str("Scroll down"),
            AppEvent::ScrollUp => String::from_str("Scroll up"),
            AppEvent::ScrollDown => String::from_str("Scroll down"),
            AppEvent::ShowAddProc => String::from_str("Add proc"),
            AppEvent::AddProc { .. } => String::from_str("Add proc"),
            AppEvent::ShowRemoveProc => String::from_str("Remove proc"),
            AppEvent::RemoveProc { .. } => String::from_str("Remove proc"),
            AppEvent::CopyModeEnter => String::from_str("Copy mode"),
            AppEvent::CopyModeLeave => String::from_str("Leave copy mode"),
            AppEvent::CopyModeMove { .. } => String::from_str("Move"),
            AppEvent::CopyModeEnd => String::from_str("Start selection"),
            AppEvent::CopyModeCopy => String::from_str("Copy"),
            AppEvent::SendKey { .. } => String::from_str("Send key"),
        }
    }
}

} // verus!
