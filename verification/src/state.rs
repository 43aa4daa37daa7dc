//! Global application state.
//!
//! One value of [`State`] is owned by the event loop and mutated nowhere
//! else: the ordered process list (insertion order is display order), the
//! selection, the focus scope, the active modal and the quitting flag.

use vstd::prelude::*;

use crate::input_line::InputLine;
use crate::proc::{Proc, SpawnOutcome};

verus! {

/// Which pane has the focus.
#[derive(Clone, Copy, Debug, PartialEq, Eq, Structural)]
pub enum Scope {
    /// The process list.
    Procs,
    /// The terminal pane.
    Term,
    /// The terminal pane, zoomed.
    TermZoom,
}

impl Scope {
    /// Whether the terminal pane is zoomed.
    pub open spec fn is_zoomed_spec(self) -> bool {
        self is TermZoom
    }

    /// Whether the terminal pane is zoomed.
    pub fn is_zoomed(&self) -> (r: bool)
        ensures
            r == self.is_zoomed_spec(),
    {
        match self {
            Scope::TermZoom => true,
            _ => false,
        }
    }

    /// Toggles between the process list and the terminal pane; leaving zoom
    /// focuses the process list.
    pub open spec fn toggle_spec(self) -> Scope {
        match self {
            Scope::Procs => Scope::Term,
            Scope::Term => Scope::Procs,
            Scope::TermZoom => Scope::Procs,
        }
    }

    /// Toggles between the process list and the terminal pane.
    pub fn toggle(&self) -> (r: Scope)
        ensures
            r == self.toggle_spec(),
    {
        match self {
            Scope::Procs => Scope::Term,
            Scope::Term => Scope::Procs,
            Scope::TermZoom => Scope::Procs,
        }
    }
}

/// Which key-binding table applies.
#[derive(Clone, Copy, Debug, PartialEq, Eq, Structural)]
pub enum KeymapGroup {
    /// Focus on the process list.
    Procs,
    /// Focus on the terminal pane.
    Term,
    /// Copy mode.
    Copy,
}

/// The modal dialog on top of everything, if one is open.
pub enum Modal {
    /// Asks for a command line to add as a new process.
    AddProc { input: InputLine },
    /// Asks to confirm removal of the process with this id.
    RemoveProc { id: usize },
    /// Asks to confirm quitting.
    Quit,
}

/// Global application state.
pub struct State {
    /// Which pane has the focus.
    pub scope: Scope,
    /// All processes, in display order.
    pub procs: Vec<Proc>,
    /// Index of the selected process.
    pub selected: usize,
    /// The open modal dialog, if any.
    pub modal: Option<Modal>,
    /// A graceful quit is underway: leave once every process is down.
    pub quitting: bool,
    /// The id the next added process will get.
    pub next_id: usize,
    /// Last known size of the terminal pane, given to new processes.
    pub term_rows: usize,
    pub term_cols: usize,
}

impl State {
    /// Structural invariant: processes are well formed, ids are unique and
    /// below the id counter, the selection points at a process (resting at
    /// 0 while the list is empty), and the modal's input line is well
    /// formed.
    pub open spec fn wf(self) -> bool {
        &&& (if self.procs.len() == 0 {
            self.selected == 0
        } else {
            (self.selected as int) < self.procs.len()
        })
        &&& (forall|i: int| 0 <= i < self.procs.len() ==> (#[trigger] self.procs[i]).wf())
        &&& (forall|i: int| 0 <= i < self.procs.len() ==> (#[trigger] self.procs[i]).id < self.next_id)
        &&& (forall|i: int, j: int|
            0 <= i < self.procs.len() && 0 <= j < self.procs.len() && i != j
                ==> (#[trigger] self.procs[i]).id != (#[trigger] self.procs[j]).id)
        &&& match self.modal {
            Some(Modal::AddProc { input }) => input.wf(),
            _ => true,
        }
    }

    /// A fresh state with no processes, focus on the process list.
    pub fn new() -> (s: State)
        ensures
            s.wf(),
            s.scope == Scope::Procs,
            s.procs@.len() == 0,
            s.selected == 0,
            s.modal is None,
            !s.quitting,
            s.next_id == 0,
            s.term_rows == 24,
            s.term_cols == 80,
    {
        State {
            scope: Scope::Procs,
            procs: Vec::new(),
            selected: 0,
            modal: None,
            quitting: false,
            next_id: 0,
            term_rows: 24,
            term_cols: 80,
        }
    }

    /// Whether every process is down (`NotRunning` or `Error`).
    pub open spec fn all_down_spec(self) -> bool {
        forall|i: int| 0 <= i < self.procs.len() ==> !(#[trigger] self.procs[i]).state.is_running()
    }

    /// Whether every process is down; with the quitting flag this is the
    /// graceful-quit barrier.
    pub fn all_procs_down(&self) -> (r: bool)
        ensures
            r == self.all_down_spec(),
    {
        let mut i: usize = 0;
        while i < self.procs.len()
            invariant
                i <= self.procs.len(),
                forall|k: int| 0 <= k < i ==> !(#[trigger] self.procs[k]).state.is_running(),
            decreases self.procs.len() - i,
        {
            if self.procs[i].is_up() {
                return false;
            }
            i += 1;
        }
        true
    }

    /// Whether some process is running.
    pub fn any_proc_up(&self) -> (r: bool)
        ensures
            r == !self.all_down_spec(),
    {
        !self.all_procs_down()
    }

    /// The selected process, when the selection points at one.
    pub open spec fn has_current(self) -> bool {
        self.selected < self.procs.len()
    }

    /// The selected process.
    pub open spec fn current_spec(self) -> Proc
        recommends
            self.has_current(),
    {
        self.procs[self.selected as int]
    }

    /// The index of the process with the given id, if it exists.
    pub open spec fn index_of_id(self, id: usize) -> Option<int> {
        if exists|i: int| 0 <= i < self.procs.len() && (#[trigger] self.procs[i]).id == id {
            Some(choose|i: int| 0 <= i < self.procs.len() && (#[trigger] self.procs[i]).id == id)
        } else {
            None
        }
    }

    /// Finds the position of the process with the given id.
    pub fn find_proc(&self, id: usize) -> (r: Option<usize>)
        ensures
            match r {
                Some(i) => i < self.procs.len() && self.procs[i as int].id == id,
                None => forall|i: int|
                    0 <= i < self.procs.len() ==> (#[trigger] self.procs[i]).id != id,
            },
    {
        let mut i: usize = 0;
        while i < self.procs.len()
            invariant
                i <= self.procs.len(),
                forall|k: int| 0 <= k < i ==> (#[trigger] self.procs[k]).id != id,
            decreases self.procs.len() - i,
        {
            if self.procs[i].id == id {
                return Some(i);
            }
            i += 1;
        }
        None
    }

    /// Selects the process at `index`, wrapping modulo the process count:
    /// the previously selected process leaves copy mode, the newly selected
    /// one has its activity flag cleared. With no processes the selection
    /// rests at 0.
    pub fn select_proc(&mut self, index: usize)
        requires
            old(self).wf(),
        ensures
            final(self).wf(),
            selected_to(*old(self), index, *final(self)),
    {
        if self.procs.len() == 0 {
            self.selected = 0;
            return ;
        }
        let sel = index % self.procs.len();
        let prev = self.selected;
        if prev < self.procs.len() && prev != sel {
            let mut p = self.procs.remove(prev);
            p.copy_mode_leave();
            let ghost q = p;
            self.procs.insert(prev, p);
            proof {
                assert(self.procs@ =~= old(self).procs@.update(prev as int, q));
            }
        }
        let ghost mid = self.procs@;
        self.selected = sel;
        let cleared = Proc { changed: false, ..self.procs.remove(sel) };
        self.procs.insert(sel, cleared);
        proof {
            assert(self.procs@ =~= mid.update(
                sel as int,
                Proc { changed: false, ..mid[sel as int] },
            ));
        }
    }

    /// Which key-binding table applies: the process list's, the terminal's,
    /// or copy mode's when the selected process has an active selection.
    pub fn get_keymap_group(&self) -> (g: KeymapGroup)
        ensures
            g == keymap_group_spec(*self),
    {
        match self.scope {
            Scope::Procs => KeymapGroup::Procs,
            Scope::Term | Scope::TermZoom => {
                if self.selected < self.procs.len() {
                    if copy_mode_on(&self.procs[self.selected]) {
                        KeymapGroup::Copy
                    } else {
                        KeymapGroup::Term
                    }
                } else {
                    KeymapGroup::Term
                }
            },
        }
    }

    /// Applies the outcome of a spawn the shell performed for this id.
    /// Unknown ids and processes already running are left untouched.
    pub fn apply_spawned(&mut self, id: usize, outcome: SpawnOutcome)
        requires
            old(self).wf(),
        ensures
            final(self).wf(),
            match old(self).index_of_id(id) {
                Some(i) => {
                    &&& final(self).procs@.len() == old(self).procs@.len()
                    &&& (forall|k: int|
                        0 <= k < old(self).procs@.len() && k != i
                            ==> final(self).procs@[k] == old(self).procs@[k])
                    &&& crate::proc::started_proc(
                        old(self).procs@[i],
                        outcome,
                        final(self).procs@[i],
                    )
                    &&& *final(self) == (State { procs: final(self).procs, ..*old(self) })
                },
                None => *final(self) == *old(self),
            },
    {
        let found = self.find_proc(id);
        match found {
            Some(i) => {
                proof {
                    assert(old(self).index_of_id(id) is Some);
                    let j = choose|j: int|
                        0 <= j < old(self).procs.len() && (#[trigger] old(self).procs[j]).id == id;
                    assert(old(self).procs[j].id == id);
                    assert(j == i as int);
                }
                let mut p = self.procs.remove(i);
                p.start(outcome);
                let ghost q = p;
                self.procs.insert(i, p);
                proof {
                    assert(self.procs@ =~= old(self).procs@.update(i as int, q));
                }
            },
            None => {
                proof {
                    assert(old(self).index_of_id(id) is None);
                }
            },
        }
    }

    /// Feeds a chunk of child output into the process with this id; its
    /// screen advances exactly per the emulation spec, and nothing else
    /// changes. The activity flag is handled by the update channel's
    /// notification, not here.
    pub fn apply_output(&mut self, id: usize, bytes: &[u8])
        requires
            old(self).wf(),
        ensures
            final(self).wf(),
            *final(self) == (State { procs: final(self).procs, ..*old(self) }),
            match old(self).index_of_id(id) {
                Some(i) => {
                    &&& final(self).procs@.len() == old(self).procs@.len()
                    &&& (forall|k: int|
                        0 <= k < old(self).procs@.len() && k != i
                            ==> final(self).procs@[k] == old(self).procs@[k])
                    &&& crate::proc::fed_proc(
                        old(self).procs@[i],
                        bytes@,
                        final(self).procs@[i],
                    )
                },
                None => *final(self) == *old(self),
            },
    {
        let found = self.find_proc(id);
        match found {
            Some(i) => {
                proof {
                    assert(old(self).index_of_id(id) is Some);
                    let j = choose|j: int|
                        0 <= j < old(self).procs.len() && (#[trigger] old(self).procs[j]).id == id;
                    assert(old(self).procs[j].id == id);
                    assert(j == i as int);
                }
                let mut p = self.procs.remove(i);
                p.apply_output(bytes);
                let ghost q = p;
                self.procs.insert(i, p);
                proof {
                    assert(self.procs@ =~= old(self).procs@.update(i as int, q));
                }
            },
            None => {
                proof {
                    assert(old(self).index_of_id(id) is None);
                }
            },
        }
    }
}

/// Whether `post` is `pre` after selecting `index`, wrapping modulo the
/// process count: the previously selected process loses any copy-mode
/// selection (copy mode belongs to the focused process alone), and the
/// newly selected one has its activity flag cleared.
pub open spec fn selected_to(pre: State, index: usize, post: State) -> bool {
    if pre.procs@.len() == 0 {
        post == (State { selected: 0usize, ..pre })
    } else {
        {
            let sel = index as int % pre.procs@.len() as int;
            let cleared = if pre.selected < pre.procs@.len() && pre.selected != sel {
                pre.procs@.update(
                    pre.selected as int,
                    Proc {
                        copy_mode: crate::proc::CopyMode::Inactive(Option::None),
                        ..pre.procs@[pre.selected as int]
                    },
                )
            } else {
                pre.procs@
            };
            &&& post.selected == sel
            &&& post.procs@ == cleared.update(sel, Proc { changed: false, ..cleared[sel] })
            &&& post == (State { selected: post.selected, procs: post.procs, ..pre })
        }
    }
}

/// Whether a process's copy mode is on.
pub fn copy_mode_on(p: &Proc) -> (r: bool)
    ensures
        r == p.copy_mode.is_active(),
{
    match &p.copy_mode {
        crate::proc::CopyMode::Inactive(_) => false,
        _ => true,
    }
}

/// The key-binding table that applies in a state.
pub open spec fn keymap_group_spec(s: State) -> KeymapGroup {
    match s.scope {
        Scope::Procs => KeymapGroup::Procs,
        _ => {
            if s.has_current() && s.current_spec().copy_mode.is_active() {
                KeymapGroup::Copy
            } else {
                KeymapGroup::Term
            }
        },
    }
}

} // verus!
