//! Key bindings: a table from (focus scope, key press) to commands.

use vstd::prelude::*;

use crate::event::{AppEvent, CopyMove};
use crate::key::Key;
use crate::state::KeymapGroup;

verus! {

/// One binding.
pub struct Bind {
    pub group: KeymapGroup,
    pub key: Key,
    pub event: AppEvent,
}

/// The table of bindings; earlier entries win.
pub struct Keymap {
    pub binds: Vec<Bind>,
}

/// Whether two commands are the same operation with the same payload.
/// Batches are never considered the same.
pub open spec fn same_command_spec(a: AppEvent, b: AppEvent) -> bool {
    match (a, b) {
        (AppEvent::QuitOrAsk, AppEvent::QuitOrAsk) => true,
        (AppEvent::Quit, AppEvent::Quit) => true,
        (AppEvent::ForceQuit, AppEvent::ForceQuit) => true,
        (AppEvent::ToggleFocus, AppEvent::ToggleFocus) => true,
        (AppEvent::FocusProcs, AppEvent::FocusProcs) => true,
        (AppEvent::FocusTerm, AppEvent::FocusTerm) => true,
        (AppEvent::Zoom, AppEvent::Zoom) => true,
        (AppEvent::NextProc, AppEvent::NextProc) => true,
        (AppEvent::PrevProc, AppEvent::PrevProc) => true,
        (AppEvent::SelectProc { index: i }, AppEvent::SelectProc { index: j }) => i == j,
        (AppEvent::StartProc, AppEvent::StartProc) => true,
        (AppEvent::TermProc, AppEvent::TermProc) => true,
        (AppEvent::KillProc, AppEvent::KillProc) => true,
        (AppEvent::RestartProc, AppEvent::RestartProc) => true,
        (AppEvent::ForceRestartProc, AppEvent::ForceRestartProc) => true,
        (AppEvent::ScrollUpLines { n: i }, AppEvent::ScrollUpLines { n: j }) => i == j,
        (AppEvent::ScrollDownLines { n: i }, AppEvent::ScrollDownLines { n: j }) => i == j,
        (AppEvent::ScrollUp, AppEvent::ScrollUp) => true,
        (AppEvent::ScrollDown, AppEvent::ScrollDown) => true,
        (AppEvent::ShowAddProc, AppEvent::ShowAddProc) => true,
        (AppEvent::AddProc { cmd: c1 }, AppEvent::AddProc { cmd: c2 }) => c1@ == c2@,
        (AppEvent::ShowRemoveProc, AppEvent::ShowRemoveProc) => true,
        (AppEvent::RemoveProc { id: i }, AppEvent::RemoveProc { id: j }) => i == j,
        (AppEvent::CopyModeEnter, AppEvent::CopyModeEnter) => true,
        (AppEvent::CopyModeLeave, AppEvent::CopyModeLeave) => true,
        (AppEvent::CopyModeMove { dir: d1 }, AppEvent::CopyModeMove { dir: d2 }) => d1 == d2,
        (AppEvent::CopyModeEnd, AppEvent::CopyModeEnd) => true,
        (AppEvent::CopyModeCopy, AppEvent::CopyModeCopy) => true,
        (AppEvent::SendKey { key: k1 }, AppEvent::SendKey { key: k2 }) => k1 == k2,
        _ => false,
    }
}

/// Whether two commands are the same operation with the same payload.
pub fn same_command(a: &AppEvent, b: &AppEvent) -> (r: bool)
    ensures
        r == same_command_spec(*a, *b),
{
    match (a, b) {
        (AppEvent::QuitOrAsk, AppEvent::QuitOrAsk) => true,
        (AppEvent::Quit, AppEvent::Quit) => true,
        (AppEvent::ForceQuit, AppEvent::ForceQuit) => true,
        (AppEvent::ToggleFocus, AppEvent::ToggleFocus) => true,
        (AppEvent::FocusProcs, AppEvent::FocusProcs) => true,
        (AppEvent::FocusTerm, AppEvent::FocusTerm) => true,
        (AppEvent::Zoom, AppEvent::Zoom) => true,
        (AppEvent::NextProc, AppEvent::NextProc) => true,
        (AppEvent::PrevProc, AppEvent::PrevProc) => true,
        (AppEvent::SelectProc { index: i }, AppEvent::SelectProc { index: j }) => *i == *j,
        (AppEvent::StartProc, AppEvent::StartProc) => true,
        (AppEvent::TermProc, AppEvent::TermProc) => true,
        (AppEvent::KillProc, AppEvent::KillProc) => true,
        (AppEvent::RestartProc, AppEvent::RestartProc) => true,
        (AppEvent::ForceRestartProc, AppEvent::ForceRestartProc) => true,
        (AppEvent::ScrollUpLines { n: i }, AppEvent::ScrollUpLines { n: j }) => *i == *j,
        (AppEvent::ScrollDownLines { n: i }, AppEvent::ScrollDownLines { n: j }) => *i == *j,
        (AppEvent::ScrollUp, AppEvent::ScrollUp) => true,
        (AppEvent::ScrollDown, AppEvent::ScrollDown) => true,
        (AppEvent::ShowAddProc, AppEvent::ShowAddProc) => true,
        (AppEvent::AddProc { cmd: c1 }, AppEvent::AddProc { cmd: c2 }) => *c1 == *c2,
        (AppEvent::ShowRemoveProc, AppEvent::ShowRemoveProc) => true,
        (AppEvent::RemoveProc { id: i }, AppEvent::RemoveProc { id: j }) => *i == *j,
        (AppEvent::CopyModeEnter, AppEvent::CopyModeEnter) => true,
        (AppEvent::CopyModeLeave, AppEvent::CopyModeLeave) => true,
        (AppEvent::CopyModeMove { dir: d1 }, AppEvent::CopyModeMove { dir: d2 }) => *d1 == *d2,
        (AppEvent::CopyModeEnd, AppEvent::CopyModeEnd) => true,
        (AppEvent::CopyModeCopy, AppEvent::CopyModeCopy) => true,
        (AppEvent::SendKey { key: k1 }, AppEvent::SendKey { key: k2 }) => *k1 == *k2,
        _ => false,
    }
}

/// The first binding of `key` in `group`, if any; earlier entries win.
pub open spec fn resolve_spec(binds: Seq<Bind>, group: KeymapGroup, key: Key) -> Option<AppEvent>
    decreases binds.len(),
{
    if binds.len() == 0 {
        None
    } else if binds[0].group == group && binds[0].key == key {
        Some(binds[0].event)
    } else {
        resolve_spec(binds.drop_first(), group, key)
    }
}

/// The key of the first binding of a command in `group`, if any.
pub open spec fn resolve_key_spec(
    binds: Seq<Bind>,
    group: KeymapGroup,
    event: AppEvent,
) -> Option<Key>
    decreases binds.len(),
{
    if binds.len() == 0 {
        None
    } else if binds[0].group == group && same_command_spec(binds[0].event, event) {
        Some(binds[0].key)
    } else {
        resolve_key_spec(binds.drop_first(), group, event)
    }
}

/// The commands the help bar offers in each scope, in display order.
pub open spec fn help_items_spec(group: KeymapGroup) -> Seq<AppEvent> {
    match group {
        KeymapGroup::Procs => seq![
            AppEvent::ToggleFocus,
            AppEvent::QuitOrAsk,
            AppEvent::NextProc,
            AppEvent::PrevProc,
            AppEvent::StartProc,
            AppEvent::TermProc,
            AppEvent::RestartProc,
        ],
        KeymapGroup::Term => seq![AppEvent::ToggleFocus],
        KeymapGroup::Copy => seq![
            AppEvent::CopyModeEnd,
            AppEvent::CopyModeCopy,
            AppEvent::CopyModeLeave,
        ],
    }
}

/// The help line for a list of offered commands: for each one with a
/// binding in the scope, the bound key's label and the command's
/// description.
pub open spec fn help_line_spec(
    binds: Seq<Bind>,
    group: KeymapGroup,
    items: Seq<AppEvent>,
) -> Seq<(Seq<char>, Seq<char>)>
    decreases items.len(),
{
    if items.len() == 0 {
        Seq::empty()
    } else {
        (match resolve_key_spec(binds, group, items[0]) {
            Some(k) => seq![(crate::key::key_label(k), crate::event::desc_spec(items[0]))],
            None => Seq::empty(),
        }) + help_line_spec(binds, group, items.drop_first())
    }
}

impl Keymap {
    /// An empty table.
    pub fn new() -> (m: Keymap)
        ensures
            m.binds@.len() == 0,
    {
        Keymap { binds: Vec::new() }
    }

    /// Appends a binding; earlier bindings win.
    pub fn add(&mut self, group: KeymapGroup, key: Key, event: AppEvent)
        ensures
            final(self).binds@.len() == old(self).binds@.len() + 1,
            final(self).binds@.last().group == group,
            final(self).binds@.last().key == key,
            final(self).binds@.last().event == event,
            forall|i: int|
                0 <= i < old(self).binds@.len() ==> final(self).binds@[i] == old(self).binds@[i],
    {
        self.binds.push(Bind { group, key, event });
    }

    /// The command bound to a key in a scope: the first matching entry.
    pub fn resolve(&self, group: KeymapGroup, key: &Key) -> (r: Option<&AppEvent>)
        ensures
            match r {
                Some(e) => resolve_spec(self.binds@, group, *key) == Some(*e),
                None => resolve_spec(self.binds@, group, *key) is None,
            },
    {
        proof {
            assert(self.binds@.skip(0) =~= self.binds@);
        }
        let mut i: usize = 0;
        while i < self.binds.len()
            invariant
                i <= self.binds@.len(),
                resolve_spec(self.binds@, group, *key) == resolve_spec(
                    self.binds@.skip(i as int),
                    group,
                    *key,
                ),
            decreases self.binds@.len() - i,
        {
            proof {
                assert(self.binds@.skip(i as int)[0] == self.binds@[i as int]);
                assert(self.binds@.skip(i as int).drop_first() =~= self.binds@.skip(i as int + 1));
            }
            let b = &self.binds[i];
            if b.group == group && b.key == *key {
                return Some(&b.event);
            }
            i += 1;
        }
        proof {
            assert(self.binds@.skip(self.binds@.len() as int) =~= Seq::<Bind>::empty());
        }
        None
    }

    /// The first key a command is bound to in a scope, for the help bar.
    pub fn resolve_key(&self, group: KeymapGroup, event: &AppEvent) -> (r: Option<&Key>)
        ensures
            match r {
                Some(k) => resolve_key_spec(self.binds@, group, *event) == Some(*k),
                None => resolve_key_spec(self.binds@, group, *event) is None,
            },
    {
        proof {
            assert(self.binds@.skip(0) =~= self.binds@);
        }
        let mut i: usize = 0;
        while i < self.binds.len()
            invariant
                i <= self.binds@.len(),
                resolve_key_spec(self.binds@, group, *event) == resolve_key_spec(
                    self.binds@.skip(i as int),
                    group,
                    *event,
                ),
            decreases self.binds@.len() - i,
        {
            proof {
                assert(self.binds@.skip(i as int)[0] == self.binds@[i as int]);
                assert(self.binds@.skip(i as int).drop_first() =~= self.binds@.skip(i as int + 1));
            }
            let b = &self.binds[i];
            if b.group == group && same_command(&b.event, event) {
                return Some(&b.key);
            }
            i += 1;
        }
        proof {
            assert(self.binds@.skip(self.binds@.len() as int) =~= Seq::<Bind>::empty());
        }
        None
    }
}

/// The commands the help bar offers in each scope, in display order.
pub fn help_items(group: KeymapGroup) -> (items: Vec<AppEvent>)
    ensures
        items@ == help_items_spec(group),
{
    let mut items: Vec<AppEvent> = Vec::new();
    match group {
        KeymapGroup::Procs => {
            items.push(AppEvent::ToggleFocus);
            items.push(AppEvent::QuitOrAsk);
            items.push(AppEvent::NextProc);
            items.push(AppEvent::PrevProc);
            items.push(AppEvent::StartProc);
            items.push(AppEvent::TermProc);
            items.push(AppEvent::RestartProc);
        },
        KeymapGroup::Term => {
            items.push(AppEvent::ToggleFocus);
        },
        KeymapGroup::Copy => {
            items.push(AppEvent::CopyModeEnd);
            items.push(AppEvent::CopyModeCopy);
            items.push(AppEvent::CopyModeLeave);
        },
    }
    proof {
        assert(items@ =~= help_items_spec(group));
    }
    items
}

/// The help-bar line: for every offered command that has a binding in the
/// current scope, the key's label and the command's description, in display
/// order.
pub fn keymap_line(map: &Keymap, group: KeymapGroup) -> (line: Vec<(String, String)>)
    ensures
        ({
            let spec = help_line_spec(map.binds@, group, help_items_spec(group));
            &&& line@.len() == spec.len()
            &&& forall|j: int|
                0 <= j < spec.len() ==> (#[trigger] line@[j]).0@ == spec[j].0 && line@[j].1@
                    == spec[j].1
        }),
{
    let items = help_items(group);
    let mut line: Vec<(String, String)> = Vec::new();
    proof {
        assert(items@.skip(0) =~= items@);
    }
    let ghost spec = help_line_spec(map.binds@, group, help_items_spec(group));
    let mut i: usize = 0;
    while i < items.len()
        invariant
            i <= items@.len(),
            items@ == help_items_spec(group),
            spec == help_line_spec(map.binds@, group, help_items_spec(group)),
            line@.len() + help_line_spec(map.binds@, group, items@.skip(i as int)).len()
                == spec.len(),
            forall|j: int|
                0 <= j < line@.len() ==> (#[trigger] line@[j]).0@ == spec[j].0 && line@[j].1@
                    == spec[j].1,
            forall|j: int|
                0 <= j < help_line_spec(map.binds@, group, items@.skip(i as int)).len()
                    ==> #[trigger] help_line_spec(map.binds@, group, items@.skip(i as int))[j]
                    == spec[line@.len() + j],
        decreases items@.len() - i,
    {
        proof {
            assert(items@.skip(i as int)[0] == items@[i as int]);
            assert(items@.skip(i as int).drop_first() =~= items@.skip(i as int + 1));
        }
        match map.resolve_key(group, &items[i]) {
            Some(k) => {
                proof {
                    assert(help_line_spec(map.binds@, group, items@.skip(i as int)) =~= seq![
                        (crate::key::key_label(*k), crate::event::desc_spec(items@[i as int])),
                    ] + help_line_spec(map.binds@, group, items@.skip(i as int + 1)));
                    assert(help_line_spec(map.binds@, group, items@.skip(i as int))[0]
                        == spec[line@.len() as int]);
                    assert forall|j: int|
                        0 <= j < help_line_spec(
                            map.binds@,
                            group,
                            items@.skip(i as int + 1),
                        ).len() implies #[trigger] help_line_spec(
                        map.binds@,
                        group,
                        items@.skip(i as int + 1),
                    )[j] == spec[line@.len() + 1 + j] by {
                        assert(help_line_spec(map.binds@, group, items@.skip(i as int))[j + 1]
                            == spec[line@.len() + j + 1]);
                    }
                }
                let label = crate::key::print_key(k);
                let d = items[i].desc();
                line.push((label, d));
            },
            None => {
                proof {
                    assert(help_line_spec(map.binds@, group, items@.skip(i as int))
                        =~= help_line_spec(map.binds@, group, items@.skip(i as int + 1)));
                    assert forall|j: int|
                        0 <= j < help_line_spec(
                            map.binds@,
                            group,
                            items@.skip(i as int + 1),
                        ).len() implies #[trigger] help_line_spec(
                        map.binds@,
                        group,
                        items@.skip(i as int + 1),
                    )[j] == spec[line@.len() + j] by {
                        assert(help_line_spec(map.binds@, group, items@.skip(i as int))[j]
                            == spec[line@.len() + j]);
                    }
                }
            },
        }
        i += 1;
    }
    proof {
        assert(items@.skip(items@.len() as int) =~= Seq::<AppEvent>::empty());
    }
    line
}

} // verus!
