//! Laws of the supervisor, stated and proved over the same relations the
//! executable functions are verified against.

use vstd::prelude::*;

use crate::app::{after_exit, copied, handles, handles_update, moved_proc, retain_spec};
use crate::event::{AppEvent, Effect, LoopAction, ProcUpdate};
use crate::proc::{life_run, life_step, sel_text_of, CopyMode, Life, LifeOp, Pos, Proc};
use crate::state::State;

verus! {

/// Running a sequence of lifecycle operations and then one more is the same
/// as stepping the fold of the sequence: the lifecycle is exactly the fold
/// of `life_step`, so a process always ends in the one state the last valid
/// transition left it in.
pub proof fn lemma_lifecycle_fold(l: Life, ops: Seq<LifeOp>, op: LifeOp)
    ensures
        life_run(l, ops.push(op)) == life_step(life_run(l, ops), op),
    decreases ops.len(),
{
    if ops.len() == 0 {
        assert(ops.push(op)[0] == op);
        assert(ops.push(op).drop_first() =~= Seq::<LifeOp>::empty());
    } else {
        assert(ops.push(op)[0] == ops[0]);
        assert(ops.push(op).drop_first() =~= ops.drop_first().push(op));
        lemma_lifecycle_fold(life_step(l, ops[0]), ops.drop_first(), op);
        assert(life_run(l, ops) == life_run(life_step(l, ops[0]), ops.drop_first()));
    }
}

/// The invalid lifecycle operations are no-ops: a start while running
/// changes nothing, and so does an exit notification for a process that is
/// not running. Stop and kill only signal; the state changes when the
/// child's exit is observed.
pub proof fn lemma_invalid_ops_are_noops(l: Life, ok: bool)
    ensures
        life_step(Life::Running, LifeOp::Start(ok)) == Life::Running,
        life_step(l, LifeOp::Stop) == l,
        life_step(l, LifeOp::Kill) == l,
        !(l is Running) ==> life_step(l, LifeOp::ChildExit) == l,
        l is Running ==> life_step(l, LifeOp::ChildExit) == Life::NotRunning,
        !(l is Running) && ok ==> life_step(l, LifeOp::Start(ok)) == Life::Running,
        !(l is Running) && !ok ==> life_step(l, LifeOp::Start(ok)) == Life::Error,
{
}

/// How many spawn requests a list of effects carries.
pub open spec fn spawn_count(effects: Seq<Effect>) -> int
    decreases effects.len(),
{
    if effects.len() == 0 {
        0
    } else {
        (if effects[0] is Spawn {
            1int
        } else {
            0int
        }) + spawn_count(effects.drop_first())
    }
}

/// Two states that agree on everything, comparing the process lists by
/// content.
pub open spec fn state_like(a: State, b: State) -> bool {
    &&& a.procs@ == b.procs@
    &&& a == (State { procs: a.procs, ..b })
}

/// Restart equivalence: issuing a restart on a running process, followed by
/// the observation of its stop, reaches the same state as an explicit stop,
/// the observation, and then exactly one start — and the direct path asks
/// for exactly one spawn.
pub proof fn lemma_restart_equivalence(
    s0: State,
    s1: State,
    s2: State,
    t1: State,
    t2: State,
    t3: State,
    a1: LoopAction,
    ef1: Seq<Effect>,
    a2: LoopAction,
    ef2: Seq<Effect>,
    b1: LoopAction,
    eg1: Seq<Effect>,
    b2: LoopAction,
    eg2: Seq<Effect>,
    b3: LoopAction,
    eg3: Seq<Effect>,
)
    requires
        s0.wf(),
        s0.has_current(),
        s0.current_spec().state.is_running(),
        !s0.current_spec().to_restart,
        // the direct path: restart, then the stop is observed
        handles(s0, AppEvent::RestartProc, s1, a1, ef1),
        s1.wf(),
        handles_update(s1, s0.current_spec().id, ProcUpdate::Stopped, s2, a2, ef2),
        // the explicit path: stop, the stop is observed, then start
        handles(s0, AppEvent::TermProc, t1, b1, eg1),
        t1.wf(),
        handles_update(t1, s0.current_spec().id, ProcUpdate::Stopped, t2, b2, eg2),
        t2.wf(),
        handles(t2, AppEvent::StartProc, t3, b3, eg3),
    ensures
        state_like(s2, t3),
        ef1 + ef2 == eg1 + eg2 + eg3,
        spawn_count(ef1 + ef2) == 1,
{
    let sel = s0.selected as int;
    let cur = s0.current_spec();
    let id = cur.id;
    // the direct path
    let p1 = Proc { to_restart: true, ..cur };
    assert(s1.procs@ == s0.procs@.update(sel, p1));
    assert(s1.index_of_id(id) is Some) by {
        assert(s1.procs@[sel].id == id);
    }
    let i = choose|i: int| 0 <= i < s1.procs@.len() && (#[trigger] s1.procs@[i]).id == id;
    assert(i == sel) by {
        if i != sel {
            assert(s1.procs@[i] == s0.procs@[i]);
            assert(s0.procs@[i].id != s0.procs@[sel].id);
        }
    }
    let q1 = after_exit(p1);
    assert(q1.to_restart);
    assert(s2.procs@ == s1.procs@.update(sel, Proc { to_restart: false, ..q1 }));
    assert(ef2 =~= seq![Effect::Spawn { id: id }]);
    // the explicit path
    assert(t1 == s0);
    assert(t1.index_of_id(id) is Some) by {
        assert(t1.procs@[sel].id == id);
    }
    let j = choose|j: int| 0 <= j < t1.procs@.len() && (#[trigger] t1.procs@[j]).id == id;
    assert(j == sel) by {
        if j != sel {
            assert(t1.procs@[j].id != t1.procs@[sel].id);
        }
    }
    let q2 = after_exit(cur);
    assert(!q2.to_restart);
    assert(t2.procs@ == t1.procs@.update(sel, q2));
    assert(t2.has_current());
    assert(t2.current_spec() == q2);
    assert(!q2.state.is_running());
    assert(t3 == t2);
    assert(eg3 =~= seq![Effect::Spawn { id: id }]);
    // the reached processes are the same
    assert(Proc { to_restart: false, ..q1 } == q2);
    assert(s2.procs@ =~= s0.procs@.update(sel, q2));
    assert(t3.procs@ =~= s0.procs@.update(sel, q2));
    assert(state_like(s2, t3));
    // the effects are the same: one stop request, then one spawn request
    assert(ef1 =~= eg1);
    assert(eg2 =~= Seq::<Effect>::empty());
    assert(ef1 + ef2 =~= eg1 + eg2 + eg3);
    // and the direct path asks for exactly one spawn
    assert(ef1.len() == 1 && !(ef1[0] is Spawn));
    assert(spawn_count(ef1 + ef2) == 1) by {
        let all = ef1 + ef2;
        assert(all.len() == 2);
        assert(all[0] == ef1[0]);
        assert(!(all[0] is Spawn));
        assert(all.drop_first() =~= ef2);
        assert(ef2[0] is Spawn);
        assert(ef2.drop_first() =~= Seq::<Effect>::empty());
        assert(spawn_count(Seq::<Effect>::empty()) == 0);
        assert(spawn_count(ef2) == 1);
        assert(spawn_count(all) == 1);
    }
}

/// Ordering two selection endpoints by reading order ignores the order they
/// are given in, so selecting from one point to another yields the same text
/// as selecting the other way round.
pub proof fn lemma_selection_order_invariant(v: crate::screen::ScreenView, a: Pos, b: Pos)
    ensures
        sel_text_of(v, a, b) == sel_text_of(v, b, a),
{
    crate::proc::lemma_low_high_symmetric(a, b);
}

/// A removal request keeps every process that is running or carries another
/// id.
pub proof fn lemma_retain_all(procs: Seq<Proc>, id: usize)
    requires
        forall|k: int|
            0 <= k < procs.len() ==> (#[trigger] procs[k]).state.is_running() || procs[k].id
                != id,
    ensures
        retain_spec(procs, id) == procs,
    decreases procs.len(),
{
    if procs.len() > 0 {
        lemma_retain_all(procs.drop_first(), id);
        assert(seq![procs[0]] + procs.drop_first() =~= procs);
    }
}

/// Removal guard: a removal request aimed at a running process never changes
/// the process list.
pub proof fn lemma_removal_guard(
    s0: State,
    s1: State,
    action: LoopAction,
    effects: Seq<Effect>,
    id: usize,
    i: int,
)
    requires
        s0.wf(),
        0 <= i < s0.procs@.len(),
        s0.procs@[i].id == id,
        s0.procs@[i].state.is_running(),
        handles(s0, AppEvent::RemoveProc { id }, s1, action, effects),
    ensures
        s1.procs@ == s0.procs@,
{
    assert forall|k: int| 0 <= k < s0.procs@.len() implies {
        let p = #[trigger] s0.procs@[k];
        p.state.is_running() || p.id != id
    } by {
        if k != i {
            assert(s0.procs@[k].id != s0.procs@[i].id);
        }
    }
    lemma_retain_all(s0.procs@, id);
}
/// One step of a copy-mode session after entering: either the operator moves
/// the selection point, or new output lands in the live screen. Neither
/// touches the frozen snapshot.
pub open spec fn session_step(p: Proc, q: Proc) -> bool {
    ||| (exists|dir: crate::event::CopyMove| #![trigger moved_proc(p, dir, q)] moved_proc(p, dir, q))
    ||| (q == (Proc { state: q.state, ..p }))
}

/// A copy-mode session: consecutive entries are related by one step each.
pub open spec fn session_chain(chain: Seq<Proc>) -> bool {
    forall|i: int| 0 <= i < chain.len() - 1 ==> #[trigger] session_step(chain[i], chain[i + 1])
}

/// Whether a selection point lies inside a screen: its row within the
/// history and the grid, its column within the width.
pub open spec fn pos_in_view(v: crate::screen::ScreenView, q: Pos) -> bool {
    &&& -(v.scrollback.len() as int) <= q.y as int
    &&& (q.y as int) < v.rows
    &&& 0 <= q.x as int
    &&& (q.x as int) < v.cols
}

/// Through a whole session the copy-mode kind, the frozen snapshot and the
/// frozen range start are untouched, and the moving point never leaves the
/// snapshot: output may keep arriving on the live screen, the point may
/// move, the selection stays over the text frozen on entering.
pub proof fn lemma_session_keeps_snapshot(chain: Seq<Proc>)
    requires
        chain.len() > 0,
        session_chain(chain),
        chain[0].copy_mode.is_active(),
    ensures
        chain.last().copy_mode.is_active(),
        chain.last().copy_mode.snap_view() == chain[0].copy_mode.snap_view(),
        chain[0].copy_mode is Anchored <==> chain.last().copy_mode is Anchored,
        chain[0].copy_mode is Ranged ==> chain.last().copy_mode is Ranged
            && chain.last().copy_mode->Ranged_1 == chain[0].copy_mode->Ranged_1,
        chain[0].copy_mode.snap_view().wf() && pos_in_view(
            chain[0].copy_mode.snap_view(),
            chain[0].copy_mode.active_pos(),
        ) ==> pos_in_view(chain[0].copy_mode.snap_view(), chain.last().copy_mode.active_pos()),
    decreases chain.len(),
{
    if chain.len() > 1 {
        let head = chain.drop_last();
        assert(session_chain(head)) by {
            assert forall|i: int| 0 <= i < head.len() - 1 implies #[trigger] session_step(
                head[i],
                head[i + 1],
            ) by {
                assert(head[i] == chain[i]);
                assert(head[i + 1] == chain[i + 1]);
                assert(session_step(chain[i], chain[i + 1]));
            }
        }
        assert(head[0] == chain[0]);
        lemma_session_keeps_snapshot(head);
        let k = chain.len() - 2;
        assert(session_step(chain[k], chain[k + 1]));
        assert(chain[k + 1] == chain.last());
        assert(head.last() == chain[k]);
        let s0 = chain[0].copy_mode.snap_view();
        if s0.wf() && pos_in_view(s0, chain[0].copy_mode.active_pos()) {
            assert(pos_in_view(s0, chain[k].copy_mode.active_pos()));
            if exists|dir: crate::event::CopyMove|
                #![trigger moved_proc(chain[k], dir, chain.last())]
                moved_proc(chain[k], dir, chain.last()) {
                let dir = choose|dir: crate::event::CopyMove|
                    #![trigger moved_proc(chain[k], dir, chain.last())]
                    moved_proc(chain[k], dir, chain.last());
                assert(moved_proc(chain[k], dir, chain.last()));
                match dir {
                    crate::event::CopyMove::Up => {
                        assert(pos_in_view(s0, chain.last().copy_mode.active_pos()));
                    },
                    crate::event::CopyMove::Down => {
                        assert(pos_in_view(s0, chain.last().copy_mode.active_pos()));
                    },
                    crate::event::CopyMove::Left => {
                        assert(pos_in_view(s0, chain.last().copy_mode.active_pos()));
                    },
                    crate::event::CopyMove::Right => {
                        assert(pos_in_view(s0, chain.last().copy_mode.active_pos()));
                    },
                }
            } else {
                assert(chain.last() == (Proc { state: chain.last().state, ..chain[k] }));
            }
        }
    }
}

/// Copy-mode round trip: enter copy mode on a running process, move the
/// point however often while output keeps arriving, freeze the range, move
/// the end however further, and copy — the copy always succeeds, and the
/// text handed to the clipboard is extracted from the snapshot taken on
/// entering, never from the live screen.
pub proof fn lemma_copy_mode_round_trip(
    before: Seq<Proc>,
    p2: Proc,
    after: Seq<Proc>,
    effects: Seq<Effect>,
)
    requires
        // entered: a well-formed frozen snapshot, the point anchored at the
        // bottom-left visible cell
        before.len() > 0,
        session_chain(before),
        before[0].copy_mode is Anchored,
        before[0].copy_mode.snap_view().wf(),
        before[0].copy_mode.active_pos() == (Pos {
            y: (before[0].copy_mode.snap_view().rows - 1) as i32,
            x: 0,
        }),
        // the range start is frozen where the moves left the point
        p2 == (Proc {
            copy_mode: CopyMode::Ranged(
                before.last().copy_mode->Anchored_0,
                before.last().copy_mode->Anchored_1,
                before.last().copy_mode->Anchored_1,
            ),
            ..before.last()
        }),
        // the end moves on while output may keep arriving
        after.len() > 0,
        session_chain(after),
        after[0] == p2,
        // the copy
        copied(after.last(), effects),
    ensures
        effects.len() == 1,
        match effects[0] {
            Effect::CopyText { text } => text@ == sel_text_of(
                before[0].copy_mode.snap_view(),
                after.last().copy_mode->Ranged_1,
                after.last().copy_mode->Ranged_2,
            ),
            _ => false,
        },
{
    let snap = before[0].copy_mode.snap_view();
    assert(pos_in_view(snap, before[0].copy_mode.active_pos()));
    lemma_session_keeps_snapshot(before);
    assert(before.last().copy_mode.snap_view() == before.last().copy_mode->Anchored_0@);
    assert(p2.copy_mode.snap_view() == snap);
    assert(p2.copy_mode is Ranged);
    assert(pos_in_view(snap, p2.copy_mode->Ranged_1));
    assert(pos_in_view(snap, p2.copy_mode.active_pos()));
    lemma_session_keeps_snapshot(after);
    let last = after.last();
    assert(last.copy_mode is Ranged);
    assert(last.copy_mode.snap_view() == snap);
    assert(last.copy_mode->Ranged_1 == p2.copy_mode->Ranged_1);
    assert(pos_in_view(snap, last.copy_mode->Ranged_2)) by {
        assert(last.copy_mode.active_pos() == last.copy_mode->Ranged_2);
    }
    assert(crate::proc::sel_in_bounds(snap, last.copy_mode->Ranged_1, last.copy_mode->Ranged_2));
}

} // verus!
