use vstd::prelude::*;

use crate::common::{Action, HistoryData};
use crate::history::{forward_op, inverse_op, MoveOp};

verus! {

/// Where a file sits, as far as the history engine cares: inside one of the
/// two slots, or outside the inventory in some directory.
pub enum Loc {
    InSlot { active: bool },
    Outside { path: Seq<char> },
}

/// A model of the filesystem: each file name maps to the location it sits at.
pub type FsState = Map<Seq<char>, Loc>;

/// Whether a slot name denotes the active slot.
pub open spec fn slot_is_active(name: Seq<char>) -> bool {
    name == "active"@ || name == "a"@
}

/// The location a slot name denotes.
pub open spec fn slot_loc(name: Seq<char>) -> Loc {
    Loc::InSlot { active: slot_is_active(name) }
}

/// Swapping the slots sends a file in one slot to the other and leaves
/// everything outside the inventory alone.
pub open spec fn swap_loc(l: Loc) -> Loc {
    match l {
        Loc::InSlot { active } => Loc::InSlot { active: !active },
        Loc::Outside { path } => Loc::Outside { path },
    }
}

/// The filesystem after the two slots swap their contents.
pub open spec fn swap_slots(s: FsState) -> FsState {
    Map::new(|k: Seq<char>| s.dom().contains(k), |k: Seq<char>| swap_loc(s[k]))
}

/// The effect of one move on the filesystem model.
pub open spec fn op_effect(s: FsState, op: MoveOp) -> FsState {
    match op {
        MoveOp::ToSlot { file, from_path: _, slot } => s.insert(file@, slot_loc(slot@)),
        MoveOp::FromSlot { file, slot: _, dest_path } => s.insert(
            file@,
            Loc::Outside { path: dest_path@ },
        ),
        MoveOp::SwapSlots => swap_slots(s),
    }
}

/// A record is enabled in a state its action could have run from: the file it
/// names really sat where the record says the action moved it from.
pub open spec fn rec_enabled(s: FsState, r: HistoryData) -> bool {
    match r.action {
        Action::Take => r.path is Some && r.file is Some && r.slot is Some && s.dom().contains(
            r.file->Some_0@,
        ) && s[r.file->Some_0@] == (Loc::Outside { path: r.path->Some_0@ }),
        Action::Drop => r.path is Some && r.file is Some && r.slot is Some && s.dom().contains(
            r.file->Some_0@,
        ) && s[r.file->Some_0@] == slot_loc(r.slot->Some_0@),
        Action::Switch => true,
    }
}

/// The state after replaying every record of `recs`, oldest first, from `s0`.
pub open spec fn apply_fwd(s0: FsState, recs: Seq<HistoryData>) -> FsState
    decreases recs.len(),
{
    if recs.len() == 0 {
        s0
    } else {
        op_effect(apply_fwd(s0, recs.drop_last()), forward_op(recs.last()))
    }
}

/// Every record of `recs` is enabled in the state the records before it build.
pub open spec fn all_enabled(s0: FsState, recs: Seq<HistoryData>) -> bool
    decreases recs.len(),
{
    recs.len() == 0 || (all_enabled(s0, recs.drop_last()) && rec_enabled(
        apply_fwd(s0, recs.drop_last()),
        recs.last(),
    ))
}

/// The state after undoing the last `k` records of `recs` from `s`, newest
/// first — the order in which an undo batch applies its inverse moves.
pub open spec fn apply_undo(s: FsState, recs: Seq<HistoryData>, k: int) -> FsState
    decreases k,
{
    if k <= 0 {
        s
    } else {
        apply_undo(op_effect(s, inverse_op(recs.last())), recs.drop_last(), k - 1)
    }
}

/// The state after replaying `recs[from..]` forward from `s`, in ascending id
/// order — the order in which a redo batch applies its moves.
pub open spec fn apply_redo(s: FsState, recs: Seq<HistoryData>, from: int) -> FsState
    decreases recs.len() - from,
{
    if from < 0 || from >= recs.len() {
        s
    } else {
        apply_redo(op_effect(s, forward_op(recs[from])), recs, from + 1)
    }
}

/// The state after performing `ops` in order from `s`.
pub open spec fn apply_ops(s: FsState, ops: Seq<MoveOp>) -> FsState
    decreases ops.len(),
{
    if ops.len() == 0 {
        s
    } else {
        apply_ops(op_effect(s, ops[0]), ops.drop_first())
    }
}

/// The moves an undo of `k` steps performs when all of `recs` is in effect:
/// the inverse of each of the last `k` records, newest first.
pub open spec fn undo_ops(recs: Seq<HistoryData>, k: int) -> Seq<MoveOp> {
    Seq::new(k as nat, |i: int| inverse_op(recs[recs.len() - 1 - i]))
}

/// The moves the matching redo of `k` steps performs: the forward move of the
/// same `k` records, in ascending id order.
pub open spec fn redo_ops(recs: Seq<HistoryData>, k: int) -> Seq<MoveOp> {
    Seq::new(k as nat, |i: int| forward_op(recs[recs.len() - k + i]))
}

/// Undoing a record right after it has been replayed restores the state it
/// was replayed from.
pub proof fn lemma_cancel(s: FsState, r: HistoryData)
    requires
        rec_enabled(s, r),
    ensures
        op_effect(op_effect(s, forward_op(r)), inverse_op(r)) == s,
{
    match r.action {
        Action::Take => {
            assert(op_effect(op_effect(s, forward_op(r)), inverse_op(r)) =~= s);
        },
        Action::Drop => {
            assert(op_effect(op_effect(s, forward_op(r)), inverse_op(r)) =~= s);
        },
        Action::Switch => {
            assert(swap_slots(swap_slots(s)) =~= s);
        },
    }
}

/// Undoing the last `k` records unwinds the state to just before they ran.
pub proof fn lemma_undo_unwinds(s0: FsState, recs: Seq<HistoryData>, k: int)
    requires
        all_enabled(s0, recs),
        0 <= k <= recs.len(),
    ensures
        apply_undo(apply_fwd(s0, recs), recs, k) == apply_fwd(s0, recs.take(recs.len() - k)),
    decreases k,
{
    if k <= 0 {
        assert(recs.take(recs.len() as int) =~= recs);
    } else {
        let prev = recs.drop_last();
        lemma_cancel(apply_fwd(s0, prev), recs.last());
        lemma_undo_unwinds(s0, prev, k - 1);
        assert(prev.take(prev.len() - (k - 1)) =~= recs.take(recs.len() - k));
    }
}

/// Replaying the records from position `from` onward rebuilds the full state.
pub proof fn lemma_redo_replays(s0: FsState, recs: Seq<HistoryData>, from: int)
    requires
        0 <= from <= recs.len(),
    ensures
        apply_redo(apply_fwd(s0, recs.take(from)), recs, from) == apply_fwd(s0, recs),
    decreases recs.len() - from,
{
    if from == recs.len() {
        assert(recs.take(from) =~= recs);
    } else {
        assert(recs.take(from + 1).drop_last() =~= recs.take(from));
        assert(recs.take(from + 1).last() == recs[from]);
        assert(apply_fwd(s0, recs.take(from + 1)) == op_effect(
            apply_fwd(s0, recs.take(from)),
            forward_op(recs[from]),
        ));
        lemma_redo_replays(s0, recs, from + 1);
    }
}

/// Law: after any run of recorded take, drop and switch actions, undoing `k`
/// steps and then redoing `k` steps restores the filesystem model exactly —
/// the undo batch applies the inverse moves newest first, the redo batch
/// replays the same records' forward moves in ascending order, and the two
/// walks cancel. (The engine itself additionally bounds `k`: `undo` admits
/// only `k` strictly below the current position.)
pub proof fn lemma_undo_redo_round_trip(s0: FsState, recs: Seq<HistoryData>, k: int)
    requires
        all_enabled(s0, recs),
        0 <= k <= recs.len(),
    ensures
        apply_redo(apply_undo(apply_fwd(s0, recs), recs, k), recs, recs.len() - k) == apply_fwd(
            s0,
            recs,
        ),
{
    lemma_undo_unwinds(s0, recs, k);
    lemma_redo_replays(s0, recs, recs.len() - k);
}

/// Performing the moves of `undo_ops` one by one walks the same states as
/// unwinding the records themselves.
proof fn lemma_undo_ops_walk(s: FsState, recs: Seq<HistoryData>, k: int)
    requires
        0 <= k <= recs.len(),
    ensures
        apply_ops(s, undo_ops(recs, k)) == apply_undo(s, recs, k),
    decreases k,
{
    if k > 0 {
        let s1 = op_effect(s, inverse_op(recs.last()));
        assert(undo_ops(recs, k)[0] == inverse_op(recs.last()));
        assert(undo_ops(recs, k).drop_first() =~= undo_ops(recs.drop_last(), k - 1));
        lemma_undo_ops_walk(s1, recs.drop_last(), k - 1);
    }
}

/// Performing the moves of `redo_ops` one by one walks the same states as
/// replaying the records themselves.
proof fn lemma_redo_ops_walk(s: FsState, recs: Seq<HistoryData>, from: int)
    requires
        0 <= from <= recs.len(),
    ensures
        apply_ops(s, redo_ops(recs, recs.len() - from)) == apply_redo(s, recs, from),
    decreases recs.len() - from,
{
    if from < recs.len() {
        let k = recs.len() - from;
        let s1 = op_effect(s, forward_op(recs[from]));
        assert(redo_ops(recs, k)[0] == forward_op(recs[from]));
        assert(redo_ops(recs, k).drop_first() =~= redo_ops(recs, k - 1));
        lemma_redo_ops_walk(s1, recs, from + 1);
    }
}

/// Law, stated over the planned moves themselves: when every record of `recs`
/// is in effect, performing the moves of an undo plan of `k` steps and then
/// the moves of the matching redo plan of `k` steps restores the filesystem
/// model exactly. `undo_ops` and `redo_ops` are precisely the op sequences
/// `undo_plan` and `redo_plan` promise in their contracts.
pub proof fn lemma_plan_ops_round_trip(s0: FsState, recs: Seq<HistoryData>, k: int)
    requires
        all_enabled(s0, recs),
        0 <= k <= recs.len(),
    ensures
        apply_ops(apply_ops(apply_fwd(s0, recs), undo_ops(recs, k)), redo_ops(recs, k))
            == apply_fwd(s0, recs),
{
    let full = apply_fwd(s0, recs);
    lemma_undo_ops_walk(full, recs, k);
    lemma_redo_ops_walk(apply_undo(full, recs, k), recs, recs.len() - k);
    lemma_undo_redo_round_trip(s0, recs, k);
}

} // verus!
