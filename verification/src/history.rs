use vstd::prelude::*;
use vstd::pervasive::unreached;

use crate::common::{
    action_fields_ok, parse_action, slot_name_ok, tag_action, valid_slot_name, Action, HistoryData,
};
use crate::message::ErrorType;

verus! {

/// A single filesystem move that an undo or redo batch must perform.
#[derive(Debug)]
pub enum MoveOp {
    /// Move `file` from the directory `from_path` into the slot `slot` (a take).
    ToSlot { file: String, from_path: String, slot: String },
    /// Move `file` out of the slot `slot` into the directory `dest_path` (a drop).
    FromSlot { file: String, slot: String, dest_path: String },
    /// Swap the contents of the active and inactive slots.
    SwapSlots,
}

/// One step of an undo or redo batch: the move to perform, then the position
/// to commit once that move has succeeded.
#[derive(Debug)]
pub struct PlannedMove {
    pub op: MoveOp,
    pub commit: usize,
}

/// The move that replays a record forward: the action the record logged.
pub open spec fn forward_op(r: HistoryData) -> MoveOp {
    match r.action {
        Action::Take => MoveOp::ToSlot {
            file: r.file->Some_0,
            from_path: r.path->Some_0,
            slot: r.slot->Some_0,
        },
        Action::Drop => MoveOp::FromSlot {
            file: r.file->Some_0,
            slot: r.slot->Some_0,
            dest_path: r.path->Some_0,
        },
        Action::Switch => MoveOp::SwapSlots,
    }
}

/// The move that reverses a record: a take is undone by a drop back to its
/// source, a drop by a take back into its slot, a switch by another switch.
pub open spec fn inverse_op(r: HistoryData) -> MoveOp {
    match r.action {
        Action::Take => MoveOp::FromSlot {
            file: r.file->Some_0,
            slot: r.slot->Some_0,
            dest_path: r.path->Some_0,
        },
        Action::Drop => MoveOp::ToSlot {
            file: r.file->Some_0,
            from_path: r.path->Some_0,
            slot: r.slot->Some_0,
        },
        Action::Switch => MoveOp::SwapSlots,
    }
}

/// Clones the string a record field is known to hold.
fn clone_some(o: &Option<String>) -> (r: String)
    requires
        o is Some,
    ensures
        r == o->Some_0,
{
    match o {
        Some(s) => s.clone(),
        None => unreached(),
    }
}

/// Builds the move that replays `rec` forward.
pub fn forward_op_of(rec: &HistoryData) -> (op: MoveOp)
    requires
        action_fields_ok(*rec),
    ensures
        op == forward_op(*rec),
{
    match rec.action {
        Action::Take => MoveOp::ToSlot {
            file: clone_some(&rec.file),
            from_path: clone_some(&rec.path),
            slot: clone_some(&rec.slot),
        },
        Action::Drop => MoveOp::FromSlot {
            file: clone_some(&rec.file),
            slot: clone_some(&rec.slot),
            dest_path: clone_some(&rec.path),
        },
        Action::Switch => MoveOp::SwapSlots,
    }
}

/// Builds the move that reverses `rec`.
pub fn inverse_op_of(rec: &HistoryData) -> (op: MoveOp)
    requires
        action_fields_ok(*rec),
    ensures
        op == inverse_op(*rec),
{
    match rec.action {
        Action::Take => MoveOp::FromSlot {
            file: clone_some(&rec.file),
            slot: clone_some(&rec.slot),
            dest_path: clone_some(&rec.path),
        },
        Action::Drop => MoveOp::ToSlot {
            file: clone_some(&rec.file),
            from_path: clone_some(&rec.path),
            slot: clone_some(&rec.slot),
        },
        Action::Switch => MoveOp::SwapSlots,
    }
}

/// The record `r` with its current flag set to `c`.
pub open spec fn set_flag(r: HistoryData, c: bool) -> HistoryData {
    HistoryData {
        id: r.id,
        path: r.path,
        file: r.file,
        slot: r.slot,
        action: r.action,
        time: r.time,
        current: c,
    }
}

/// The history log: records in ascending id order, and the position of the
/// record that is currently in effect (0 when none is).
pub struct HistoryStore {
    pub records: Vec<HistoryData>,
    pub position: usize,
}

impl HistoryStore {
    /// A well-formed store: ids are contiguous starting at 1, the position
    /// points into the log (or at 0), the current flag marks exactly the
    /// record at the position, and each record's fields agree with its action.
    pub open spec fn wf(self) -> bool {
        &&& self.position <= self.records@.len()
        &&& forall|i: int|
            0 <= i < self.records@.len() ==> (#[trigger] self.records@[i]).id == i + 1
        &&& forall|i: int|
            0 <= i < self.records@.len() ==> ((#[trigger] self.records@[i]).current <==> i + 1
                == self.position)
        &&& forall|i: int|
            0 <= i < self.records@.len() ==> action_fields_ok(#[trigger] self.records@[i])
    }

    /// An empty store: no records, no current position.
    pub fn new() -> (s: Self)
        ensures
            s.wf(),
            s.records@.len() == 0,
            s.position == 0,
    {
        HistoryStore { records: Vec::new(), position: 0 }
    }

    /// The number of records, including the redoable tail beyond the position.
    pub fn size(&self) -> (n: usize)
        ensures
            n == self.records@.len(),
    {
        self.records.len()
    }

    /// The record the position points at, or nothing when the whole log has
    /// been undone or the log is empty.
    pub fn current(&self) -> (r: Option<HistoryData>)
        requires
            self.wf(),
        ensures
            self.position == 0 <==> r is None,
            self.position > 0 ==> (r matches Some(rec) && rec == self.records@[self.position - 1]),
    {
        if self.position == 0 {
            None
        } else {
            Some(self.records[self.position - 1].dup())
        }
    }

    /// Appends a new record: discards every record beyond the current
    /// position (the redoable future), then inserts the record with the next
    /// id and marks it as the one current record.
    pub fn append(&mut self, data: HistoryData) -> (id: usize)
        requires
            old(self).wf(),
            action_fields_ok(data),
            old(self).position < usize::MAX,
        ensures
            final(self).wf(),
            id == old(self).position + 1,
            final(self).position == id,
            final(self).records@.len() == old(self).position + 1,
            forall|i: int|
                0 <= i < old(self).position ==> final(self).records@[i] == set_flag(
                    old(self).records@[i],
                    false,
                ),
            final(self).records@[old(self).position as int] == (HistoryData {
                id: id,
                path: data.path,
                file: data.file,
                slot: data.slot,
                action: data.action,
                time: data.time,
                current: true,
            }),
    {
        let position = self.position;
        self.records.truncate(position);
        if position > 0 {
            let mut prev = self.records[position - 1].dup();
            prev.current = false;
            self.records[position - 1] = prev;
        }
        let id = position + 1;
        let rec = HistoryData {
            id,
            path: data.path,
            file: data.file,
            slot: data.slot,
            action: data.action,
            time: data.time,
            current: true,
        };
        self.records.push(rec);
        self.position = id;
        id
    }

    /// Moves the current pointer to the record with id `id`; `id` 0 rewinds
    /// to before the first record. Fails when no such record exists, leaving
    /// the store unchanged.
    pub fn set_current(&mut self, id: usize) -> (r: Result<(), ErrorType>)
        requires
            old(self).wf(),
        ensures
            final(self).wf(),
            r is Ok <==> id <= old(self).records@.len(),
            r is Err ==> r->Err_0 == ErrorType::IllegalAction && *final(self) == *old(self),
            r is Ok ==> final(self).position == id && final(self).records@.len() == old(
                self,
            ).records@.len() && forall|i: int|
                0 <= i < old(self).records@.len() ==> final(self).records@[i] == set_flag(
                    old(self).records@[i],
                    i + 1 == id,
                ),
    {
        let n = self.records.len();
        if id > n {
            return Err(ErrorType::IllegalAction);
        }
        let mut i: usize = 0;
        while i < n
            invariant
                i <= n,
                n == self.records@.len(),
                self.records@.len() == old(self).records@.len(),
                id <= n,
                forall|j: int|
                    0 <= j < i ==> self.records@[j] == set_flag(old(self).records@[j], j + 1 == id),
                forall|j: int| i <= j < n ==> self.records@[j] == old(self).records@[j],
            decreases n - i,
        {
            let mut rec = self.records[i].dup();
            rec.current = i + 1 == id;
            self.records[i] = rec;
            i += 1;
        }
        self.position = id;
        Ok(())
    }

    /// The records with id in `[low, high]`, in ascending id order.
    pub fn range(&self, low: usize, high: usize) -> (r: Vec<HistoryData>)
        requires
            self.wf(),
        ensures
            r@ == id_range(self.records@, low as int, high as int),
    {
        let n = self.records.len();
        let lo: usize = if low < 1 {
            0
        } else {
            low - 1
        };
        let hi: usize = if high > n {
            n
        } else {
            high
        };
        let mut out: Vec<HistoryData> = Vec::new();
        if lo >= hi {
            proof {
                assert(out@ =~= id_range(self.records@, low as int, high as int));
            }
            return out;
        }
        let mut i = lo;
        while i < hi
            invariant
                lo <= i <= hi <= n,
                n == self.records@.len(),
                out@ =~= self.records@.subrange(lo as int, i as int),
            decreases hi - i,
        {
            out.push(self.records[i].dup());
            i += 1;
        }
        proof {
            assert(out@ =~= id_range(self.records@, low as int, high as int));
        }
        out
    }

    /// Plans an undo of `steps` actions: the inverse move of each record from
    /// the current position downward (newest first), each paired with the
    /// position to commit once that move has succeeded, so that a batch that
    /// fails midway leaves the pointer at the last committed step. Fails with
    /// InvalidStepsLength unless `steps` is strictly less than the current
    /// position; planning only reads the store, so a failed call leaves it
    /// unchanged.
    pub fn undo_plan(&self, steps: usize) -> (r: Result<Vec<PlannedMove>, ErrorType>)
        requires
            self.wf(),
        ensures
            r is Err <==> steps >= self.position,
            r is Err ==> r->Err_0 == ErrorType::InvalidStepsLength,
            r is Ok ==> r->Ok_0@.len() == steps,
            r is Ok ==> forall|i: int|
                0 <= i < steps ==> (#[trigger] r->Ok_0@[i]).op == inverse_op(
                    self.records@[self.position - 1 - i],
                ) && r->Ok_0@[i].commit == self.position - 1 - i,
    {
        if self.position <= steps {
            return Err(ErrorType::InvalidStepsLength);
        }
        let mut plan: Vec<PlannedMove> = Vec::new();
        let mut k: usize = 0;
        while k < steps
            invariant
                self.wf(),
                k <= steps,
                steps < self.position,
                plan@.len() == k,
                forall|i: int|
                    0 <= i < k ==> (#[trigger] plan@[i]).op == inverse_op(
                        self.records@[self.position - 1 - i],
                    ) && plan@[i].commit == self.position - 1 - i,
            decreases steps - k,
        {
            let idx = self.position - 1 - k;
            let op = inverse_op_of(&self.records[idx]);
            plan.push(PlannedMove { op, commit: idx });
            k += 1;
        }
        Ok(plan)
    }

    /// Plans a redo of `steps` actions: the forward move of each record just
    /// past the current position, in ascending id order, each paired with the
    /// position to commit once that move has succeeded. Fails with
    /// InvalidStepsLength when `steps` exceeds the redoable tail
    /// (`size() - position`); planning only reads the store, so a failed call
    /// leaves it unchanged.
    pub fn redo_plan(&self, steps: usize) -> (r: Result<Vec<PlannedMove>, ErrorType>)
        requires
            self.wf(),
        ensures
            r is Err <==> steps > self.records@.len() - self.position,
            r is Err ==> r->Err_0 == ErrorType::InvalidStepsLength,
            r is Ok ==> r->Ok_0@.len() == steps,
            r is Ok ==> forall|i: int|
                0 <= i < steps ==> (#[trigger] r->Ok_0@[i]).op == forward_op(
                    self.records@[self.position + i],
                ) && r->Ok_0@[i].commit == self.position + i + 1,
    {
        let n = self.records.len();
        if n - self.position < steps {
            return Err(ErrorType::InvalidStepsLength);
        }
        let mut plan: Vec<PlannedMove> = Vec::new();
        let mut k: usize = 0;
        while k < steps
            invariant
                self.wf(),
                k <= steps,
                n == self.records@.len(),
                steps <= self.records@.len() - self.position,
                plan@.len() == k,
                forall|i: int|
                    0 <= i < k ==> (#[trigger] plan@[i]).op == forward_op(
                        self.records@[self.position + i],
                    ) && plan@[i].commit == self.position + i + 1,
            decreases steps - k,
        {
            let idx = self.position + k;
            let op = forward_op_of(&self.records[idx]);
            plan.push(PlannedMove { op, commit: idx + 1 });
            k += 1;
        }
        Ok(plan)
    }

    /// The window of records the log view shows: `length` records before and
    /// after the current position, the window shifted (not shrunk) where it
    /// would run off either end of the log. A pure read; the result never
    /// holds more than `2 * length + 1` records and only ids in `[1, size]`.
    pub fn view(&self, length: usize) -> (r: Vec<HistoryData>)
        requires
            self.wf(),
        ensures
            r@ == view_slice(self.records@, self.position as int, length as int),
            r@.len() <= 2 * length + 1,
            forall|i: int|
                0 <= i < r@.len() ==> 1 <= (#[trigger] r@[i]).id <= self.records@.len(),
    {
        let size = self.records.len();
        let last = self.position;
        let l = length as u128;
        let sz = size as u128;
        let la = last as u128;
        let (lo128, hi128): (u128, u128) = if la + l >= sz {
            let b = if sz >= 2 * l + 1 {
                sz - 2 * l
            } else {
                1
            };
            (b, sz)
        } else if la < 1 + l {
            let f = 2 * l + 1;
            (1, if f > sz {
                sz
            } else {
                f
            })
        } else {
            (la - l, la + l)
        };
        assert(lo128 <= usize::MAX as u128 && hi128 <= usize::MAX as u128);
        let lo = lo128 as usize;
        let hi = hi128 as usize;
        let out = self.range(lo, hi);
        proof {
            assert(out@ =~= view_slice(self.records@, self.position as int, length as int));
            assert forall|i: int| 0 <= i < out@.len() implies 1 <= (#[trigger] out@[i]).id
                <= self.records@.len() by {
                let lo_i = if lo128 as int >= 1 {
                    lo128 as int - 1
                } else {
                    0
                };
                assert(out@[i] == self.records@[lo_i + i]);
            }
        }
        out
    }
}

/// The inclusive id window `view` shows around position `last`: the ids
/// `[last - length, last + length]`, shifted back inside `[1, size]` when
/// they run off an end, then clamped to the ids that exist.
pub open spec fn view_window(size: int, last: int, length: int) -> (int, int) {
    let f = last + length;
    let b = last - length;
    let lo = if f >= size {
        size - 2 * length
    } else if b < 1 {
        1
    } else {
        b
    };
    let hi = if f >= size {
        size
    } else if b < 1 {
        2 * length + 1
    } else {
        f
    };
    ((if lo < 1 { 1int } else { lo }), (if hi > size { size } else { hi }))
}

/// The records with id in `[low, high]`, clamped to the ids that exist.
pub open spec fn id_range(recs: Seq<HistoryData>, low: int, high: int) -> Seq<HistoryData> {
    let lo = if low < 1 { 0int } else { low - 1 };
    let hi = if high > recs.len() { recs.len() as int } else { high };
    if lo < hi {
        recs.subrange(lo, hi)
    } else {
        Seq::empty()
    }
}

/// The records `view` shows: the window around `last`, in ascending id order.
pub open spec fn view_slice(recs: Seq<HistoryData>, last: int, length: int) -> Seq<HistoryData> {
    let (lo, hi) = view_window(recs.len() as int, last, length);
    id_range(recs, lo, hi)
}

/// Law: a well-formed store marks at most one record as current, and it is
/// the record whose id equals the position.
pub proof fn lemma_at_most_one_current(s: HistoryStore)
    requires
        s.wf(),
    ensures
        forall|i: int, j: int|
            0 <= i < s.records@.len() && 0 <= j < s.records@.len()
                && (#[trigger] s.records@[i]).current && (#[trigger] s.records@[j]).current ==> i
                == j,
        forall|i: int|
            0 <= i < s.records@.len() && (#[trigger] s.records@[i]).current ==> s.records@[i].id
                == s.position,
{
}

/// Parses the legacy single-action history file that `migrate` imports:
/// exactly four lines — path, file, slot and action tag — giving a record
/// marked current. A wrong line count is an invalid history length; an
/// unrecognized action tag or, for a take or drop, an unknown slot name is
/// rejected as an illegal action instead of being carried into the store.
pub fn parse_legacy(lines: &Vec<String>) -> (r: Result<HistoryData, ErrorType>)
    ensures
        lines@.len() != 4 ==> (r is Err && r->Err_0 == ErrorType::InvalidHistoryLength),
        lines@.len() == 4 && tag_action(lines@[3]@) is None ==> (r is Err && r->Err_0
            == ErrorType::IllegalAction),
        lines@.len() == 4 && tag_action(lines@[3]@) == Some(Action::Switch) ==> (r matches Ok(rec)
            && rec.action == Action::Switch && rec.path is None && rec.file is None
            && rec.slot is None && rec.time == 0 && rec.current && action_fields_ok(rec)),
        lines@.len() == 4 && (tag_action(lines@[3]@) == Some(Action::Take) || tag_action(
            lines@[3]@,
        ) == Some(Action::Drop)) && !valid_slot_name(lines@[2]@) ==> (r is Err && r->Err_0
            == ErrorType::IllegalAction),
        lines@.len() == 4 && (tag_action(lines@[3]@) == Some(Action::Take) || tag_action(
            lines@[3]@,
        ) == Some(Action::Drop)) && valid_slot_name(lines@[2]@) ==> (r matches Ok(rec)
            && rec.action == tag_action(lines@[3]@)->Some_0 && (rec.path matches Some(p) && p@
            == lines@[0]@) && (rec.file matches Some(f) && f@ == lines@[1]@) && (rec.slot
            matches Some(s) && s@ == lines@[2]@) && rec.time == 0 && rec.current
            && action_fields_ok(rec)),
{
    if lines.len() != 4 {
        return Err(ErrorType::InvalidHistoryLength);
    }
    let action = match parse_action(lines[3].as_str()) {
        Ok(a) => a,
        Err(e) => {
            return Err(e);
        },
    };
    match action {
        Action::Switch => Ok(
            HistoryData {
                id: 0,
                path: None,
                file: None,
                slot: None,
                action: Action::Switch,
                time: 0,
                current: true,
            },
        ),
        _ => {
            if slot_name_ok(lines[2].as_str()) {
                Ok(
                    HistoryData {
                        id: 0,
                        path: Some(lines[0].clone()),
                        file: Some(lines[1].clone()),
                        slot: Some(lines[2].clone()),
                        action,
                        time: 0,
                        current: true,
                    },
                )
            } else {
                Err(ErrorType::IllegalAction)
            }
        },
    }
}

} // verus!
