use vstd::prelude::*;

use crate::common::{action_fields_ok, valid_slot_name, Action, HistoryData};

verus! {

/// The record that `take` logs: `file` was moved from the directory `path`
/// into the slot `slot`.
pub fn take_record(path: &str, file: &str, slot: &str, time: i64) -> (r: HistoryData)
    requires
        valid_slot_name(slot@),
    ensures
        r.action == Action::Take,
        r.path matches Some(p) && p@ == path@,
        r.file matches Some(f) && f@ == file@,
        r.slot matches Some(s) && s@ == slot@,
        r.time == time,
        r.id == 0,
        !r.current,
        action_fields_ok(r),
{
    HistoryData {
        id: 0,
        path: Some(path.to_owned()),
        file: Some(file.to_owned()),
        slot: Some(slot.to_owned()),
        action: Action::Take,
        time,
        current: false,
    }
}

/// The record that `drop` logs: `file` was moved out of the slot `slot` into
/// the directory `path`.
pub fn drop_record(path: &str, file: &str, slot: &str, time: i64) -> (r: HistoryData)
    requires
        valid_slot_name(slot@),
    ensures
        r.action == Action::Drop,
        r.path matches Some(p) && p@ == path@,
        r.file matches Some(f) && f@ == file@,
        r.slot matches Some(s) && s@ == slot@,
        r.time == time,
        r.id == 0,
        !r.current,
        action_fields_ok(r),
{
    HistoryData {
        id: 0,
        path: Some(path.to_owned()),
        file: Some(file.to_owned()),
        slot: Some(slot.to_owned()),
        action: Action::Drop,
        time,
        current: false,
    }
}

} // verus!
