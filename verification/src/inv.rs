use vstd::prelude::*;

use crate::common::{
    is_active_name, is_inactive_name, str_eq, valid_slot_name, Action, HistoryData, Settings,
};
use vstd::string::StringSliceAdditionalSpecFns;

verus! {

/// Maps a slot name or its short alias to that slot's directory.
pub fn resolve_slot(slot: &str, settings: &Settings) -> (r: Option<String>)
    ensures
        is_active_name(slot@) ==> (r matches Some(d) && d@ == settings.active_dir@),
        is_inactive_name(slot@) ==> (r matches Some(d) && d@ == settings.inactive_dir@),
        !valid_slot_name(slot@) ==> r is None,
{
    proof {
        reveal_strlit("active");
        reveal_strlit("a");
        reveal_strlit("inactive");
        reveal_strlit("i");
        assert("active"@ != "inactive"@) by {
            assert("active"@.len() == 6 && "inactive"@.len() == 8);
        }
        assert("active"@ != "i"@) by {
            assert("active"@.len() == 6 && "i"@.len() == 1);
        }
        assert("a"@ != "inactive"@) by {
            assert("a"@.len() == 1 && "inactive"@.len() == 8);
        }
        assert("a"@ != "i"@) by {
            assert("a"@[0] == 'a' && "i"@[0] == 'i');
        }
    }
    if str_eq(slot, "active") || str_eq(slot, "a") {
        Some(settings.active_dir.clone())
    } else if str_eq(slot, "inactive") || str_eq(slot, "i") {
        Some(settings.inactive_dir.clone())
    } else {
        None
    }
}

/// Two dots in a row somewhere in the bytes of a path.
pub open spec fn contains_dotdot(s: Seq<u8>) -> bool {
    exists|i: int| 0 <= i && i + 1 < s.len() && #[trigger] s[i] == 46u8 && s[i + 1] == 46u8
}

/// True when a listing path tries to reach a parent directory: ".." occurs in
/// it. Such paths are rejected so a listing cannot leave the inventory.
pub fn has_parent_ref(dir: &str) -> (r: bool)
    ensures
        r == contains_dotdot(dir.spec_bytes()),
{
    let bytes = dir.as_bytes();
    let n = bytes.len();
    if n < 2 {
        return false;
    }
    let mut i: usize = 0;
    while i + 1 < n
        invariant
            i < n,
            n == bytes@.len(),
            bytes@ == dir.spec_bytes(),
            forall|j: int| 0 <= j < i ==> !(#[trigger] bytes@[j] == 46u8 && bytes@[j + 1] == 46u8),
        decreases n - i,
    {
        if bytes[i] == 46u8 && bytes[i + 1] == 46u8 {
            return true;
        }
        i += 1;
    }
    false
}

/// The record that a slot switch logs: no path, file or slot, only the action.
pub fn switch_record(time: i64) -> (r: HistoryData)
    ensures
        r.action == Action::Switch,
        r.path is None,
        r.file is None,
        r.slot is None,
        r.time == time,
        r.id == 0,
        !r.current,
        crate::common::action_fields_ok(r),
{
    HistoryData {
        id: 0,
        path: None,
        file: None,
        slot: None,
        action: Action::Switch,
        time,
        current: false,
    }
}

} // verus!
