use vstd::prelude::*;
use vstd::string::StringExecFns;

use crate::message::ErrorType;

verus! {

/// The directories a command works with: the data directory and its two slots.
#[derive(Debug)]
pub struct Settings {
    pub vento_dir: String,
    pub active_dir: String,
    pub inactive_dir: String,
}

/// Configuration values, with their defaults already applied.
#[derive(Debug)]
pub struct DeserializedConfig {
    pub directory: String,
    pub display_dir: bool,
    pub history_display_dir: bool,
    pub display_emoji: bool,
    pub display_colors: bool,
}

impl Default for DeserializedConfig {
    /// The configuration used when no config file is present: no custom
    /// directory, and every display option switched on.
    fn default() -> (c: Self)
        ensures
            c.directory@ == Seq::<char>::empty(),
            c.display_dir,
            c.history_display_dir,
            c.display_emoji,
            c.display_colors,
    {
        DeserializedConfig {
            directory: String::new(),
            display_dir: true,
            history_display_dir: true,
            display_emoji: true,
            display_colors: true,
        }
    }
}

/// What a history record did: took a file into a slot, dropped one back out,
/// or swapped the two slots.
#[derive(Clone, Copy, PartialEq, Eq, Structural, Debug)]
pub enum Action {
    Take,
    Drop,
    Switch,
}

/// One entry of the history log.
///
/// `path` is the source directory of a take or the destination directory of a
/// drop; `file` is the name acted on; `slot` the slot it targeted. All three
/// are absent for a switch. `current` marks the record the timeline pointer
/// sits on.
#[derive(Debug)]
pub struct HistoryData {
    pub id: usize,
    pub path: Option<String>,
    pub file: Option<String>,
    pub slot: Option<String>,
    pub action: Action,
    pub time: i64,
    pub current: bool,
}

/// Compares two string slices by their characters.
pub fn str_eq(a: &str, b: &str) -> (r: bool)
    ensures
        r == (a@ == b@),
{
    let sa = a.to_owned();
    let sb = b.to_owned();
    sa == sb
}

/// Clones an optional string.
pub fn clone_opt_string(o: &Option<String>) -> (r: Option<String>)
    ensures
        r == *o,
{
    match o {
        Some(s) => Some(s.clone()),
        None => None,
    }
}

impl HistoryData {
    /// A copy of the record, equal to it field by field.
    pub fn dup(&self) -> (r: HistoryData)
        ensures
            r == *self,
    {
        HistoryData {
            id: self.id,
            path: clone_opt_string(&self.path),
            file: clone_opt_string(&self.file),
            slot: clone_opt_string(&self.slot),
            action: self.action,
            time: self.time,
            current: self.current,
        }
    }
}

pub open spec fn is_active_name(s: Seq<char>) -> bool {
    s == "active"@ || s == "a"@
}

pub open spec fn is_inactive_name(s: Seq<char>) -> bool {
    s == "inactive"@ || s == "i"@
}

/// A slot name a command accepts: "active"/"inactive" or their short aliases.
pub open spec fn valid_slot_name(s: Seq<char>) -> bool {
    is_active_name(s) || is_inactive_name(s)
}

/// Checks a slot name against the accepted names and aliases.
pub fn slot_name_ok(slot: &str) -> (r: bool)
    ensures
        r == valid_slot_name(slot@),
{
    str_eq(slot, "active") || str_eq(slot, "a") || str_eq(slot, "inactive") || str_eq(slot, "i")
}

/// A record's optional fields agree with its action: a take or drop names the
/// path, the file and a valid slot; a switch carries none of them.
pub open spec fn action_fields_ok(r: HistoryData) -> bool {
    match r.action {
        Action::Take => r.path is Some && r.file is Some && r.slot is Some
            && valid_slot_name(r.slot->Some_0@),
        Action::Drop => r.path is Some && r.file is Some && r.slot is Some
            && valid_slot_name(r.slot->Some_0@),
        Action::Switch => r.path is None && r.file is None && r.slot is None,
    }
}

/// Checks that a record's optional fields agree with its action.
pub fn record_fields_ok(r: &HistoryData) -> (b: bool)
    ensures
        b == action_fields_ok(*r),
{
    match r.action {
        Action::Switch => r.path.is_none() && r.file.is_none() && r.slot.is_none(),
        _ => {
            if r.path.is_some() && r.file.is_some() {
                match &r.slot {
                    Some(s) => slot_name_ok(s.as_str()),
                    None => false,
                }
            } else {
                false
            }
        },
    }
}

/// The tag an action is stored under.
pub open spec fn action_tag(action: Action) -> Seq<char> {
    match action {
        Action::Take => "take"@,
        Action::Drop => "drop"@,
        Action::Switch => "switch"@,
    }
}

/// The action a stored tag denotes, if the tag is recognized.
pub open spec fn tag_action(tag: Seq<char>) -> Option<Action> {
    if tag == "take"@ {
        Some(Action::Take)
    } else if tag == "drop"@ {
        Some(Action::Drop)
    } else if tag == "switch"@ {
        Some(Action::Switch)
    } else {
        None
    }
}

/// Encodes an action as the tag it is stored under.
pub fn action_to_tag(action: Action) -> (r: &'static str)
    ensures
        r@ == action_tag(action),
{
    match action {
        Action::Take => "take",
        Action::Drop => "drop",
        Action::Switch => "switch",
    }
}

/// Decodes a stored action tag; an unrecognized tag is rejected as an
/// illegal action rather than carried along.
pub fn parse_action(tag: &str) -> (r: Result<Action, ErrorType>)
    ensures
        tag_action(tag@) is Some ==> r is Ok && r->Ok_0 == tag_action(tag@)->Some_0,
        tag_action(tag@) is None ==> r is Err && r->Err_0 == ErrorType::IllegalAction,
{
    if str_eq(tag, "take") {
        Ok(Action::Take)
    } else if str_eq(tag, "drop") {
        Ok(Action::Drop)
    } else if str_eq(tag, "switch") {
        Ok(Action::Switch)
    } else {
        Err(ErrorType::IllegalAction)
    }
}

/// Law: decoding the tag written for an action yields that action again.
pub proof fn lemma_action_tag_round_trip(action: Action)
    ensures
        tag_action(action_tag(action)) == Some(action),
{
    reveal_strlit("take");
    reveal_strlit("drop");
    reveal_strlit("switch");
    assert("drop"@ != "take"@) by {
        assert("drop"@[0] == 'd' && "take"@[0] == 't');
    }
    assert("switch"@ != "take"@) by {
        assert("switch"@.len() == 6 && "take"@.len() == 4);
    }
    assert("switch"@ != "drop"@) by {
        assert("switch"@.len() == 6 && "drop"@.len() == 4);
    }
}

/// The path of the entry `name` inside the directory `base`.
pub fn join_path(base: &str, name: &str) -> (r: String)
    ensures
        r@ == base@ + "/"@ + name@,
{
    let mut s = base.to_owned();
    s.append("/");
    s.append(name);
    s
}

/// Derives the Vento directories from the home directory and the configured
/// custom directory; fails when no home directory is known.
pub fn env_config(home: &str, custom_dir: &str) -> (r: Result<Settings, ErrorType>)
    ensures
        home@.len() == 0 ==> r is Err && r->Err_0 == ErrorType::NoHomeDirectory,
        home@.len() > 0 ==> r is Ok && {
            let s = r->Ok_0;
            &&& (custom_dir@.len() > 0 ==> s.vento_dir@ == custom_dir@)
            &&& (custom_dir@.len() == 0 ==> s.vento_dir@ == home@ + "/"@ + ".vento"@)
            &&& s.active_dir@ == s.vento_dir@ + "/"@ + "active"@
            &&& s.inactive_dir@ == s.vento_dir@ + "/"@ + "inactive"@
        },
{
    if home.is_empty() {
        return Err(ErrorType::NoHomeDirectory);
    }
    let vento_dir = if custom_dir.is_empty() {
        join_path(home, ".vento")
    } else {
        custom_dir.to_owned()
    };
    let active_dir = join_path(vento_dir.as_str(), "active");
    let inactive_dir = join_path(vento_dir.as_str(), "inactive");
    Ok(Settings { vento_dir, active_dir, inactive_dir })
}

} // verus!
