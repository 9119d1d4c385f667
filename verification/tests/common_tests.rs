use vento::common::{
    action_to_tag, clone_opt_string, env_config, join_path, parse_action, record_fields_ok,
    slot_name_ok, str_eq, Action, DeserializedConfig, HistoryData,
};
use vento::history::parse_legacy;
use vento::inv::{has_parent_ref, resolve_slot, switch_record};
use vento::item::{drop_record, take_record};
use vento::message::{append_emoji, throw_error, EmojiType, ErrorType};
use vento::error;

fn lines(v: &[&str]) -> Vec<String> {
    v.iter().map(|s| s.to_string()).collect()
}

#[test]
fn action_tags_round_trip() {
    for action in [Action::Take, Action::Drop, Action::Switch] {
        let tag = action_to_tag(action);
        assert_eq!(parse_action(tag).unwrap(), action);
    }
    assert_eq!(action_to_tag(Action::Take), "take");
    assert_eq!(action_to_tag(Action::Drop), "drop");
    assert_eq!(action_to_tag(Action::Switch), "switch");
}

#[test]
fn unknown_action_tag_is_illegal() {
    assert_eq!(parse_action("taken").unwrap_err(), ErrorType::IllegalAction);
    assert_eq!(parse_action("").unwrap_err(), ErrorType::IllegalAction);
    assert_eq!(parse_action("Take").unwrap_err(), ErrorType::IllegalAction);
}

#[test]
fn slot_names_and_aliases() {
    assert!(slot_name_ok("active"));
    assert!(slot_name_ok("a"));
    assert!(slot_name_ok("inactive"));
    assert!(slot_name_ok("i"));
    assert!(!slot_name_ok("Active"));
    assert!(!slot_name_ok("x"));
    assert!(!slot_name_ok(""));
}

#[test]
fn str_eq_compares_characters() {
    assert!(str_eq("abc", "abc"));
    assert!(!str_eq("abc", "abd"));
    assert!(!str_eq("abc", "ab"));
    assert!(str_eq("", ""));
}

#[test]
fn resolve_slot_maps_names_to_directories() {
    let settings = env_config("/home/u", "").unwrap();
    assert_eq!(
        resolve_slot("active", &settings).as_deref(),
        Some("/home/u/.vento/active")
    );
    assert_eq!(
        resolve_slot("a", &settings).as_deref(),
        Some("/home/u/.vento/active")
    );
    assert_eq!(
        resolve_slot("inactive", &settings).as_deref(),
        Some("/home/u/.vento/inactive")
    );
    assert_eq!(
        resolve_slot("i", &settings).as_deref(),
        Some("/home/u/.vento/inactive")
    );
    assert_eq!(resolve_slot("other", &settings), None);
}

#[test]
fn env_config_prefers_the_custom_directory() {
    let settings = env_config("/home/u", "/data/vento").unwrap();
    assert_eq!(settings.vento_dir, "/data/vento");
    assert_eq!(settings.active_dir, "/data/vento/active");
    assert_eq!(settings.inactive_dir, "/data/vento/inactive");
}

#[test]
fn env_config_without_home_fails() {
    assert_eq!(env_config("", "").unwrap_err(), ErrorType::NoHomeDirectory);
    assert_eq!(
        env_config("", "/data").unwrap_err(),
        ErrorType::NoHomeDirectory
    );
}

#[test]
fn join_path_inserts_one_separator() {
    assert_eq!(join_path("/a/b", "c"), "/a/b/c");
    assert_eq!(join_path("", "c"), "/c");
}

#[test]
fn default_config_enables_all_display_options() {
    let c = DeserializedConfig::default();
    assert_eq!(c.directory, "");
    assert!(c.display_dir);
    assert!(c.history_display_dir);
    assert!(c.display_emoji);
    assert!(c.display_colors);
}

#[test]
fn record_fields_must_match_the_action() {
    assert!(record_fields_ok(&take_record("/p", "f", "active", 0)));
    assert!(record_fields_ok(&drop_record("/p", "f", "i", 0)));
    assert!(record_fields_ok(&switch_record(0)));
    let bad_slot = HistoryData {
        id: 0,
        path: Some("/p".to_string()),
        file: Some("f".to_string()),
        slot: Some("elsewhere".to_string()),
        action: Action::Take,
        time: 0,
        current: false,
    };
    assert!(!record_fields_ok(&bad_slot));
    let missing_file = HistoryData {
        id: 0,
        path: Some("/p".to_string()),
        file: None,
        slot: Some("active".to_string()),
        action: Action::Drop,
        time: 0,
        current: false,
    };
    assert!(!record_fields_ok(&missing_file));
    let switch_with_fields = HistoryData {
        id: 0,
        path: Some("/p".to_string()),
        file: None,
        slot: None,
        action: Action::Switch,
        time: 0,
        current: false,
    };
    assert!(!record_fields_ok(&switch_with_fields));
}

#[test]
fn clone_opt_string_copies() {
    assert_eq!(clone_opt_string(&Some("x".to_string())), Some("x".to_string()));
    assert_eq!(clone_opt_string(&None), None);
}

#[test]
fn parent_references_are_detected() {
    assert!(has_parent_ref(".."));
    assert!(has_parent_ref("a/../b"));
    assert!(has_parent_ref("..x"));
    assert!(!has_parent_ref("."));
    assert!(!has_parent_ref("a.b.c"));
    assert!(!has_parent_ref(""));
    assert!(!has_parent_ref("docs"));
}

#[test]
fn take_and_drop_records_carry_their_fields() {
    let t = take_record("/home/u", "a.txt", "active", 3);
    assert_eq!(t.action, Action::Take);
    assert_eq!(t.path.as_deref(), Some("/home/u"));
    assert_eq!(t.file.as_deref(), Some("a.txt"));
    assert_eq!(t.slot.as_deref(), Some("active"));
    assert_eq!(t.time, 3);
    assert!(!t.current);
    let d = drop_record("/home/u/dest", "a.txt", "inactive", 4);
    assert_eq!(d.action, Action::Drop);
    assert_eq!(d.path.as_deref(), Some("/home/u/dest"));
    assert_eq!(d.slot.as_deref(), Some("inactive"));
    let s = switch_record(5);
    assert_eq!(s.action, Action::Switch);
    assert_eq!(s.path, None);
    assert_eq!(s.file, None);
    assert_eq!(s.slot, None);
    assert_eq!(s.time, 5);
}

#[test]
fn legacy_history_parses_four_lines() {
    let rec = parse_legacy(&lines(&["/home/u", "a.txt", "active", "take"])).unwrap();
    assert_eq!(rec.action, Action::Take);
    assert_eq!(rec.path.as_deref(), Some("/home/u"));
    assert_eq!(rec.file.as_deref(), Some("a.txt"));
    assert_eq!(rec.slot.as_deref(), Some("active"));
    assert_eq!(rec.time, 0);
    assert!(rec.current);
    let rec = parse_legacy(&lines(&["", "", "", "switch"])).unwrap();
    assert_eq!(rec.action, Action::Switch);
    assert_eq!(rec.path, None);
}

#[test]
fn legacy_history_rejects_bad_input() {
    assert_eq!(
        parse_legacy(&lines(&["/home/u", "a.txt", "active"])).unwrap_err(),
        ErrorType::InvalidHistoryLength
    );
    assert_eq!(
        parse_legacy(&lines(&["/p", "f", "s", "take", "extra"])).unwrap_err(),
        ErrorType::InvalidHistoryLength
    );
    assert_eq!(
        parse_legacy(&lines(&["/p", "f", "active", "jump"])).unwrap_err(),
        ErrorType::IllegalAction
    );
    assert_eq!(
        parse_legacy(&lines(&["/p", "f", "middle", "drop"])).unwrap_err(),
        ErrorType::IllegalAction
    );
}

#[test]
fn emoji_prefixes_follow_the_config() {
    assert_eq!(append_emoji(EmojiType::Celebrate, true), "🎉 ");
    assert_eq!(append_emoji(EmojiType::Success, true), "✅ ");
    assert_eq!(append_emoji(EmojiType::Inventory, true), "🗃️ ");
    assert_eq!(append_emoji(EmojiType::Warning, true), "⚠️ ");
    assert_eq!(append_emoji(EmojiType::Success, false), "");
}

#[test]
fn error_messages_match_their_kind() {
    assert_eq!(
        throw_error(ErrorType::InvalidStepsLength).unwrap_err(),
        "Invalid steps length"
    );
    assert_eq!(
        throw_error(ErrorType::SmallTerminal).unwrap_err(),
        "Your terminal needs to be at least 83 columns wide"
    );
    assert_eq!(
        throw_error(ErrorType::NoFileOrDir).unwrap_err(),
        "No such file or directory"
    );
    assert_eq!(
        throw_error(ErrorType::ExistsInventory).unwrap_err(),
        "A file with the same name already exists in your inventory!"
    );
    assert_eq!(
        throw_error(ErrorType::NotInitialized).unwrap_err(),
        "Vento not initialized. Run \"vento -i\" to initialize Vento"
    );
}

#[test]
fn older_error_surface_agrees() {
    assert_eq!(
        error::throw_error(error::ErrorType::NoAccessParent).unwrap_err(),
        "Cannot access parent"
    );
    assert_eq!(
        error::throw_error(error::ErrorType::InvalidHistoryLength).unwrap_err(),
        "Invalid history length"
    );
    assert_eq!(
        error::throw_error(error::ErrorType::ExistsDestination).unwrap_err(),
        "A file with the same name already exists in the destination! Try renaming it or dropping this file somewhere else"
    );
}
