use gbfrer_summon_drop_picker::json::{array_member, bool_member, read_json, string_member, strings_of};
use gbfrer_summon_drop_picker::reloaded::{app_config_dir, app_entry, launcher_path, mod_dependencies, mods_dir};
use gbfrer_summon_drop_picker::settings::{chosen_path, saved_pick, saved_pick_list, startup};
use gbfrer_summon_drop_picker::status::{next_step, Action, Next};

#[test]
fn read_json_accepts_byte_order_marks() {
    let v = read_json("\u{feff}{\"LauncherPath\": \"C:\\\\R\\\\Reloaded-II.exe\"}").unwrap();
    assert_eq!(launcher_path(&v).as_deref(), Some("C:\\R\\Reloaded-II.exe"));
    assert!(read_json("{").is_none());
    assert!(read_json("").is_none());
}

#[test]
fn reloaded_settings_members() {
    let v = read_json(
        "{\"ModConfigDirectory\": \"C:\\\\R\\\\Mods\", \"ApplicationConfigDirectory\": \"C:\\\\R\\\\Apps\", \"LauncherPath\": 5}",
    )
    .unwrap();
    assert_eq!(mods_dir(&v).as_deref(), Some("C:\\R\\Mods"));
    assert_eq!(app_config_dir(&v).as_deref(), Some("C:\\R\\Apps"));
    assert_eq!(launcher_path(&v), None);
    assert_eq!(mods_dir(&read_json("[1, 2]").unwrap()), None);
}

#[test]
fn dependencies_skip_non_strings() {
    let v = read_json("{\"ModDependencies\": [\"a.b\", 3, null, \"c.d\"]}").unwrap();
    assert_eq!(mod_dependencies(&v), vec!["a.b".to_string(), "c.d".to_string()]);
    assert!(mod_dependencies(&read_json("{}").unwrap()).is_empty());
    assert!(mod_dependencies(&read_json("{\"ModDependencies\": \"x\"}").unwrap()).is_empty());
}

#[test]
fn app_entries_default_to_empty_text() {
    let v = read_json("{\"AppId\": \"granbluefantasyrelink.exe\", \"AppLocation\": \"D:\\\\G\\\\g.exe\"}").unwrap();
    let e = app_entry(&v);
    assert_eq!(e.id, "granbluefantasyrelink.exe");
    assert_eq!(e.location, "D:\\G\\g.exe");
    let e = app_entry(&read_json("{\"AppId\": 1}").unwrap());
    assert_eq!((e.id.as_str(), e.location.as_str()), ("", ""));
}

#[test]
fn member_accessors() {
    let v = read_json("{\"s\": \"t\", \"b\": true, \"a\": [\"x\", false, \"y\"]}").unwrap();
    assert_eq!(string_member(&v, "s").as_deref(), Some("t"));
    assert_eq!(string_member(&v, "b"), None);
    assert_eq!(bool_member(&v, "b"), Some(true));
    assert_eq!(bool_member(&v, "s"), None);
    let a = array_member(&v, "a").unwrap();
    assert_eq!(strings_of(a), vec!["x".to_string(), "y".to_string()]);
    assert!(array_member(&v, "missing").is_none());
}

#[test]
fn saved_pick_reads_leniently() {
    let e = saved_pick(&read_json("{\"summon\": \"Rolan\", \"skill\": \"Aegis\", \"bonus\": 4, \"half_cap\": \"yes\"}").unwrap());
    assert_eq!(e.summon, "Rolan");
    assert_eq!(e.skill.as_deref(), Some("Aegis"));
    assert_eq!(e.bonus, None);
    assert!(!e.half_cap);
    let e = saved_pick(&read_json("7").unwrap());
    assert_eq!(e.summon, "");
    let v = read_json("[{\"summon\": \"Lilith\", \"half_cap\": true}, 3]").unwrap();
    let list = saved_pick_list(v.as_array().unwrap());
    assert_eq!(list.len(), 2);
    assert!(list[0].half_cap);
}

#[test]
fn saved_paths_win_only_when_set() {
    assert_eq!(chosen_path(Some("X".to_string()), "D".to_string()), "X");
    assert_eq!(chosen_path(Some(String::new()), "D".to_string()), "D");
    assert_eq!(chosen_path(None, "D".to_string()), "D");
}

#[test]
fn startup_without_settings_uses_defaults_and_detection() {
    let s = startup(None, "L".to_string(), "G".to_string());
    assert_eq!(s.picks.len(), 8);
    assert!(s.picks.iter().all(|p| (p.skill, p.bonus, p.half_cap) == (0, 0, false)));
    assert_eq!((s.reloaded_path.as_str(), s.game_path.as_str()), ("L", "G"));
}

#[test]
fn startup_reads_saved_settings() {
    let text = "{\"reloaded_path\": \"C:\\\\R.exe\", \"game_path\": \"\", \"picks\": [\
        {\"summon\": \"Rolan\", \"skill\": \"Aegis\", \"bonus\": \"stun\", \"half_cap\": true},\
        {\"summon\": \"Behemoth III\", \"skill\": \"Celestial Ventus\", \"bonus\": \"skilldmgcap\"}]}";
    let s = startup(read_json(text), "L".to_string(), "G".to_string());
    assert_eq!(s.reloaded_path, "C:\\R.exe");
    assert_eq!(s.game_path, "G");
    assert_eq!((s.picks[6].skill, s.picks[6].bonus, s.picks[6].half_cap), (5, 4, true));
    assert_eq!((s.picks[0].skill, s.picks[0].bonus, s.picks[0].half_cap), (3, 1, false));
    assert_eq!((s.picks[3].skill, s.picks[3].bonus), (0, 0));
}

#[test]
fn next_step_decisions() {
    assert_eq!(next_step(Action::Apply, true, true, true), Next { launch: false, restored: false });
    assert_eq!(next_step(Action::RunGame, true, true, true), Next { launch: true, restored: false });
    assert_eq!(next_step(Action::RunGame, false, true, false), Next { launch: false, restored: false });
    assert_eq!(next_step(Action::RunGame, true, false, false), Next { launch: false, restored: false });
    assert_eq!(next_step(Action::Restore, true, true, false), Next { launch: false, restored: true });
    assert_eq!(next_step(Action::Restore, false, true, false), Next { launch: false, restored: false });
    assert_eq!(next_step(Action::Restore, false, true, true), Next { launch: false, restored: true });
    assert_eq!(next_step(Action::FinishRestore, false, true, true), Next { launch: true, restored: true });
    assert_eq!(next_step(Action::FinishRestore, true, false, false), Next { launch: false, restored: false });
}
