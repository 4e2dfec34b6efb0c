use gbfrer_summon_drop_picker::reloaded::{
    check_deps, choose_launcher, find_game, is_game_app, mentions_game, json_text, launch_args, launcher_candidates,
    AppEntry, ModsScan, CORE_MOD,
};

#[test]
fn deps_report_when_mods_folder_missing() {
    let r = check_deps(None);
    assert!(!r.located);
    assert!(!r.ok);
    assert_eq!(r.items, vec![(CORE_MOD.to_string(), false)]);
}

#[test]
fn deps_report_all_installed() {
    let scan = ModsScan {
        core_installed: true,
        dependencies: vec![
            ("Reloaded.Memory.SigScan.ReloadedII".to_string(), true),
            ("reloaded.sharedlib.hooks".to_string(), true),
            ("reloaded.universal.redirector".to_string(), true),
        ],
    };
    let r = check_deps(Some(scan));
    assert!(r.located);
    assert!(r.ok);
    assert_eq!(r.items.len(), 4);
    assert_eq!(r.items[0], ("gbfrelink.utility.manager".to_string(), true));
    assert_eq!(r.items[2].0, "reloaded.sharedlib.hooks");
}

#[test]
fn deps_report_one_missing() {
    let scan = ModsScan {
        core_installed: true,
        dependencies: vec![("a".to_string(), true), ("b".to_string(), false)],
    };
    let r = check_deps(Some(scan));
    assert!(r.located);
    assert!(!r.ok);
}

#[test]
fn deps_report_core_missing_without_manifest() {
    let r = check_deps(Some(ModsScan { core_installed: false, dependencies: vec![] }));
    assert!(r.located);
    assert!(!r.ok);
    assert_eq!(r.items, vec![(CORE_MOD.to_string(), false)]);
}

#[test]
fn json_text_drops_byte_order_marks() {
    assert_eq!(json_text("\u{feff}{\"a\":1}"), "{\"a\":1}");
    assert_eq!(json_text("\u{feff}\u{feff}[]"), "[]");
    assert_eq!(json_text("{}"), "{}");
    assert_eq!(json_text("x\u{feff}"), "x\u{feff}");
    assert_eq!(json_text(""), "");
}

#[test]
fn game_app_is_found_by_id_or_location() {
    assert!(is_game_app("GranblueFantasyRelink", ""));
    assert!(is_game_app("relink", "D:\\Steam\\GRANBLUE FANTASY Relink\\granblue_fantasy_relink.exe"));
    assert!(!is_game_app("p5r", "C:\\Games\\P5R.exe"));
}

#[test]
fn find_game_takes_the_first_match() {
    let apps = vec![
        AppEntry { id: "sonic".to_string(), location: "C:\\sonic.exe".to_string() },
        AppEntry { id: "granblue".to_string(), location: "D:\\gbfr.exe".to_string() },
        AppEntry { id: "x".to_string(), location: "E:\\Granblue\\g.exe".to_string() },
    ];
    assert_eq!(find_game(&apps), "D:\\gbfr.exe");
    assert_eq!(find_game(&apps[..1]), "");
    assert_eq!(find_game(&[]), "");
}

#[test]
fn launcher_from_settings_wins() {
    assert_eq!(choose_launcher(Some("X:\\R\\Reloaded-II.exe".to_string()), &[true, true, true]), "X:\\R\\Reloaded-II.exe");
}

#[test]
fn launcher_falls_back_to_first_existing_candidate() {
    assert_eq!(choose_launcher(None, &[false, true, true]), launcher_candidates()[1]);
    assert_eq!(choose_launcher(Some(String::new()), &[true, false, false]), "F:\\Reloaded-II\\Reloaded-II.exe");
    assert_eq!(choose_launcher(None, &[false, false, false]), "");
    assert_eq!(choose_launcher(None, &[]), "");
}

#[test]
fn launch_args_only_with_a_known_game() {
    assert_eq!(launch_args("D:\\gbfr.exe", true), vec!["--launch".to_string(), "D:\\gbfr.exe".to_string()]);
    assert!(launch_args("D:\\gbfr.exe", false).is_empty());
    assert!(launch_args("", true).is_empty());
}

#[test]
fn mentions_game_is_a_plain_substring_test() {
    assert!(mentions_game("c:\\games\\granblue fantasy relink\\x.exe"));
    assert!(mentions_game("granblue"));
    assert!(!mentions_game("Granblue"));
    assert!(!mentions_game("granblu"));
}
