use gbfrer_summon_drop_picker::reloaded::{check_deps, ModsScan};
use gbfrer_summon_drop_picker::status::{
    apply_message, banner, finish_restore_message, launcher_known, restore_message, run_game_message, Banner,
};

#[test]
fn apply_messages() {
    assert_eq!(apply_message(&Ok(())), "Applied. Enable only this mod in Reloaded-II, then relaunch the game.");
    assert_eq!(
        apply_message(&Err("Access is denied.".to_string())),
        "Could not write tables: Access is denied.. Is the game running?"
    );
}

#[test]
fn restore_messages() {
    assert_eq!(restore_message(&Ok(())), "Vanilla restored. Click the green button to start the game and finish.");
    assert_eq!(restore_message(&Err("disk full".to_string())), "Could not write tables: disk full");
}

#[test]
fn finish_restore_messages() {
    assert!(finish_restore_message(&None).starts_with("Start the game yourself"));
    assert!(finish_restore_message(&Some(Ok(()))).starts_with("Game starting with vanilla data."));
    assert_eq!(
        finish_restore_message(&Some(Err("not found".to_string()))),
        "Could not start Reloaded-II: not found. Start the game yourself, then remove the mod."
    );
}

#[test]
fn run_game_messages() {
    assert_eq!(run_game_message(&Err("locked".to_string()), &None, true), "Could not write tables: locked");
    assert!(run_game_message(&Ok(()), &None, false).starts_with("Picks applied. Reloaded-II not found"));
    assert_eq!(run_game_message(&Ok(()), &Some(Ok(())), true), "Applied. Opened Reloaded-II, press Launch there.");
    assert_eq!(run_game_message(&Ok(()), &Some(Ok(())), false), "Applied, launching the game through Reloaded-II.");
    assert_eq!(
        run_game_message(&Ok(()), &Some(Err("bad exe".to_string())), false),
        "Applied, but could not start Reloaded-II: bad exe"
    );
}

#[test]
fn launcher_known_needs_a_path_that_exists() {
    assert!(launcher_known("C:\\R.exe", true));
    assert!(!launcher_known("C:\\R.exe", false));
    assert!(!launcher_known("", true));
}

#[test]
fn banner_states() {
    let (b, text) = banner(&check_deps(None));
    assert_eq!(b, Banner::Unlocated);
    assert_eq!(text, "Could not find Reloaded-II's Mods folder to check requirements.");

    let ok = check_deps(Some(ModsScan { core_installed: true, dependencies: vec![("d".to_string(), true)] }));
    let (b, text) = banner(&ok);
    assert_eq!(b, Banner::Ready);
    assert_eq!(text, "Loader ready, gbfrelink.utility.manager and its dependencies are installed.");

    let missing = check_deps(Some(ModsScan {
        core_installed: false,
        dependencies: vec![("a".to_string(), true), ("b".to_string(), false), ("c".to_string(), false)],
    }));
    let (b, text) = banner(&missing);
    assert_eq!(b, Banner::Missing);
    assert_eq!(text, "Missing: gbfrelink.utility.manager, b, c. Install it or the mod will not load.");
}
