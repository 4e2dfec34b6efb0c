use gbfrer_summon_drop_picker::data::summons;
use gbfrer_summon_drop_picker::patch::Pick;
use gbfrer_summon_drop_picker::settings::{restore_picks, saved_picks, SavedPick};

fn entry(summon: &str, skill: Option<&str>, bonus: Option<&str>, half_cap: bool) -> SavedPick {
    SavedPick {
        summon: summon.to_string(),
        skill: skill.map(|s| s.to_string()),
        bonus: bonus.map(|s| s.to_string()),
        half_cap,
    }
}

fn same(a: &[Pick], b: &[Pick]) -> bool {
    a.len() == b.len()
        && a.iter().zip(b).all(|(x, y)| x.skill == y.skill && x.bonus == y.bonus && x.half_cap == y.half_cap)
}

#[test]
fn saved_picks_name_everything() {
    let mut picks = vec![Pick::default(); 8];
    picks[6] = Pick { skill: 5, bonus: 4, half_cap: true };
    let saved = saved_picks(&picks);
    assert_eq!(saved.len(), 8);
    assert_eq!(saved[6].summon, "Rolan");
    assert_eq!(saved[6].skill.as_deref(), Some("Aegis"));
    assert_eq!(saved[6].bonus.as_deref(), Some("stun"));
    assert!(saved[6].half_cap);
    assert_eq!(saved[0].summon, "Behemoth III");
    assert_eq!(saved[0].skill.as_deref(), Some("Stout Heart"));
    assert_eq!(saved[0].bonus.as_deref(), Some("normatkcap"));
}

#[test]
fn save_then_restore_gives_the_picks_back() {
    let picks: Vec<Pick> = summons()
        .iter()
        .enumerate()
        .map(|(i, s)| Pick { skill: (i + 1) % s.skills.len(), bonus: (3 * i) % 11, half_cap: i % 3 == 0 })
        .collect();
    let saved = saved_picks(&picks);
    let mut back = vec![Pick::default(); 8];
    restore_picks(&mut back, &saved);
    assert!(same(&back, &picks));
}

#[test]
fn restore_matches_by_name_not_position() {
    let saved = vec![
        entry("Lilith", Some("Linked Together"), Some("crit"), true),
        entry("Wee Pincer III", Some("Cascade"), Some("hp"), false),
    ];
    let mut picks = vec![Pick::default(); 8];
    restore_picks(&mut picks, &saved);
    assert_eq!((picks[7].skill, picks[7].bonus, picks[7].half_cap), (4, 7, true));
    assert_eq!((picks[1].skill, picks[1].bonus, picks[1].half_cap), (2, 6, false));
    assert_eq!((picks[0].skill, picks[0].bonus), (0, 0));
}

#[test]
fn restore_skips_unknown_names() {
    let mut picks = vec![Pick::default(); 8];
    picks[2] = Pick { skill: 1, bonus: 9, half_cap: true };
    let saved = vec![
        entry("Bahamut", Some("Uplift"), Some("atk"), true),
        entry("", None, None, true),
        entry("Albacore III", Some("No Such Skill"), Some("nokey"), false),
    ];
    restore_picks(&mut picks, &saved);
    // the unknown summon changes nothing; the known one keeps skill and bonus, but takes the flag
    assert_eq!((picks[2].skill, picks[2].bonus, picks[2].half_cap), (1, 9, false));
    assert!(picks.iter().enumerate().all(|(i, p)| i == 2 || (p.skill, p.bonus, p.half_cap) == (0, 0, false)));
}

#[test]
fn restore_later_entry_wins() {
    let saved = vec![
        entry("Rolan", Some("Drain"), None, false),
        entry("Rolan", None, Some("skyart"), true),
    ];
    let mut picks = vec![Pick::default(); 8];
    restore_picks(&mut picks, &saved);
    assert_eq!((picks[6].skill, picks[6].bonus, picks[6].half_cap), (4, 9, true));
}

#[test]
fn saved_picks_cover_only_given_picks() {
    let picks = vec![Pick { skill: 1, bonus: 1, half_cap: false }; 3];
    assert_eq!(saved_picks(&picks).len(), 3);
    assert_eq!(saved_picks(&[]).len(), 0);
}
