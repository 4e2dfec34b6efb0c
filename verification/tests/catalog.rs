use gbfrer_summon_drop_picker::data::{bonuses, summons, ASTRAL_CURVE_HALF, ASTRAL_CURVE_MAX};
use gbfrer_summon_drop_picker::hexid::hex;
use gbfrer_summon_drop_picker::patch::Pick;

#[test]
fn catalogue_sizes() {
    assert_eq!(summons().len(), 8);
    assert_eq!(bonuses().len(), 11);
    let astral: Vec<&str> = summons().iter().filter(|s| s.astral).map(|s| s.name).collect();
    assert_eq!(astral, vec!["Lucilius", "Beelzebub", "Rolan", "Lilith"]);
}

#[test]
fn bonus_id_follows_the_tier() {
    let stun = &bonuses()[4];
    assert_eq!(stun.key, "stun");
    assert_eq!(stun.id(false), "F7B0316F");
    assert_eq!(stun.id(true), "F0F77BC1");
}

#[test]
fn bonus_max_is_astral_only_uncapped() {
    let heal = &bonuses()[3];
    assert_eq!(heal.max(true, false), "75%");
    assert_eq!(heal.max(true, true), "50%");
    assert_eq!(heal.max(false, false), "50%");
    assert_eq!(heal.max(false, true), "50%");
    assert_eq!(bonuses()[5].max(true, false), "+3000");
}

#[test]
fn pools_are_all_distinct() {
    let mut ids: Vec<u32> = Vec::new();
    for s in summons() {
        ids.push(hex(s.skill_pool));
        ids.push(hex(s.equip_pool));
    }
    let mut sorted = ids.clone();
    sorted.sort();
    sorted.dedup();
    assert_eq!(sorted.len(), ids.len());
}

#[test]
fn hex_parses_ids() {
    assert_eq!(hex("DF902143"), 0xDF90_2143);
    assert_eq!(hex("df902143"), 0xDF90_2143);
    assert_eq!(hex("+1f"), 0x1F);
    assert_eq!(hex(ASTRAL_CURVE_MAX), 0x4E54_7493);
    assert_eq!(hex(ASTRAL_CURVE_HALF), 0x5A37_0B86);
}

#[test]
fn hex_rejects_what_is_not_hex() {
    assert_eq!(hex(""), 0);
    assert_eq!(hex("+"), 0);
    assert_eq!(hex("-1"), 0);
    assert_eq!(hex("12G4"), 0);
    assert_eq!(hex(" 12"), 0);
    assert_eq!(hex("100000000"), 0);
    assert_eq!(hex("FFFFFFFF"), u32::MAX);
}

#[test]
fn default_pick_is_first_skill_first_bonus_full_cap() {
    let p = Pick::default();
    assert_eq!((p.skill, p.bonus, p.half_cap), (0, 0, false));
}

#[test]
fn hex_reads_back_formatted_ids() {
    for x in [0u32, 1, 0x439E_A421, 0xDEAD_BEEF, u32::MAX, 0x0000_00FF] {
        assert_eq!(hex(&format!("{:08X}", x)), x);
        assert_eq!(hex(&format!("{:08x}", x)), x);
        assert_eq!(hex(&format!("{:x}", x)), x);
    }
    assert_eq!(hex("439EA421"), 0x439E_A421);
}
