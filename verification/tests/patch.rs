// The mod ships its base `summon_lot.tbl` as game data. These tests build a table with
// its layout and content: the 726 vanilla rows (each summon's skill pool, the two shared
// equip pools, the game's other pools) followed by the 88 rows of the eight per-summon
// equip pools, every row of a summon's pools rolling with a weight above 1.
use gbfrer_summon_drop_picker::data::{bonuses, summons, ASTRAL_CURVE_HALF, ASTRAL_CURVE_MAX};
use gbfrer_summon_drop_picker::hexid::hex;
use gbfrer_summon_drop_picker::patch::{patched_summon_lot, Pick};
use gbfrer_summon_drop_picker::table::{each_row_of, field, force, rows, set_curve, HEADER, ROW};

const NORMAL_CURVE: &str = "2E2C5483";
const SIGNATURE_CURVE: &str = "63E658AB";
const SKILL_CURVE: &str = "8E4A0E03";

fn row(b: &mut Vec<u8>, key: u32, id: u32, curve: u32, weight: i32) {
    b.extend_from_slice(&key.to_le_bytes());
    b.extend_from_slice(&id.to_le_bytes());
    b.extend_from_slice(&curve.to_le_bytes());
    b.extend_from_slice(&weight.to_le_bytes());
    b.extend_from_slice(&0u32.to_le_bytes());
}

fn table(body: Vec<u8>) -> Vec<u8> {
    let n = (body.len() / ROW) as i32;
    let mut b = Vec::new();
    b.extend_from_slice(&n.to_le_bytes());
    b.extend_from_slice(&0i32.to_le_bytes());
    b.extend_from_slice(&body);
    b
}

fn vanilla_rows() -> Vec<u8> {
    let mut body = Vec::new();
    for s in summons() {
        for (k, (_, id)) in s.skills.iter().enumerate() {
            let curve = if k == 0 && s.name != "Furycane Nihilla" { SIGNATURE_CURVE } else { SKILL_CURVE };
            row(&mut body, hex(s.skill_pool), hex(id), hex(curve), 1000);
        }
    }
    for b in bonuses() {
        row(&mut body, hex("439EA421"), hex(b.normal_id), hex(NORMAL_CURVE), 100);
    }
    for b in bonuses() {
        row(&mut body, hex("48727C41"), hex(b.astral_id), hex(ASTRAL_CURVE_MAX), 100);
    }
    let mut other = 0u32;
    while body.len() / ROW < 726 {
        row(&mut body, 0x1000_0000 + other / 7, 0x2000_0000 + other, hex(SKILL_CURVE), 50);
        other += 1;
    }
    body
}

fn base_summon_lot() -> Vec<u8> {
    let mut body = vanilla_rows();
    for s in summons() {
        for b in bonuses() {
            let (id, curve) = if s.astral { (b.astral_id, ASTRAL_CURVE_MAX) } else { (b.normal_id, NORMAL_CURVE) };
            row(&mut body, hex(s.equip_pool), hex(id), hex(curve), 100);
        }
    }
    table(body)
}

fn vanilla_summon_lot() -> Vec<u8> {
    table(vanilla_rows())
}

fn pool(b: &[u8], key: &str) -> Vec<(u32, u32, i32)> {
    each_row_of(b, key)
        .into_iter()
        .map(|off| {
            let w = i32::from_le_bytes([b[off + 12], b[off + 13], b[off + 14], b[off + 15]]);
            (field(b, off + 4), field(b, off + 8), w)
        })
        .collect()
}

fn kept(b: &[u8], key: &str) -> Vec<u32> {
    pool(b, key).iter().filter(|r| r.2 > 1).map(|r| r.0).collect()
}

fn index_of(name: &str) -> usize {
    summons().iter().position(|s| s.name == name).unwrap()
}

#[test]
fn base_table_shape() {
    let base = base_summon_lot();
    let expected = 726 + summons().len() * 11;
    assert_eq!(rows(&base), expected);
    assert_eq!(base.len(), HEADER + expected * ROW);
}

#[test]
fn vanilla_is_unmodified() {
    let lot = vanilla_summon_lot();
    assert_eq!(rows(&lot), 726);
}

#[test]
fn every_summon_has_its_pools_and_skills() {
    let base = base_summon_lot();
    for s in summons() {
        assert_eq!(pool(&base, s.equip_pool).len(), 11, "{}", s.name);
        let ids: Vec<u32> = pool(&base, s.skill_pool).iter().map(|r| r.0).collect();
        for (name, h) in s.skills {
            assert!(ids.contains(&hex(h)), "{} missing {}", s.name, name);
        }
    }
}

#[test]
fn forces_one_row_per_pool() {
    let base = base_summon_lot();
    let rolan = index_of("Rolan");
    let mut picks = vec![Pick::default(); summons().len()];
    picks[0] = Pick { skill: 3, bonus: 1, half_cap: false };
    picks[rolan] = Pick { skill: 5, bonus: 4, half_cap: false };
    let lot = patched_summon_lot(&base, &picks);

    assert_eq!(kept(&lot, "DF902143"), vec![hex("73220725")]);
    assert_eq!(kept(&lot, "393EF1D8"), vec![hex("2FFB509F")]);
    assert_eq!(kept(&lot, "26428274"), vec![hex("E0ABFDFE")]);
    assert_eq!(kept(&lot, "A35D7A5C"), vec![hex("F0F77BC1")]);
}

#[test]
fn half_cap_only_moves_that_summon() {
    let base = base_summon_lot();
    let mut picks = vec![Pick::default(); summons().len()];
    picks[index_of("Lucilius")].half_cap = true;
    let lot = patched_summon_lot(&base, &picks);

    assert!(pool(&lot, "F63793E4").iter().all(|r| r.1 == hex(ASTRAL_CURVE_HALF)));
    assert!(pool(&lot, "B7D9379B").iter().all(|r| r.1 == hex(ASTRAL_CURVE_MAX)));
    assert!(pool(&lot, "393EF1D8").iter().all(|r| r.1 == hex("2E2C5483")));
}

#[test]
fn patch_keeps_shape_and_other_rows() {
    let base = base_summon_lot();
    let picks = vec![Pick { skill: 1, bonus: 2, half_cap: true }; summons().len()];
    let lot = patched_summon_lot(&base, &picks);
    assert_eq!(lot.len(), base.len());
    assert_eq!(&lot[..HEADER], &base[..HEADER]);
    // the vanilla rows outside the summons' pools are untouched
    for r in 0..726 {
        let off = HEADER + r * ROW;
        let key = field(&base, off);
        let in_summon_pool = summons().iter().any(|s| hex(s.skill_pool) == key || hex(s.equip_pool) == key);
        if !in_summon_pool {
            assert_eq!(&lot[off..off + ROW], &base[off..off + ROW]);
        }
    }
    // the shared equip pools the split replaced are untouched
    assert_eq!(pool(&lot, "439EA421"), pool(&base, "439EA421"));
    assert_eq!(pool(&lot, "48727C41"), pool(&base, "48727C41"));
}

#[test]
fn every_summon_is_forced_at_once() {
    let base = base_summon_lot();
    let picks: Vec<Pick> = summons()
        .iter()
        .enumerate()
        .map(|(i, s)| Pick { skill: s.skills.len() - 1, bonus: i % 11, half_cap: i % 2 == 0 })
        .collect();
    let lot = patched_summon_lot(&base, &picks);
    for (i, s) in summons().iter().enumerate() {
        let p = picks[i];
        assert_eq!(kept(&lot, s.skill_pool), vec![hex(s.skills[p.skill].1)], "{}", s.name);
        assert_eq!(kept(&lot, s.equip_pool), vec![hex(bonuses()[p.bonus].id(s.astral))], "{}", s.name);
        let expected_curve = if !s.astral {
            hex(NORMAL_CURVE)
        } else if p.half_cap {
            hex(ASTRAL_CURVE_HALF)
        } else {
            hex(ASTRAL_CURVE_MAX)
        };
        assert!(pool(&lot, s.equip_pool).iter().all(|r| r.1 == expected_curve), "{}", s.name);
        // the kept row keeps its own weight; the rest drop to 1
        assert!(pool(&lot, s.skill_pool).iter().all(|r| r.2 == 1 || r.2 == 1000));
        assert!(pool(&lot, s.equip_pool).iter().all(|r| r.2 == 1 || r.2 == 100));
    }
}

#[test]
fn repatching_the_base_does_not_compound() {
    let base = base_summon_lot();
    let mut first = vec![Pick::default(); summons().len()];
    first[2] = Pick { skill: 2, bonus: 7, half_cap: false };
    let mut second = vec![Pick::default(); summons().len()];
    second[2] = Pick { skill: 1, bonus: 3, half_cap: false };
    let _ = patched_summon_lot(&base, &first);
    let again = patched_summon_lot(&base, &second);
    assert_eq!(again, patched_summon_lot(&base, &second));
    assert_eq!(kept(&again, "1250EFD2"), vec![hex("5E422AE5")]);
    assert_eq!(kept(&again, "E31F7BAD"), vec![hex("2270BC40")]);
}

#[test]
fn fewer_picks_than_summons_leave_the_rest() {
    let base = base_summon_lot();
    let picks = vec![Pick { skill: 2, bonus: 5, half_cap: false }];
    let lot = patched_summon_lot(&base, &picks);
    assert_eq!(kept(&lot, "DF902143"), vec![hex("B5FF9FD3")]);
    assert_eq!(kept(&lot, "393EF1D8"), vec![hex("A8900C80")]);
    assert_eq!(pool(&lot, "2340DCED"), pool(&base, "2340DCED"));
    assert_eq!(pool(&lot, "C39F7144"), pool(&base, "C39F7144"));
}

#[test]
fn no_picks_gives_the_base_back() {
    let base = base_summon_lot();
    assert_eq!(patched_summon_lot(&base, &[]), base);
    assert_eq!(patched_summon_lot(&[], &[]), Vec::<u8>::new());
}

#[test]
fn force_rewrites_only_weights_of_other_rows() {
    let mut body = Vec::new();
    row(&mut body, 7, 1, 9, 40);
    row(&mut body, 7, 2, 9, 50);
    row(&mut body, 8, 1, 9, 60);
    row(&mut body, 7, 3, 9, -5);
    let mut b = table(body);
    let before = b.clone();
    force(&mut b, "7", "2");
    assert_eq!(pool(&b, "7"), vec![(1, 9, 1), (2, 9, 50), (3, 9, 1)]);
    assert_eq!(pool(&b, "8"), vec![(1, 9, 60)]);
    assert_eq!(b.len(), before.len());
    assert_eq!(&b[..HEADER], &before[..HEADER]);
}

#[test]
fn force_with_unknown_keep_flattens_the_pool() {
    let mut body = Vec::new();
    row(&mut body, 7, 1, 9, 40);
    row(&mut body, 7, 2, 9, 50);
    let mut b = table(body);
    force(&mut b, "7", "not hex");
    assert_eq!(pool(&b, "7"), vec![(1, 9, 1), (2, 9, 1)]);
}

#[test]
fn set_curve_writes_the_curve_little_endian() {
    let mut body = Vec::new();
    row(&mut body, 7, 1, 9, 40);
    row(&mut body, 8, 1, 9, 40);
    let mut b = table(body);
    set_curve(&mut b, "7", "5A370B86");
    assert_eq!(&b[HEADER + 8..HEADER + 12], &[0x86, 0x0B, 0x37, 0x5A]);
    assert_eq!(pool(&b, "7"), vec![(1, 0x5A37_0B86, 40)]);
    assert_eq!(pool(&b, "8"), vec![(1, 9, 40)]);
}

#[test]
fn rows_past_the_end_are_ignored() {
    let mut body = Vec::new();
    row(&mut body, 7, 1, 9, 40);
    let mut b = table(body);
    b[0] = 5; // the header claims five rows, one is there
    b.extend_from_slice(&[7, 0, 0, 0, 1]); // and a truncated sixth
    assert_eq!(each_row_of(&b, "7"), vec![HEADER]);
    let mut c = b.clone();
    force(&mut c, "7", "2");
    assert_eq!(pool(&c, "7"), vec![(1, 9, 1)]);
    assert_eq!(&c[HEADER + ROW..], &b[HEADER + ROW..]);
}

#[test]
fn header_row_count_limits_the_rows() {
    let mut body = Vec::new();
    row(&mut body, 7, 1, 9, 40);
    row(&mut body, 7, 2, 9, 40);
    let mut b = table(body);
    b[0] = 1;
    assert_eq!(rows(&b), 1);
    assert_eq!(each_row_of(&b, "7"), vec![HEADER]);
}

#[test]
fn negative_row_count_reads_as_huge() {
    let mut body = Vec::new();
    row(&mut body, 7, 1, 9, 40);
    let mut b = table(body);
    b[0..4].copy_from_slice(&(-1i32).to_le_bytes());
    assert_eq!(rows(&b), -1i32 as usize);
    assert_eq!(each_row_of(&b, "7"), vec![HEADER]);
}

#[test]
fn field_reads_little_endian() {
    let b = [0x43, 0x21, 0x90, 0xDF, 0xFF];
    assert_eq!(field(&b, 0), 0xDF90_2143);
    assert_eq!(rows(&[0x2E, 0x03, 0, 0]), 814);
}

#[test]
fn one_summons_pick_touches_only_its_rows() {
    let base = base_summon_lot();
    let picks = vec![Pick::default(); 8];
    let mut other = picks.clone();
    other[5] = Pick { skill: 3, bonus: 9, half_cap: true };
    let a = patched_summon_lot(&base, &picks);
    let b = patched_summon_lot(&base, &other);
    let s = &summons()[5];
    for k in 0..base.len() {
        if a[k] != b[k] {
            assert!(k >= HEADER);
            let off = HEADER + (k - HEADER) / ROW * ROW;
            let key = field(&base, off);
            assert!(key == hex(s.skill_pool) || key == hex(s.equip_pool));
        }
    }
    assert_ne!(a, b);
}

#[test]
fn picks_beyond_the_catalogue_are_ignored() {
    let base = base_summon_lot();
    let picks = vec![Pick { skill: 1, bonus: 1, half_cap: true }; 8];
    let mut longer = picks.clone();
    longer.push(Pick { skill: 99, bonus: 99, half_cap: false });
    assert_eq!(patched_summon_lot(&base, &longer), patched_summon_lot(&base, &picks));
}
