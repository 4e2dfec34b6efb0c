//! Saving the picks by name and reading them back, so that a change to the catalogue's
//! order does not scramble a saved choice.
use vstd::prelude::*;

use crate::data::{
    bonus_catalog, bonus_keys, bonuses, lemma_catalog_names_unique, lemma_catalog_sizes, skill_names, summon_catalog,
    summon_names, summons, unique_names, Bonus, Summon,
};
use crate::json::{array_member, bool_member, member_array, member_bool, member_str, string_member};
use crate::patch::{covered, picks_in_range, Pick};
use crate::reloaded::text_or_empty;
use crate::text::{
    first_match, lemma_first_match_found, lemma_first_match_is_first, lemma_first_match_none, opt_text,
    str_eq,
};

verus! {

/// One summon's entry in the settings file: the summon's name, and where present the
/// skill's name, the bonus's key and the half-cap flag (absent reads as `false`).
pub struct SavedPick {
    pub summon: String,
    pub skill: Option<String>,
    pub bonus: Option<String>,
    pub half_cap: bool,
}

/// A saved entry as text.
pub struct SavedPickView {
    pub summon: Seq<char>,
    pub skill: Option<Seq<char>>,
    pub bonus: Option<Seq<char>>,
    pub half_cap: bool,
}

impl View for SavedPick {
    type V = SavedPickView;

    open spec fn view(&self) -> SavedPickView {
        SavedPickView {
            summon: self.summon@,
            skill: opt_text(self.skill),
            bonus: opt_text(self.bonus),
            half_cap: self.half_cap,
        }
    }
}

/// The index a saved name selects: the first entry of `names` with that name, or
/// `current` where the name is absent or unknown.
pub open spec fn selected_index(names: Seq<Seq<char>>, name: Option<Seq<char>>, current: usize) -> usize {
    match name {
        Some(n) => match first_match(names, n) {
            Some(k) => k as usize,
            None => current,
        },
        None => current,
    }
}

/// The picks after reading one saved entry: an entry naming no known summon changes
/// nothing; otherwise that summon's skill and bonus follow the saved names where they are
/// known, and its half-cap flag takes the saved value.
#[verifier::opaque]
pub open spec fn apply_saved(picks: Seq<Pick>, e: SavedPickView) -> Seq<Pick> {
    match first_match(summon_names(), e.summon) {
        None => picks,
        Some(i) => picks.update(
            i,
            Pick {
                skill: selected_index(skill_names(summon_catalog()[i]), e.skill, picks[i].skill),
                bonus: selected_index(bonus_keys(), e.bonus, picks[i].bonus),
                half_cap: e.half_cap,
            },
        ),
    }
}

/// The picks after reading the saved entries in order; a later entry for the same
/// summon wins.
pub open spec fn restored(picks: Seq<Pick>, saved: Seq<SavedPickView>) -> Seq<Pick>
    decreases saved.len(),
{
    if saved.len() == 0 {
        picks
    } else {
        apply_saved(restored(picks, saved.drop_last()), saved.last())
    }
}

/// The index of the summon called `name`.
fn find_summon(catalog: &[Summon], name: &str) -> (r: Option<usize>)
    requires
        catalog@.map_values(|x: Summon| x@) == summon_catalog(),
    ensures
        match r {
            Some(k) => first_match(summon_names(), name@) == Some(k as int),
            None => first_match(summon_names(), name@) is None,
        },
        r matches Some(k) ==> k < catalog@.len(),
{
    let ghost names = summon_names();
    let mut k: usize = 0;
    while k < catalog.len()
        invariant
            catalog@.map_values(|x: Summon| x@) == summon_catalog(),
            names == summon_names(),
            names.len() == catalog@.len(),
            k <= catalog.len(),
            forall|j: int| 0 <= j < k ==> names[j] != name@,
        decreases catalog.len() - k,
    {
        proof {
            assert(catalog@[k as int]@ == summon_catalog()[k as int]);
            assert(names[k as int] == catalog@[k as int].name@);
        }
        if str_eq(catalog[k].name, name) {
            proof {
                lemma_first_match_found(names, name@, k as int);
            }
            return Some(k);
        }
        k = k + 1;
    }
    proof {
        lemma_first_match_none(names, name@);
    }
    None
}

/// The index of the skill called `name` among `skills`.
fn find_skill(skills: &[(&'static str, &'static str)], name: &str) -> (r: Option<usize>)
    ensures
        match r {
            Some(k) => first_match(
                skills@.map_values(|p: (&'static str, &'static str)| p.0@),
                name@,
            ) == Some(k as int),
            None => first_match(
                skills@.map_values(|p: (&'static str, &'static str)| p.0@),
                name@,
            ) is None,
        },
        r matches Some(k) ==> k < skills@.len(),
{
    let ghost names = skills@.map_values(|p: (&'static str, &'static str)| p.0@);
    let mut k: usize = 0;
    while k < skills.len()
        invariant
            names == skills@.map_values(|p: (&'static str, &'static str)| p.0@),
            k <= skills.len(),
            forall|j: int| 0 <= j < k ==> names[j] != name@,
        decreases skills.len() - k,
    {
        if str_eq(skills[k].0, name) {
            proof {
                lemma_first_match_found(names, name@, k as int);
            }
            return Some(k);
        }
        k = k + 1;
    }
    proof {
        lemma_first_match_none(names, name@);
    }
    None
}

/// The index of the bonus keyed `key`.
fn find_bonus(list: &[Bonus], key: &str) -> (r: Option<usize>)
    requires
        list@.map_values(|b: Bonus| b@) == bonus_catalog(),
    ensures
        match r {
            Some(k) => first_match(bonus_keys(), key@) == Some(k as int),
            None => first_match(bonus_keys(), key@) is None,
        },
        r matches Some(k) ==> k < list@.len(),
{
    let ghost names = bonus_keys();
    let mut k: usize = 0;
    while k < list.len()
        invariant
            list@.map_values(|b: Bonus| b@) == bonus_catalog(),
            names == bonus_keys(),
            names.len() == list@.len(),
            k <= list.len(),
            forall|j: int| 0 <= j < k ==> names[j] != key@,
        decreases list.len() - k,
    {
        proof {
            assert(list@[k as int]@ == bonus_catalog()[k as int]);
            assert(names[k as int] == list@[k as int].key@);
        }
        if str_eq(list[k].key, key) {
            proof {
                lemma_first_match_found(names, key@, k as int);
            }
            return Some(k);
        }
        k = k + 1;
    }
    proof {
        lemma_first_match_none(names, key@);
    }
    None
}

/// Reads one saved entry into `picks`.
fn apply_entry(picks: &mut Vec<Pick>, e: &SavedPick, catalog: &[Summon], list: &[Bonus])
    requires
        catalog@.map_values(|x: Summon| x@) == summon_catalog(),
        list@.map_values(|b: Bonus| b@) == bonus_catalog(),
        old(picks)@.len() == summon_catalog().len(),
    ensures
        final(picks)@ == apply_saved(old(picks)@, e@),
        final(picks)@.len() == old(picks)@.len(),
{
    proof {
        reveal(apply_saved);
        lemma_first_match_is_first(summon_names(), e.summon@);
    }
    match find_summon(catalog, e.summon.as_str()) {
        None => {},
        Some(i) => {
            proof {
                assert(catalog@.map_values(|x: Summon| x@)[i as int] == catalog@[i as int]@);
                assert(catalog@[i as int]@ == summon_catalog()[i as int]);
                assert(catalog@[i as int].skills@.map_values(|p: (&'static str, &'static str)| p.0@)
                    =~= skill_names(summon_catalog()[i as int]));
            }
            let mut p = picks[i];
            match &e.skill {
                Some(sk) => match find_skill(catalog[i].skills, sk.as_str()) {
                    Some(k) => {
                        p.skill = k;
                    },
                    None => {},
                },
                None => {},
            }
            match &e.bonus {
                Some(bk) => match find_bonus(list, bk.as_str()) {
                    Some(k) => {
                        p.bonus = k;
                    },
                    None => {},
                },
                None => {},
            }
            p.half_cap = e.half_cap;
            picks.set(i, p);
        },
    }
}

/// Reads the saved entries into `picks`, matching summons, skills and bonuses by name.
pub fn restore_picks(picks: &mut Vec<Pick>, saved: &[SavedPick])
    requires
        old(picks)@.len() == summon_catalog().len(),
    ensures
        final(picks)@ == restored(old(picks)@, saved@.map_values(|e: SavedPick| e@)),
{
    let catalog = summons();
    let list = bonuses();
    let ghost start = picks@;
    let ghost views = saved@.map_values(|e: SavedPick| e@);
    let mut n: usize = 0;
    while n < saved.len()
        invariant
            catalog@.map_values(|x: Summon| x@) == summon_catalog(),
            list@.map_values(|b: Bonus| b@) == bonus_catalog(),
            views == saved@.map_values(|e: SavedPick| e@),
            n <= saved.len(),
            picks@.len() == summon_catalog().len(),
            picks@ == restored(start, views.take(n as int)),
        decreases saved.len() - n,
    {
        proof {
            assert(views.take(n + 1).drop_last() =~= views.take(n as int));
            assert(views.take(n + 1).last() == saved@[n as int]@);
        }
        apply_entry(picks, &saved[n], catalog, list);
        n = n + 1;
    }
    proof {
        assert(views.take(saved@.len() as int) =~= views);
    }
}

/// The entry recorded for summon `i` picked as `p`.
pub open spec fn saved_entry(i: int, p: Pick) -> SavedPickView {
    SavedPickView {
        summon: summon_catalog()[i].name,
        skill: Some(summon_catalog()[i].skills[p.skill as int].0),
        bonus: Some(bonus_catalog()[p.bonus as int].key),
        half_cap: p.half_cap,
    }
}

/// The entries recorded for the covered picks, in catalogue order.
pub open spec fn saved_entries(picks: Seq<Pick>) -> Seq<SavedPickView> {
    Seq::new(covered(picks), |i: int| saved_entry(i, picks[i]))
}

/// The entries the settings file records for the picks: each covered summon's name, the
/// name of its picked skill, the key of its picked bonus and its half-cap flag.
pub fn saved_picks(picks: &[Pick]) -> (saved: Vec<SavedPick>)
    requires
        picks_in_range(picks@),
    ensures
        saved@.map_values(|e: SavedPick| e@) == saved_entries(picks@),
{
    let catalog = summons();
    let list = bonuses();
    let n = if picks.len() < catalog.len() {
        picks.len()
    } else {
        catalog.len()
    };
    let mut saved: Vec<SavedPick> = Vec::new();
    let mut i: usize = 0;
    while i < n
        invariant
            catalog@.map_values(|x: Summon| x@) == summon_catalog(),
            list@.map_values(|b: Bonus| b@) == bonus_catalog(),
            n == covered(picks@),
            picks_in_range(picks@),
            i <= n,
            saved@.len() == i,
            forall|j: int|
                #![trigger saved@[j]]
                0 <= j < i ==> saved@[j]@ == (SavedPickView {
                    summon: summon_catalog()[j].name,
                    skill: Some(summon_catalog()[j].skills[picks@[j].skill as int].0),
                    bonus: Some(bonus_catalog()[picks@[j].bonus as int].key),
                    half_cap: picks@[j].half_cap,
                }),
        decreases n - i,
    {
        let s = &catalog[i];
        let p = picks[i];
        proof {
            assert(s@ == summon_catalog()[i as int]);
            assert(list@[p.bonus as int]@ == bonus_catalog()[p.bonus as int]);
        }
        let entry = SavedPick {
            summon: s.name.to_owned(),
            skill: Some(s.skills[p.skill].0.to_owned()),
            bonus: Some(list[p.bonus].key.to_owned()),
            half_cap: p.half_cap,
        };
        saved.push(entry);
        i = i + 1;
    }
    proof {
        assert(saved@.map_values(|e: SavedPick| e@) =~= saved_entries(picks@));
    }
    saved
}

/// Reading back the first `n` recorded entries restores the first `n` picks.
proof fn lemma_restore_prefix(start: Seq<Pick>, picks: Seq<Pick>, n: int)
    requires
        start.len() == summon_catalog().len(),
        picks_in_range(picks),
        0 <= n <= covered(picks),
    ensures
        restored(start, saved_entries(picks).take(n)) == Seq::new(
            start.len(),
            |i: int|
                if i < n {
                    picks[i]
                } else {
                    start[i]
                },
        ),
    decreases n,
{
    let entries = saved_entries(picks);
    if n == 0 {
        assert(entries.take(0) =~= Seq::<SavedPickView>::empty());
        assert(start =~= Seq::new(start.len(), |i: int| if i < 0 { picks[i] } else { start[i] }));
    } else {
        let m = n - 1;
        lemma_restore_prefix(start, picks, m);
        assert(entries.take(n).drop_last() =~= entries.take(m));
        let prev = restored(start, entries.take(m));
        let e = entries[m];
        assert(entries.take(n).last() == e);
        lemma_catalog_names_unique();
        let s = summon_catalog()[m];
        let p = picks[m];
        assert(p.skill < s.skills.len() && p.bonus < bonus_catalog().len());
        assert(summon_names()[m] == s.name);
        lemma_first_match_found(summon_names(), e.summon, m);
        assert(skill_names(s)[p.skill as int] == s.skills[p.skill as int].0);
        assert(unique_names(skill_names(s)));
        lemma_first_match_found(skill_names(s), s.skills[p.skill as int].0, p.skill as int);
        assert(bonus_keys()[p.bonus as int] == bonus_catalog()[p.bonus as int].key);
        lemma_first_match_found(bonus_keys(), bonus_catalog()[p.bonus as int].key, p.bonus as int);
        reveal(apply_saved);
        assert(apply_saved(prev, e) =~= Seq::new(
            start.len(),
            |i: int|
                if i < n {
                    picks[i]
                } else {
                    start[i]
                },
        ));
    }
}

/// Saving the picks and reading them back gives the same picks: every covered summon
/// gets its saved pick and the others keep what they had.
pub proof fn lemma_save_restore_roundtrip(start: Seq<Pick>, picks: Seq<Pick>)
    requires
        start.len() == summon_catalog().len(),
        picks_in_range(picks),
    ensures
        restored(start, saved_entries(picks)) == Seq::new(
            start.len(),
            |i: int|
                if i < covered(picks) {
                    picks[i]
                } else {
                    start[i]
                },
        ),
{
    lemma_restore_prefix(start, picks, covered(picks) as int);
    assert(saved_entries(picks).take(covered(picks) as int) =~= saved_entries(picks));
}

/// A saved entry as the settings file holds it: the summon's name (the empty text where
/// missing), the skill's and bonus's names where present, and the half-cap flag (false
/// where missing or not a boolean).
pub open spec fn saved_pick_view(e: serde_json::Value) -> SavedPickView {
    SavedPickView {
        summon: text_or_empty(member_str(e, "summon"@)),
        skill: member_str(e, "skill"@),
        bonus: member_str(e, "bonus"@),
        half_cap: match member_bool(e, "half_cap"@) {
            Some(b) => b,
            None => false,
        },
    }
}

/// One entry of the settings file's `picks` array.
pub fn saved_pick(e: &serde_json::Value) -> (r: SavedPick)
    ensures
        r@ == saved_pick_view(*e),
{
    let summon = match string_member(e, "summon") {
        Some(s) => s,
        None => String::new(),
    };
    let half_cap = match bool_member(e, "half_cap") {
        Some(b) => b,
        None => false,
    };
    SavedPick { summon, skill: string_member(e, "skill"), bonus: string_member(e, "bonus"), half_cap }
}

/// The entries of an array of saved picks.
pub fn saved_pick_list(items: &Vec<serde_json::Value>) -> (r: Vec<SavedPick>)
    ensures
        r@.map_values(|e: SavedPick| e@) == items@.map_values(|e: serde_json::Value| saved_pick_view(e)),
{
    let mut out: Vec<SavedPick> = Vec::new();
    let mut k: usize = 0;
    while k < items.len()
        invariant
            k <= items.len(),
            out@.map_values(|e: SavedPick| e@) == items@.take(k as int).map_values(
                |e: serde_json::Value| saved_pick_view(e),
            ),
        decreases items.len() - k,
    {
        let e = saved_pick(&items[k]);
        let ghost before = out@;
        out.push(e);
        proof {
            assert(items@.take(k + 1) =~= items@.take(k as int).push(items@[k as int]));
            assert(out@ == before.push(e));
            assert(out@.map_values(|e: SavedPick| e@) =~= before.map_values(|e: SavedPick| e@).push(
                saved_pick_view(items@[k as int]),
            ));
            assert(out@.map_values(|e: SavedPick| e@) =~= items@.take(k + 1).map_values(
                |e: serde_json::Value| saved_pick_view(e),
            ));
        }
        k = k + 1;
    }
    proof {
        assert(items@.take(items@.len() as int) =~= items@);
    }
    out
}

/// The path the picker uses: the saved one where it is set and not empty, otherwise
/// the detected one.
pub open spec fn chosen(saved: Option<Seq<char>>, detected: Seq<char>) -> Seq<char> {
    match saved {
        Some(s) if s.len() > 0 => s,
        _ => detected,
    }
}

/// Chooses between a saved path and a detected one.
pub fn chosen_path(saved: Option<String>, detected: String) -> (p: String)
    ensures
        p@ == chosen(opt_text(saved), detected@),
{
    match saved {
        Some(s) => {
            if s.as_str().is_empty() {
                detected
            } else {
                s
            }
        },
        None => detected,
    }
}

/// Every summon at its first skill and first bonus, uncapped.
pub open spec fn default_picks() -> Seq<Pick> {
    Seq::new(summon_catalog().len(), |i: int| Pick { skill: 0, bonus: 0, half_cap: false })
}

/// The saved path `key` of a settings value, if any.
pub open spec fn saved_text(settings: Option<serde_json::Value>, key: Seq<char>) -> Option<Seq<char>> {
    match settings {
        Some(v) => member_str(v, key),
        None => None,
    }
}

/// The picks the picker starts with: the defaults, with the saved entries read in
/// where the settings hold a `picks` array.
pub open spec fn startup_picks(settings: Option<serde_json::Value>) -> Seq<Pick> {
    match settings {
        Some(v) => match member_array(v, "picks"@) {
            Some(items) => restored(
                default_picks(),
                items.map_values(|e: serde_json::Value| saved_pick_view(e)),
            ),
            None => default_picks(),
        },
        None => default_picks(),
    }
}

/// What the picker starts with.
pub struct Startup {
    pub picks: Vec<Pick>,
    pub reloaded_path: String,
    pub game_path: String,
}

/// The picker's starting state from its settings file (`None` where it is missing,
/// unreadable or not JSON) and the detected Reloaded-II and game paths: saved non-empty
/// paths win over detected ones, and saved picks are read in by name over the defaults.
pub fn startup(settings: Option<serde_json::Value>, detected_launcher: String, detected_game: String) -> (s: Startup)
    ensures
        s.picks@ == startup_picks(settings),
        s.reloaded_path@ == chosen(saved_text(settings, "reloaded_path"@), detected_launcher@),
        s.game_path@ == chosen(saved_text(settings, "game_path"@), detected_game@),
{
    let n = summons().len();
    proof {
        lemma_catalog_sizes();
    }
    let mut picks: Vec<Pick> = Vec::new();
    let mut i: usize = 0;
    while i < n
        invariant
            n == summon_catalog().len(),
            i <= n,
            picks@ == default_picks().take(i as int),
        decreases n - i,
    {
        picks.push(Pick::default());
        proof {
            assert(picks@ =~= default_picks().take(i + 1));
        }
        i = i + 1;
    }
    assert(picks@ =~= default_picks());
    match &settings {
        Some(v) => {
            let reloaded_path = chosen_path(string_member(v, "reloaded_path"), detected_launcher);
            let game_path = chosen_path(string_member(v, "game_path"), detected_game);
            match array_member(v, "picks") {
                Some(items) => {
                    let saved = saved_pick_list(items);
                    restore_picks(&mut picks, saved.as_slice());
                },
                None => {},
            }
            Startup { picks, reloaded_path, game_path }
        },
        None => Startup { picks, reloaded_path: detected_launcher, game_path: detected_game },
    }
}

/// A saved path that is set and not empty is the one used, whatever was detected (the
/// empty text included); only an absent or empty saved path gives the detected one.
pub proof fn lemma_saved_path_wins(saved: Option<Seq<char>>, detected: Seq<char>)
    ensures
        saved is Some && saved.unwrap().len() > 0 ==> chosen(saved, detected) == saved.unwrap(),
        !(saved is Some && saved.unwrap().len() > 0) ==> chosen(saved, detected) == detected,
        chosen(saved, detected).len() == 0 ==> detected.len() == 0,
{
}

} // verus!
