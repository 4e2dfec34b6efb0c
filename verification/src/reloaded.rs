//! What the picker reads of Reloaded-II's configuration: whether the loader's
//! requirements are installed, where Reloaded-II and the game are, and how to launch.
use vstd::prelude::*;

use crate::json::{array_member, member_array, member_str, string_items, string_member, strings_of};
use crate::text::opt_text;

verus! {

/// The mod that this one depends on; its own dependencies are checked too.
pub const CORE_MOD: &'static str = "gbfrelink.utility.manager";

/// Whether the requirements are installed: `items` lists each required mod (the core
/// mod first, then the dependencies its manifest declares) with whether it was found,
/// `located` says whether Reloaded-II's Mods folder was found at all, and `ok` that
/// every listed mod was found.
pub struct DepReport {
    pub ok: bool,
    pub located: bool,
    pub items: Vec<(String, bool)>,
}

/// What a look into Reloaded-II's Mods folder found: whether the core mod is installed,
/// and each dependency named in the core mod's manifest with whether it is installed
/// (none where the manifest could not be read).
pub struct ModsScan {
    pub core_installed: bool,
    pub dependencies: Vec<(String, bool)>,
}

/// A list of named flags as text.
pub open spec fn flags_view(items: Seq<(String, bool)>) -> Seq<(Seq<char>, bool)> {
    items.map_values(|x: (String, bool)| (x.0@, x.1))
}

/// Every flag is set.
pub open spec fn all_set(items: Seq<(Seq<char>, bool)>) -> bool {
    forall|i: int| 0 <= i < items.len() ==> #[trigger] items[i].1
}

/// The items a report lists for a scan: the core mod, installed only where the Mods
/// folder was found and holds it, then the scanned dependencies.
pub open spec fn report_items(scan: Option<(bool, Seq<(Seq<char>, bool)>)>) -> Seq<(Seq<char>, bool)> {
    match scan {
        Some((core, deps)) => seq![(CORE_MOD@, core)] + deps,
        None => seq![(CORE_MOD@, false)],
    }
}

/// A scan as text.
pub open spec fn scan_view(scan: Option<ModsScan>) -> Option<(bool, Seq<(Seq<char>, bool)>)> {
    match scan {
        Some(m) => Some((m.core_installed, flags_view(m.dependencies@))),
        None => None,
    }
}

/// The requirement report for what was found in the Mods folder, or `None` where the
/// folder could not be located.
pub fn check_deps(scan: Option<ModsScan>) -> (report: DepReport)
    ensures
        report.located == scan.is_some(),
        flags_view(report.items@) == report_items(scan_view(scan)),
        report.ok == all_set(report_items(scan_view(scan))),
{
    let ghost want = report_items(scan_view(scan));
    let located = scan.is_some();
    let mut items: Vec<(String, bool)> = Vec::new();
    let mut rest: Vec<(String, bool)> = Vec::new();
    match scan {
        Some(m) => {
            items.push((CORE_MOD.to_owned(), m.core_installed));
            rest = m.dependencies;
        },
        None => {
            items.push((CORE_MOD.to_owned(), false));
        },
    }
    let ghost first = items@;
    let mut k: usize = 0;
    while k < rest.len()
        invariant
            k <= rest.len(),
            flags_view(items@) == flags_view(first) + flags_view(rest@).take(k as int),
        decreases rest.len() - k,
    {
        let name = rest[k].0.clone();
        let found = rest[k].1;
        let ghost before = items@;
        items.push((name, found));
        proof {
            assert(items@ == before.push((name, found)));
            assert(flags_view(rest@)[k as int] == (name@, found));
            assert(flags_view(items@) =~= flags_view(before).push((name@, found)));
            assert(flags_view(items@) =~= flags_view(first) + flags_view(rest@).take(k + 1));
        }
        k = k + 1;
    }
    proof {
        assert(flags_view(rest@).take(rest@.len() as int) =~= flags_view(rest@));
        assert(flags_view(items@) =~= want);
    }
    let mut ok = true;
    let mut i: usize = 0;
    while i < items.len()
        invariant
            i <= items.len(),
            flags_view(items@) == want,
            ok == forall|j: int| 0 <= j < i ==> #[trigger] want[j].1,
        decreases items.len() - i,
    {
        proof {
            assert(want[i as int] == flags_view(items@)[i as int]);
        }
        let ghost was = ok;
        if !items[i].1 {
            ok = false;
        }
        proof {
            if ok {
                assert forall|j: int| 0 <= j < i + 1 implies #[trigger] want[j].1 by {
                    if j < i {
                        assert(was);
                    }
                }
            } else {
                if was {
                    assert(!want[i as int].1);
                } else {
                    let j = choose|j: int| 0 <= j < i && !want[j].1;
                    assert(!want[j].1);
                }
            }
        }
        i = i + 1;
    }
    DepReport { ok, located, items }
}

/// The byte-order mark that .NET writes at the start of its JSON files.
pub const BOM: char = '\u{feff}';

/// `s` without the byte-order marks it starts with.
pub open spec fn without_leading_boms(s: Seq<char>) -> Seq<char>
    decreases s.len(),
{
    if s.len() > 0 && s[0] == BOM {
        without_leading_boms(s.drop_first())
    } else {
        s
    }
}

/// Calls `str::trim_start_matches` with the byte-order mark; std documents it as
/// removing every leading occurrence of the pattern, repeatedly.
#[verifier::external_body]
fn trim_leading_boms(s: &str) -> (r: &str)
    ensures
        r@ == without_leading_boms(s@),
{
    s.trim_start_matches(BOM)
}

/// The JSON text of a settings file as read from disk: Reloaded-II's files can start with
/// byte-order marks, which a JSON parser rejects, so they are dropped.
pub fn json_text(raw: &str) -> (text: &str)
    ensures
        text@ == without_leading_boms(raw@),
{
    trim_leading_boms(raw)
}

/// `needle` occurs in `hay`.
pub open spec fn has_substring(hay: Seq<char>, needle: Seq<char>) -> bool {
    exists|i: int| 0 <= i && i + needle.len() <= hay.len() && #[trigger] hay.subrange(i, i + needle.len()) == needle
}

/// The result of `str::to_lowercase`, which applies Unicode's lowercase mapping to each
/// character; it depends on the text alone.
pub uninterp spec fn lowercase(s: Seq<char>) -> Seq<char>;

/// Calls `str::to_lowercase`.
#[verifier::external_body]
fn to_lowercase(s: &str) -> (r: String)
    ensures
        r@ == lowercase(s@),
{
    s.to_lowercase()
}

/// Calls `str::contains` with a string pattern; std documents it as true exactly when
/// the pattern matches a sub-slice of the text.
#[verifier::external_body]
fn contains(hay: &str, needle: &str) -> (r: bool)
    ensures
        r == has_substring(hay@, needle@),
{
    hay.contains(needle)
}

/// The word that marks the game's application entry.
pub const GAME_MARKER: &'static str = "granblue";

/// An application registered in Reloaded-II: its id and the location of its executable.
pub struct AppEntry {
    pub id: String,
    pub location: String,
}

/// An application entry is the game's when its id or its location, lowercased,
/// contains the marker.
pub open spec fn is_game(id: Seq<char>, location: Seq<char>) -> bool {
    has_substring(lowercase(id), GAME_MARKER@) || has_substring(lowercase(location), GAME_MARKER@)
}

/// Whether lowercased text mentions the game.
pub fn mentions_game(lowered: &str) -> (r: bool)
    ensures
        r == has_substring(lowered@, GAME_MARKER@),
{
    contains(lowered, GAME_MARKER)
}

/// Whether an application entry is the game's.
pub fn is_game_app(id: &str, location: &str) -> (r: bool)
    ensures
        r == is_game(id@, location@),
{
    let id_lower = to_lowercase(id);
    if mentions_game(id_lower.as_str()) {
        return true;
    }
    let location_lower = to_lowercase(location);
    mentions_game(location_lower.as_str())
}

/// The location of the first application entry that is the game's, or the empty text.
pub open spec fn game_location(apps: Seq<(Seq<char>, Seq<char>)>) -> Seq<char>
    decreases apps.len(),
{
    if apps.len() == 0 {
        Seq::empty()
    } else if is_game(apps[0].0, apps[0].1) {
        apps[0].1
    } else {
        game_location(apps.drop_first())
    }
}

/// The entries as (id, location) text.
pub open spec fn apps_view(apps: Seq<AppEntry>) -> Seq<(Seq<char>, Seq<char>)> {
    apps.map_values(|a: AppEntry| (a.id@, a.location@))
}

/// The game's executable among the registered applications, in the order Reloaded-II
/// lists them; empty when none is the game.
pub fn find_game(apps: &[AppEntry]) -> (game: String)
    ensures
        game@ == game_location(apps_view(apps@)),
{
    let ghost all = apps_view(apps@);
    let mut k: usize = 0;
    assert(all.skip(0) =~= all);
    while k < apps.len()
        invariant
            all == apps_view(apps@),
            k <= apps.len(),
            game_location(all) == game_location(all.skip(k as int)),
        decreases apps.len() - k,
    {
        proof {
            assert(all.skip(k as int)[0] == all[k as int]);
            assert(all.skip(k as int).drop_first() =~= all.skip(k + 1));
        }
        if is_game_app(apps[k].id.as_str(), apps[k].location.as_str()) {
            return apps[k].location.clone();
        }
        k = k + 1;
    }
    String::new()
}

/// Where Reloaded-II is looked for when its settings do not say.
pub fn launcher_candidates() -> (c: &'static [&'static str])
    ensures
        c@.map_values(|p: &'static str| p@) == launcher_candidate_paths(),
{
    let c: &'static [&'static str] = &[
        "F:\\Reloaded-II\\Reloaded-II.exe",
        "C:\\Reloaded-II\\Reloaded-II.exe",
        "D:\\Reloaded-II\\Reloaded-II.exe",
    ];
    assert(c@.map_values(|p: &'static str| p@) =~= launcher_candidate_paths());
    c
}

/// The places Reloaded-II is looked for, in order.
pub open spec fn launcher_candidate_paths() -> Seq<Seq<char>> {
    seq![
        "F:\\Reloaded-II\\Reloaded-II.exe"@,
        "C:\\Reloaded-II\\Reloaded-II.exe"@,
        "D:\\Reloaded-II\\Reloaded-II.exe"@,
    ]
}

/// The first candidate that exists, from position `k` on, or the empty text.
pub open spec fn first_existing(exists: Seq<bool>, k: int) -> Seq<char>
    decreases exists.len() - k,
{
    if k >= exists.len() || k >= launcher_candidate_paths().len() {
        Seq::empty()
    } else if exists[k] {
        launcher_candidate_paths()[k]
    } else {
        first_existing(exists, k + 1)
    }
}

/// The Reloaded-II executable: the one its settings name where that is not empty,
/// otherwise the first candidate that exists, otherwise the empty text.
pub open spec fn chosen_launcher(configured: Option<Seq<char>>, exists: Seq<bool>) -> Seq<char> {
    match configured {
        Some(p) if p.len() > 0 => p,
        _ => first_existing(exists, 0),
    }
}

/// Picks the Reloaded-II executable; `candidate_exists[i]` says whether the `i`-th
/// of `launcher_candidates()` exists.
pub fn choose_launcher(configured: Option<String>, candidate_exists: &[bool]) -> (launcher: String)
    ensures
        launcher@ == chosen_launcher(opt_text(configured), candidate_exists@),
{
    let ghost conf = opt_text(configured);
    match configured {
        Some(p) => {
            if !p.as_str().is_empty() {
                return p;
            }
            assert(conf == Some(p@) && p@.len() == 0);
        },
        None => {},
    }
    assert(chosen_launcher(conf, candidate_exists@) == first_existing(candidate_exists@, 0));
    let candidates = launcher_candidates();
    let mut k: usize = 0;
    while k < candidate_exists.len() && k < candidates.len()
        invariant
            candidates@.map_values(|p: &'static str| p@) == launcher_candidate_paths(),
            conf == opt_text(configured),
            chosen_launcher(conf, candidate_exists@) == first_existing(candidate_exists@, 0),
            first_existing(candidate_exists@, 0) == first_existing(candidate_exists@, k as int),
        decreases candidates.len() - k,
    {
        if candidate_exists[k] {
            proof {
                assert(candidates@.map_values(|p: &'static str| p@)[k as int] == candidates@[k as int]@);
                assert(first_existing(candidate_exists@, k as int) == launcher_candidate_paths()[k as int]);
            }
            return candidates[k].to_owned();
        }
        k = k + 1;
    }
    proof {
        assert(first_existing(candidate_exists@, k as int) == Seq::<char>::empty());
    }
    String::new()
}

/// The arguments Reloaded-II is started with: `--launch` and the game's executable
/// where that is known and exists, otherwise none (Reloaded-II then just opens).
pub fn launch_args(game: &str, game_exists: bool) -> (args: Vec<String>)
    ensures
        args@.map_values(|a: String| a@) == if game@.len() > 0 && game_exists {
            seq!["--launch"@, game@]
        } else {
            Seq::empty()
        },
{
    let mut args: Vec<String> = Vec::new();
    if !game.is_empty() && game_exists {
        args.push("--launch".to_owned());
        args.push(game.to_owned());
    }
    proof {
        assert(args@.map_values(|a: String| a@) =~= if game@.len() > 0 && game_exists {
            seq!["--launch"@, game@]
        } else {
            Seq::empty()
        });
    }
    args
}

/// The text, or the empty text where there is none.
pub open spec fn text_or_empty(t: Option<Seq<char>>) -> Seq<char> {
    match t {
        Some(s) => s,
        None => Seq::empty(),
    }
}

/// The Reloaded-II executable that its settings (`ReloadedII.json`) name.
pub fn launcher_path(settings: &serde_json::Value) -> (r: Option<String>)
    ensures
        opt_text(r) == member_str(*settings, "LauncherPath"@),
{
    string_member(settings, "LauncherPath")
}

/// The folder of Reloaded-II's installed mods, as its settings name it.
pub fn mods_dir(settings: &serde_json::Value) -> (r: Option<String>)
    ensures
        opt_text(r) == member_str(*settings, "ModConfigDirectory"@),
{
    string_member(settings, "ModConfigDirectory")
}

/// The folder of Reloaded-II's registered applications, as its settings name it.
pub fn app_config_dir(settings: &serde_json::Value) -> (r: Option<String>)
    ensures
        opt_text(r) == member_str(*settings, "ApplicationConfigDirectory"@),
{
    string_member(settings, "ApplicationConfigDirectory")
}

/// The mods a mod manifest (`ModConfig.json`) declares it depends on: the string
/// entries of its `ModDependencies` array, in order; none where there is no such array.
pub fn mod_dependencies(manifest: &serde_json::Value) -> (r: Vec<String>)
    ensures
        r@.map_values(|s: String| s@) == match member_array(*manifest, "ModDependencies"@) {
            Some(items) => string_items(items),
            None => Seq::empty(),
        },
{
    match array_member(manifest, "ModDependencies") {
        Some(items) => strings_of(items),
        None => {
            let r: Vec<String> = Vec::new();
            assert(r@.map_values(|s: String| s@) =~= Seq::empty());
            r
        },
    }
}

/// A registered application as its `AppConfig.json` describes it; a missing or
/// non-string `AppId` or `AppLocation` reads as the empty text.
pub fn app_entry(config: &serde_json::Value) -> (e: AppEntry)
    ensures
        e.id@ == text_or_empty(member_str(*config, "AppId"@)),
        e.location@ == text_or_empty(member_str(*config, "AppLocation"@)),
{
    let id = match string_member(config, "AppId") {
        Some(s) => s,
        None => String::new(),
    };
    let location = match string_member(config, "AppLocation") {
        Some(s) => s,
        None => String::new(),
    };
    AppEntry { id, location }
}

/// The game is the first registered application that is the game's: where entry `j` is
/// the game's and no earlier one is, the result is entry `j`'s location.
pub proof fn lemma_game_location_first(apps: Seq<(Seq<char>, Seq<char>)>, j: int)
    requires
        0 <= j < apps.len(),
        is_game(apps[j].0, apps[j].1),
        forall|i: int| 0 <= i < j ==> !is_game(#[trigger] apps[i].0, apps[i].1),
    ensures
        game_location(apps) == apps[j].1,
    decreases j,
{
    if j > 0 {
        let rest = apps.drop_first();
        assert(!is_game(apps[0].0, apps[0].1));
        assert forall|i: int| 0 <= i < j - 1 implies !is_game(#[trigger] rest[i].0, rest[i].1) by {
            assert(rest[i] == apps[i + 1]);
        }
        assert(rest[j - 1] == apps[j]);
        lemma_game_location_first(rest, j - 1);
    }
}

/// Where no registered application is the game's, no game is found.
pub proof fn lemma_game_location_none(apps: Seq<(Seq<char>, Seq<char>)>)
    requires
        forall|i: int| 0 <= i < apps.len() ==> !is_game(#[trigger] apps[i].0, apps[i].1),
    ensures
        game_location(apps) == Seq::<char>::empty(),
    decreases apps.len(),
{
    if apps.len() > 0 {
        let rest = apps.drop_first();
        assert(!is_game(apps[0].0, apps[0].1));
        assert forall|i: int| 0 <= i < rest.len() implies !is_game(#[trigger] rest[i].0, rest[i].1) by {
            assert(rest[i] == apps[i + 1]);
        }
        lemma_game_location_none(rest);
    }
}

/// The launcher Reloaded-II's settings name, when not empty, is the one used whatever
/// exists at the standard places; otherwise the first standard place that exists is used
/// (F:, then C:, then D:), and nothing where none does.
pub proof fn lemma_launcher_choice(configured: Option<Seq<char>>, exists: Seq<bool>)
    ensures
        configured is Some && configured.unwrap().len() > 0 ==> chosen_launcher(configured, exists)
            == configured.unwrap(),
        !(configured is Some && configured.unwrap().len() > 0) ==> {
            &&& exists.len() > 0 && exists[0] ==> chosen_launcher(configured, exists)
                == "F:\\Reloaded-II\\Reloaded-II.exe"@
            &&& exists.len() > 1 && !exists[0] && exists[1] ==> chosen_launcher(configured, exists)
                == "C:\\Reloaded-II\\Reloaded-II.exe"@
            &&& exists.len() > 2 && !exists[0] && !exists[1] && exists[2] ==> chosen_launcher(
                configured,
                exists,
            ) == "D:\\Reloaded-II\\Reloaded-II.exe"@
            &&& (forall|i: int| 0 <= i < exists.len() && i < 3 ==> !#[trigger] exists[i])
                ==> chosen_launcher(configured, exists) == Seq::<char>::empty()
        },
{
    if !(configured is Some && configured.unwrap().len() > 0) {
        assert(chosen_launcher(configured, exists) == first_existing(exists, 0));
        assert(launcher_candidate_paths().len() == 3);
        reveal_with_fuel(first_existing, 4);
        if exists.len() > 0 {
            assert(exists[0] ==> first_existing(exists, 0) == launcher_candidate_paths()[0]);
        }
        if exists.len() > 1 {
            assert(exists[1] ==> first_existing(exists, 1) == launcher_candidate_paths()[1]);
        }
        if exists.len() > 2 {
            assert(exists[2] ==> first_existing(exists, 2) == launcher_candidate_paths()[2]);
        }
        assert(first_existing(exists, 3) == Seq::<char>::empty());
    }
}

} // verus!
