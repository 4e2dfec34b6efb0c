//! What the picker tells the player after each action, and the requirement banner.
use vstd::prelude::*;

use crate::reloaded::{flags_view, DepReport};

verus! {

/// The status shown when the picker starts.
pub const READY: &'static str = "Ready. Set each summon, then Apply.";

/// The status shown after the requirements were checked again.
pub const RECHECKED: &'static str = "Re-checked requirements.";

/// Text that starts with `head`, then holds `middle`, then `tail`.
pub open spec fn framed(head: &str, middle: Seq<char>, tail: &str) -> Seq<char> {
    head@ + middle + tail@
}

/// `head` followed by `middle` and `tail`, as a new string.
fn frame(head: &str, middle: &str, tail: &str) -> (s: String)
    ensures
        s@ == framed(head, middle@, tail),
{
    let mut s = head.to_owned();
    s.append(middle);
    s.append(tail);
    s
}

/// Reloaded-II can be started: its path is set and the file exists.
pub fn launcher_known(path: &str, exists: bool) -> (r: bool)
    ensures
        r == (path@.len() > 0 && exists),
{
    !path.is_empty() && exists
}

/// The status after "Apply Picks", given whether writing the tables failed and with what.
pub fn apply_message(outcome: &Result<(), String>) -> (s: String)
    ensures
        s@ == match outcome {
            Ok(()) => "Applied. Enable only this mod in Reloaded-II, then relaunch the game."@,
            Err(e) => framed("Could not write tables: ", e@, ". Is the game running?"),
        },
{
    match outcome {
        Ok(()) => "Applied. Enable only this mod in Reloaded-II, then relaunch the game.".to_owned(),
        Err(e) => frame("Could not write tables: ", e.as_str(), ". Is the game running?"),
    }
}

/// The status after "Restore vanilla tables"; the restore counts as done only when
/// writing succeeded.
pub fn restore_message(outcome: &Result<(), String>) -> (s: String)
    ensures
        s@ == match outcome {
            Ok(()) => "Vanilla restored. Click the green button to start the game and finish."@,
            Err(e) => framed("Could not write tables: ", e@, ""),
        },
{
    match outcome {
        Ok(()) => "Vanilla restored. Click the green button to start the game and finish.".to_owned(),
        Err(e) => frame("Could not write tables: ", e.as_str(), ""),
    }
}

/// The status after finishing a restore: `None` where Reloaded-II could not be started
/// because it is not known, otherwise how launching it went.
pub fn finish_restore_message(launch: &Option<Result<(), String>>) -> (s: String)
    ensures
        s@ == match launch {
            None => "Start the game yourself with the mod still ticked, load a save and quit, then untick or delete the mod."@,
            Some(Ok(())) => "Game starting with vanilla data. Once you load a save and quit, untick or delete the mod."@,
            Some(Err(e)) => framed(
                "Could not start Reloaded-II: ",
                e@,
                ". Start the game yourself, then remove the mod.",
            ),
        },
{
    match launch {
        None => "Start the game yourself with the mod still ticked, load a save and quit, then untick or delete the mod.".to_owned(),
        Some(Ok(())) => "Game starting with vanilla data. Once you load a save and quit, untick or delete the mod.".to_owned(),
        Some(Err(e)) => frame(
            "Could not start Reloaded-II: ",
            e.as_str(),
            ". Start the game yourself, then remove the mod.",
        ),
    }
}

/// The status after "Apply & Run Game", from the outcome of writing the tables and, where
/// Reloaded-II was started (as `next_step` decides), the outcome of starting it.
pub fn run_game_message(apply: &Result<(), String>, launch: &Option<Result<(), String>>, game_empty: bool) -> (s: String)
    ensures
        s@ == match apply {
            Err(e) => framed("Could not write tables: ", e@, ""),
            Ok(()) => match launch {
                None => "Picks applied. Reloaded-II not found, set its path below or launch the game yourself."@,
                Some(Ok(())) => if game_empty {
                    "Applied. Opened Reloaded-II, press Launch there."@
                } else {
                    "Applied, launching the game through Reloaded-II."@
                },
                Some(Err(e)) => framed("Applied, but could not start Reloaded-II: ", e@, ""),
            },
        },
{
    match apply {
        Err(e) => frame("Could not write tables: ", e.as_str(), ""),
        Ok(()) => match launch {
            None => "Picks applied. Reloaded-II not found, set its path below or launch the game yourself.".to_owned(),
            Some(Ok(())) => if game_empty {
                "Applied. Opened Reloaded-II, press Launch there.".to_owned()
            } else {
                "Applied, launching the game through Reloaded-II.".to_owned()
            },
            Some(Err(e)) => frame("Applied, but could not start Reloaded-II: ", e.as_str(), ""),
        },
    }
}

/// An action of the picker that writes tables or starts Reloaded-II.
#[derive(Debug, Clone, Copy, PartialEq, Eq, Structural)]
pub enum Action {
    /// "Apply Picks": write the patched tables.
    Apply,
    /// "Apply & Run Game": write the patched tables, then start Reloaded-II.
    RunGame,
    /// "Restore vanilla tables": write the untouched tables.
    Restore,
    /// Finish a restore: start Reloaded-II without writing anything.
    FinishRestore,
}

/// What follows an action: whether Reloaded-II is started, and whether the vanilla
/// tables now count as restored.
#[derive(Debug, Clone, Copy, PartialEq, Eq, Structural)]
pub struct Next {
    pub launch: bool,
    pub restored: bool,
}

/// Decides what follows an action, given whether its write succeeded, whether
/// Reloaded-II is known, and whether a restore was done before: writing patched tables
/// undoes a restore; a restore counts once its write succeeded; Reloaded-II starts after a
/// successful "Apply & Run Game" or to finish a restore, and only where it is known.
pub fn next_step(action: Action, wrote: bool, launcher_ok: bool, restored: bool) -> (n: Next)
    ensures
        n.launch == match action {
            Action::RunGame => wrote && launcher_ok,
            Action::FinishRestore => launcher_ok,
            _ => false,
        },
        n.restored == match action {
            Action::Apply => false,
            Action::RunGame => false,
            Action::Restore => wrote || restored,
            Action::FinishRestore => restored,
        },
{
    match action {
        Action::Apply => Next { launch: false, restored: false },
        Action::RunGame => Next { launch: wrote && launcher_ok, restored: false },
        Action::Restore => Next { launch: false, restored: wrote || restored },
        Action::FinishRestore => Next { launch: launcher_ok, restored },
    }
}

/// The state the requirement banner shows.
#[derive(Debug, Clone, Copy, PartialEq, Eq, Structural)]
pub enum Banner {
    /// Reloaded-II's Mods folder was not found, so nothing could be checked.
    Unlocated,
    /// Every requirement is installed.
    Ready,
    /// Some requirement is missing.
    Missing,
}

/// The names of the items that were not found, in order.
pub open spec fn missing_names(items: Seq<(Seq<char>, bool)>) -> Seq<Seq<char>>
    decreases items.len(),
{
    if items.len() == 0 {
        Seq::empty()
    } else if !items.last().1 {
        missing_names(items.drop_last()).push(items.last().0)
    } else {
        missing_names(items.drop_last())
    }
}

/// The names joined with `sep` between each two.
pub open spec fn joined(names: Seq<Seq<char>>, sep: Seq<char>) -> Seq<char>
    decreases names.len(),
{
    if names.len() == 0 {
        Seq::empty()
    } else if names.len() == 1 {
        names[0]
    } else {
        joined(names.drop_last(), sep) + sep + names.last()
    }
}

/// The banner over the picks: which state it shows, and its text; a report that lists
/// missing mods names them.
pub fn banner(dep: &DepReport) -> (b: (Banner, String))
    ensures
        !dep.located ==> b.0 == Banner::Unlocated && b.1@
            == "Could not find Reloaded-II's Mods folder to check requirements."@,
        dep.located && dep.ok ==> b.0 == Banner::Ready && b.1@
            == "Loader ready, gbfrelink.utility.manager and its dependencies are installed."@,
        dep.located && !dep.ok ==> b.0 == Banner::Missing && b.1@ == framed(
            "Missing: ",
            joined(missing_names(flags_view(dep.items@)), ", "@),
            ". Install it or the mod will not load.",
        ),
{
    if !dep.located {
        return (Banner::Unlocated, "Could not find Reloaded-II's Mods folder to check requirements.".to_owned());
    }
    if dep.ok {
        return (Banner::Ready, "Loader ready, gbfrelink.utility.manager and its dependencies are installed.".to_owned());
    }
    let ghost items = flags_view(dep.items@);
    let mut list = String::new();
    let mut any = false;
    let mut i: usize = 0;
    while i < dep.items.len()
        invariant
            items == flags_view(dep.items@),
            i <= dep.items.len(),
            list@ == joined(missing_names(items.take(i as int)), ", "@),
            any == (missing_names(items.take(i as int)).len() > 0),
        decreases dep.items.len() - i,
    {
        proof {
            assert(items.take(i + 1).drop_last() =~= items.take(i as int));
            assert(items.take(i + 1).last() == items[i as int]);
            assert(items[i as int] == (dep.items@[i as int].0@, dep.items@[i as int].1));
        }
        if !dep.items[i].1 {
            let ghost names = missing_names(items.take(i as int));
            if any {
                list.append(", ");
            }
            list.append(dep.items[i].0.as_str());
            proof {
                let grown = names.push(items[i as int].0);
                assert(grown.drop_last() =~= names);
                if names.len() == 0 {
                    assert(list@ =~= joined(grown, ", "@));
                }
            }
            any = true;
        }
        i = i + 1;
    }
    proof {
        assert(items.take(dep.items@.len() as int) =~= items);
    }
    (Banner::Missing, frame("Missing: ", list.as_str(), ". Install it or the mod will not load."))
}

} // verus!
