//! The RAID step: "No raid", and the RAID levels where the chosen
//! filesystem supports them.

use vstd::prelude::*;
use crate::data::{
    is_raid_level, is_raid_level_value, is_raid_setting, lemma_raid_settings_distinct,
    lemma_settings_distinct, NO_RAID, RAID, ZFS,
};
use crate::select::{
    option_pairs, push_options, select_focus, select_items, select_new, select_set_selection,
    Panel, SelectionOption,
};
use crate::store::{write_effect, write_result, ConfigError, StepResult, StoreWrite};
use crate::text::str_eq;

verus! {

/// Title of the RAID dialog.
pub const RAID_TITLE: &'static str = "Choose RAID";

/// Position of a stored RAID level among the levels 0, 1, 5 and 10. An
/// installation without RAID has no position there: it maps to
/// `usize::MAX`, which lies past the end of every list. Anything else
/// counts as the first level.
pub open spec fn raid_index(value: Seq<char>) -> int {
    if value == NO_RAID@ {
        usize::MAX as int
    } else if value == "0"@ {
        0
    } else if value == "1"@ {
        1
    } else if value == "5"@ {
        2
    } else if value == "10"@ {
        3
    } else {
        0
    }
}

/// The entries of the RAID panel for the filesystem type `fs`, each under
/// its own name. "No raid" is always offered; the four levels are offered
/// on ZFS only.
pub open spec fn raid_choices(fs: Seq<char>) -> Seq<(Seq<char>, Seq<char>)> {
    if fs == ZFS@ {
        seq![(NO_RAID@, NO_RAID@), ("0"@, "0"@), ("1"@, "1"@), ("5"@, "5"@), ("10"@, "10"@)]
    } else {
        seq![(NO_RAID@, NO_RAID@)]
    }
}

/// The entry that the RAID panel opens with. A stored level that the
/// panel offers is in focus: it stands one entry behind its position among
/// the levels, since "No raid" comes first. In every other case, an
/// installation without RAID, a level on a filesystem that offers none, or
/// a value that is no RAID setting, "No raid" is in focus.
pub open spec fn raid_focus(raid: Seq<char>, fs: Seq<char>) -> int {
    if fs == ZFS@ && is_raid_level(raid) {
        raid_index(raid) + 1
    } else {
        0
    }
}

/// Position of the stored RAID level `value` among the levels.
pub fn get_raid_index(value: &str) -> (index: usize)
    ensures
        index == raid_index(value@),
{
    if str_eq(value, NO_RAID) {
        usize::MAX
    } else if str_eq(value, "0") {
        0
    } else if str_eq(value, "1") {
        1
    } else if str_eq(value, "5") {
        2
    } else if str_eq(value, "10") {
        3
    } else {
        0
    }
}

/// The entries of the RAID panel for the filesystem type `fs`.
pub fn raid_options(fs: &str) -> (options: Vec<SelectionOption>)
    ensures
        option_pairs(options@) == raid_choices(fs@),
{
    let mut options: Vec<SelectionOption> = Vec::new();
    options.push(SelectionOption::new(NO_RAID, NO_RAID));
    if str_eq(fs, ZFS) {
        options.push(SelectionOption::new("0", "0"));
        options.push(SelectionOption::new("1", "1"));
        options.push(SelectionOption::new("5", "5"));
        options.push(SelectionOption::new("10", "10"));
    }
    assert(option_pairs(options@) =~= raid_choices(fs@));
    options
}

/// The RAID panel for the stored level `raid` and the filesystem type
/// `fs`: the entries that the filesystem allows, with the stored level in
/// focus where the panel offers it, and "No raid" otherwise.
pub fn get_raid(raid: String, fs: String) -> (panel: Panel)
    ensures
        panel.title@ == RAID_TITLE@,
        panel.name@ == RAID@,
        select_items(panel.view) == raid_choices(fs@),
        select_focus(panel.view) == raid_focus(raid@, fs@),
{
    let options = raid_options(fs.as_str());
    let mut view = select_new();
    push_options(&mut view, &options, 0, options.len());
    assert(select_items(view) =~= raid_choices(fs@));
    proof {
        lemma_raid_level_positions(raid@);
    }
    let focus: usize = if str_eq(fs.as_str(), ZFS) && is_raid_level_value(raid.as_str()) {
        get_raid_index(raid.as_str()) + 1
    } else {
        0
    };
    select_set_selection(&mut view, focus);
    Panel { title: RAID_TITLE.to_owned(), name: RAID.to_owned(), view }
}

/// The write that submitting the entry with value `value` asks for: the
/// RAID level, stored as the last action of the step.
pub fn raid_submit(value: &str) -> (write: StoreWrite)
    ensures
        write@ == (RAID@, value@, true),
{
    StoreWrite::new(RAID, value, true)
}

/// What the RAID panel offers: on ZFS five entries, "No raid" and the four
/// levels; on every other filesystem "No raid" alone.
pub proof fn lemma_raid_offer(fs: Seq<char>)
    ensures
        raid_choices(fs).len() == (if fs == ZFS@ {
            5nat
        } else {
            1nat
        }),
        raid_choices(fs)[0] == (NO_RAID@, NO_RAID@),
{
}

/// The focus of the panel stands on the entry that holds the stored RAID
/// setting, wherever the panel offers that setting: on ZFS for every RAID
/// setting, elsewhere for "No raid". The focus always stands on an entry.
pub proof fn lemma_raid_focus_on_stored(raid: Seq<char>, fs: Seq<char>)
    ensures
        0 <= raid_focus(raid, fs) < raid_choices(fs).len(),
        (fs == ZFS@ && is_raid_setting(raid)) || raid == NO_RAID@ ==> raid_choices(fs)[raid_focus(
            raid,
            fs,
        )] == (raid, raid),
{
    lemma_raid_settings_distinct();
}

/// Round trip: once an entry of the RAID panel is submitted and the
/// backing storage has taken it, the store holds the value of that entry
/// as its RAID level, the wizard advances, and the panel drawn from the
/// store has that entry in focus.
pub proof fn lemma_raid_round_trip(settings: Map<Seq<char>, Seq<char>>, fs: Seq<char>, i: int)
    requires
        0 <= i < raid_choices(fs).len(),
    ensures
        write_result(RAID@, raid_choices(fs)[i].1, true, true) == Ok::<StepResult, ConfigError>(
            StepResult::PersistAndAdvance,
        ),
        write_effect(settings, RAID@, raid_choices(fs)[i].1, true)[RAID@] == raid_choices(fs)[i].1,
        raid_focus(write_effect(settings, RAID@, raid_choices(fs)[i].1, true)[RAID@], fs) == i,
{
    lemma_raid_settings_distinct();
    lemma_settings_distinct();
}

/// A stored level stands in the ZFS panel one entry behind its position
/// among the levels, since "No raid" comes first; an installation without
/// RAID has a position past the end of the panel.
pub proof fn lemma_raid_level_positions(value: Seq<char>)
    ensures
        is_raid_level(value) ==> 0 <= raid_index(value) < 4 && raid_choices(ZFS@)[raid_index(value)
            + 1] == (value, value),
        raid_index(NO_RAID@) >= raid_choices(ZFS@).len(),
{
    lemma_raid_settings_distinct();
}

} // verus!
