//! The filesystem step: one choice among the four filesystem types.

use vstd::prelude::*;
use crate::data::{is_filesystem, lemma_filesystems_distinct, EXT3, EXT4, FS, SQUASHFS, ZFS};
use crate::select::{
    option_pairs, push_options, select_focus, select_items, select_new, select_set_selection,
    Panel, SelectionOption,
};
use crate::store::{write_effect, write_result, ConfigError, StepResult, StoreWrite};
use crate::text::str_eq;

verus! {

/// Title of the filesystem dialog.
pub const FS_TITLE: &'static str = "Choose FS";

/// Position of a stored filesystem type in the choice list; anything that
/// is no filesystem type counts as the first entry.
pub open spec fn fs_index(value: Seq<char>) -> int {
    if value == SQUASHFS@ {
        0
    } else if value == EXT3@ {
        1
    } else if value == EXT4@ {
        2
    } else if value == ZFS@ {
        3
    } else {
        0
    }
}

/// The entries of the filesystem panel: each type under its own name.
pub open spec fn fs_choices() -> Seq<(Seq<char>, Seq<char>)> {
    seq![(SQUASHFS@, SQUASHFS@), (EXT3@, EXT3@), (EXT4@, EXT4@), (ZFS@, ZFS@)]
}

/// Position of the stored filesystem type `value` in the choice list.
pub fn get_fs_index(value: &str) -> (index: usize)
    ensures
        index == fs_index(value@),
{
    if str_eq(value, SQUASHFS) {
        0
    } else if str_eq(value, EXT3) {
        1
    } else if str_eq(value, EXT4) {
        2
    } else if str_eq(value, ZFS) {
        3
    } else {
        0
    }
}

/// The entries of the filesystem panel.
pub fn fs_options() -> (options: Vec<SelectionOption>)
    ensures
        option_pairs(options@) == fs_choices(),
{
    let mut options: Vec<SelectionOption> = Vec::new();
    options.push(SelectionOption::new(SQUASHFS, SQUASHFS));
    options.push(SelectionOption::new(EXT3, EXT3));
    options.push(SelectionOption::new(EXT4, EXT4));
    options.push(SelectionOption::new(ZFS, ZFS));
    assert(option_pairs(options@) =~= fs_choices());
    options
}

/// The filesystem panel for the stored filesystem type `value`: the four
/// types, with the stored one in focus, or the first where `value` is none
/// of them.
pub fn get_fs(value: String) -> (panel: Panel)
    ensures
        panel.title@ == FS_TITLE@,
        panel.name@ == FS@,
        select_items(panel.view) == fs_choices(),
        select_focus(panel.view) == fs_index(value@),
{
    let options = fs_options();
    let mut view = select_new();
    push_options(&mut view, &options, 0, options.len());
    assert(select_items(view) =~= fs_choices());
    select_set_selection(&mut view, get_fs_index(value.as_str()));
    Panel { title: FS_TITLE.to_owned(), name: FS.to_owned(), view }
}

/// The write that submitting the entry with value `value` asks for: the
/// filesystem type, stored as the last action of the step.
pub fn fs_submit(value: &str) -> (write: StoreWrite)
    ensures
        write@ == (FS@, value@, true),
{
    StoreWrite::new(FS, value, true)
}

/// A stored value that is none of the four filesystem types puts the focus
/// where SQUASHFS stands.
pub proof fn lemma_unknown_filesystem_falls_back(value: Seq<char>)
    requires
        !is_filesystem(value),
    ensures
        fs_index(value) == fs_index(SQUASHFS@),
{
}

/// The focus of the panel stands on the entry that holds the stored
/// filesystem type.
pub proof fn lemma_fs_focus_on_stored(value: Seq<char>)
    requires
        is_filesystem(value),
    ensures
        0 <= fs_index(value) < fs_choices().len(),
        fs_choices()[fs_index(value)] == (value, value),
{
    lemma_filesystems_distinct();
}

/// Round trip: once an entry of the filesystem panel is submitted and the
/// backing storage has taken it, the store holds the submitted type as its
/// filesystem type, the wizard advances, and the panel drawn from the
/// store has that type in focus.
pub proof fn lemma_filesystem_round_trip(settings: Map<Seq<char>, Seq<char>>, value: Seq<char>)
    requires
        is_filesystem(value),
    ensures
        write_result(FS@, value, true, true) == Ok::<StepResult, ConfigError>(
            StepResult::PersistAndAdvance,
        ),
        write_effect(settings, FS@, value, true)[FS@] == value,
        fs_choices()[fs_index(write_effect(settings, FS@, value, true)[FS@])].1 == value,
{
    lemma_fs_focus_on_stored(value);
}

} // verus!
