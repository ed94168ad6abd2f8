//! The steps of the wizard in their order, and the moves between them.

use vstd::prelude::*;
use crate::data::{allowed, lemma_settings_distinct, FS, NETWORKING, RAID};
use crate::fs_select::{fs_choices, fs_index, get_fs, FS_TITLE};
use crate::networking::{get_networking, net_choices, net_index, NET_TITLE};
use crate::raid::{get_raid, raid_choices, raid_focus, RAID_TITLE};
use crate::select::{select_focus, select_items, Panel};
use crate::store::{ConfigError, ConfigStore, StepResult};

verus! {

/// A step of the wizard. The steps come in the order in which they are
/// listed.
#[derive(Clone, Copy, Debug, PartialEq, Eq, Structural)]
pub enum Step {
    Filesystem,
    Raid,
    Networking,
}

/// A move of the wizard from one step to a neighbour.
#[derive(Clone, Copy, Debug, PartialEq, Eq, Structural)]
pub enum Move {
    Next,
    Back,
}

/// The step that a move leads to, or `None` where the move leaves the
/// steps listed here.
pub open spec fn neighbour(step: Step, direction: Move) -> Option<Step> {
    match (step, direction) {
        (Step::Filesystem, Move::Next) => Some(Step::Raid),
        (Step::Raid, Move::Next) => Some(Step::Networking),
        (Step::Networking, Move::Next) => None,
        (Step::Filesystem, Move::Back) => None,
        (Step::Raid, Move::Back) => Some(Step::Filesystem),
        (Step::Networking, Move::Back) => Some(Step::Raid),
    }
}

/// The move that the outcome of a write calls for: a final write that
/// succeeded leads to the next step; anything else, a failure included,
/// leaves the wizard on its step.
pub open spec fn move_after(outcome: Result<StepResult, ConfigError>) -> Option<Move> {
    if outcome == Ok::<StepResult, ConfigError>(StepResult::PersistAndAdvance) {
        Some(Move::Next)
    } else {
        None
    }
}

/// Decides where a move from `step` leads.
pub fn navigate(step: Step, direction: Move) -> (target: Option<Step>)
    ensures
        target == neighbour(step, direction),
{
    match (step, direction) {
        (Step::Filesystem, Move::Next) => Some(Step::Raid),
        (Step::Raid, Move::Next) => Some(Step::Networking),
        (Step::Networking, Move::Next) => None,
        (Step::Filesystem, Move::Back) => None,
        (Step::Raid, Move::Back) => Some(Step::Filesystem),
        (Step::Networking, Move::Back) => Some(Step::Raid),
    }
}

/// Decides which move follows the outcome of a write.
pub fn follow_up(outcome: Result<StepResult, ConfigError>) -> (direction: Option<Move>)
    ensures
        direction == move_after(outcome),
{
    match outcome {
        Ok(StepResult::PersistAndAdvance) => Some(Move::Next),
        _ => None,
    }
}

/// The panel of a step, drawn from what the store holds now.
pub fn render(step: Step, store: &ConfigStore) -> (panel: Panel)
    requires
        store.wf(),
    ensures
        match step {
            Step::Filesystem => {
                &&& panel.title@ == FS_TITLE@
                &&& panel.name@ == FS@
                &&& select_items(panel.view) == fs_choices()
                &&& select_focus(panel.view) == fs_index(store@[FS@])
            },
            Step::Raid => {
                &&& panel.title@ == RAID_TITLE@
                &&& panel.name@ == RAID@
                &&& select_items(panel.view) == raid_choices(store@[FS@])
                &&& select_focus(panel.view) == raid_focus(store@[RAID@], store@[FS@])
            },
            Step::Networking => {
                &&& panel.title@ == NET_TITLE@
                &&& panel.name@ == NETWORKING@
                &&& select_items(panel.view) == net_choices()
                &&& select_focus(panel.view) == net_index(store@[NETWORKING@])
            },
        },
{
    match step {
        Step::Filesystem => get_fs(store.read(FS)),
        Step::Raid => get_raid(store.read(RAID), store.read(FS)),
        Step::Networking => get_networking(store),
    }
}

/// Whatever entry of a panel is submitted, its value lies in the domain of
/// the setting that the panel writes: validation refuses no choice that a
/// panel offers.
pub proof fn lemma_offered_values_are_allowed(fs: Seq<char>, i: int)
    ensures
        0 <= i < fs_choices().len() ==> allowed(FS@, fs_choices()[i].1),
        0 <= i < raid_choices(fs).len() ==> allowed(RAID@, raid_choices(fs)[i].1),
        0 <= i < net_choices().len() ==> allowed(NETWORKING@, net_choices()[i].1),
{
    lemma_settings_distinct();
}

/// Going on and then back, or back and then on, returns to the step, as
/// long as neither move leaves the listed steps.
pub proof fn lemma_moves_undo_each_other(step: Step, target: Step)
    ensures
        neighbour(step, Move::Next) == Some(target) <==> neighbour(target, Move::Back) == Some(
            step,
        ),
{
}

} // verus!
