use interactive_installer::data::{FS, NETWORKING, RAID};
use interactive_installer::store::{ConfigError, ConfigStore, StepResult};
use interactive_installer::wizard::{follow_up, navigate, render, Move, Step};

#[test]
fn steps_follow_each_other() {
    assert_eq!(navigate(Step::Filesystem, Move::Next), Some(Step::Raid));
    assert_eq!(navigate(Step::Raid, Move::Next), Some(Step::Networking));
    assert_eq!(navigate(Step::Networking, Move::Next), None);
    assert_eq!(navigate(Step::Networking, Move::Back), Some(Step::Raid));
    assert_eq!(navigate(Step::Raid, Move::Back), Some(Step::Filesystem));
    assert_eq!(navigate(Step::Filesystem, Move::Back), None);
}

#[test]
fn back_undoes_next() {
    for step in [Step::Filesystem, Step::Raid] {
        let target = navigate(step, Move::Next).unwrap();
        assert_eq!(navigate(target, Move::Back), Some(step));
    }
}

#[test]
fn only_a_final_write_that_succeeded_moves_on() {
    assert_eq!(follow_up(Ok(StepResult::PersistAndAdvance)), Some(Move::Next));
    assert_eq!(follow_up(Ok(StepResult::PersistOnly)), None);
    assert_eq!(follow_up(Err(ConfigError::Validation)), None);
    assert_eq!(follow_up(Err(ConfigError::Persistence)), None);
}

#[test]
fn failed_final_write_does_not_move_on() {
    let mut store = ConfigStore::new();
    let outcome = store.write(FS, "ZFS", true, false);
    assert_eq!(follow_up(outcome), None);
    let outcome = store.write(FS, "ZFS", true, true);
    assert_eq!(follow_up(outcome), Some(Move::Next));
}

#[test]
fn render_draws_each_step_from_the_store() {
    let mut store = ConfigStore::new();
    store.seed(FS, "ZFS");
    store.seed(RAID, "10");
    store.seed(NETWORKING, "Static");

    let panel = render(Step::Filesystem, &store);
    assert_eq!(panel.name, FS);
    assert_eq!(panel.title, "Choose FS");
    assert_eq!(panel.view.len(), 4);
    assert_eq!(panel.view.selected_id(), Some(3));

    let panel = render(Step::Raid, &store);
    assert_eq!(panel.name, RAID);
    assert_eq!(panel.title, "Choose RAID");
    assert_eq!(panel.view.len(), 5);
    assert_eq!(panel.view.selected_id(), Some(4));
    assert_eq!(panel.view.selection().unwrap().as_str(), "10");

    let panel = render(Step::Networking, &store);
    assert_eq!(panel.name, NETWORKING);
    assert_eq!(panel.title, "Networking configuration");
    assert_eq!(panel.view.len(), 2);
    assert_eq!(panel.view.selected_id(), Some(1));
}

#[test]
fn render_of_the_raid_step_follows_the_stored_filesystem() {
    let mut store = ConfigStore::new();
    assert_eq!(render(Step::Raid, &store).view.len(), 1);
    store.seed(FS, "EXT4");
    assert_eq!(render(Step::Raid, &store).view.len(), 1);
    store.seed(FS, "ZFS");
    assert_eq!(render(Step::Raid, &store).view.len(), 5);
    assert_eq!(render(Step::Raid, &store).view.selected_id(), Some(0));
    store.seed(RAID, "1");
    assert_eq!(render(Step::Raid, &store).view.selected_id(), Some(2));
    store.seed(FS, "EXT3");
    assert_eq!(render(Step::Raid, &store).view.selected_id(), Some(0));
}
