use cursive::views::SelectView;
use interactive_installer::data::{DHCP, FS, NETWORKING, NO_RAID, RAID, STATIC};
use interactive_installer::fs_select::{fs_options, fs_submit, get_fs, get_fs_index, FS_TITLE};
use interactive_installer::networking::{
    get_net_index, get_networking, net_options, NET_TITLE,
};
use interactive_installer::raid::{get_raid, get_raid_index, raid_options, raid_submit, RAID_TITLE};
use interactive_installer::select::{push_options, SelectionOption};
use interactive_installer::store::{ConfigStore, StoreWrite};

fn entries(view: &SelectView<String>) -> Vec<(String, String)> {
    view.iter().map(|(label, value)| (label.to_string(), value.clone())).collect()
}

fn pairs(list: &[(&str, &str)]) -> Vec<(String, String)> {
    list.iter().map(|(label, value)| (label.to_string(), value.to_string())).collect()
}

#[test]
fn fs_index_of_each_filesystem() {
    assert_eq!(get_fs_index("SQUASHFS"), 0);
    assert_eq!(get_fs_index("EXT3"), 1);
    assert_eq!(get_fs_index("EXT4"), 2);
    assert_eq!(get_fs_index("ZFS"), 3);
}

#[test]
fn fs_index_falls_back_to_squashfs() {
    assert_eq!(get_fs_index(""), get_fs_index("SQUASHFS"));
    assert_eq!(get_fs_index("zfs"), 0);
    assert_eq!(get_fs_index("EXT"), 0);
    assert_eq!(get_fs_index("EXT44"), 0);
    assert_eq!(get_fs_index("btrfs"), 0);
    assert_eq!(get_fs_index("ZFS "), 0);
    assert_eq!(get_fs_index("ÉXT4"), 0);
}

#[test]
fn net_index_of_each_mode_and_fallback() {
    assert_eq!(get_net_index("DHCP"), 0);
    assert_eq!(get_net_index("Static"), 1);
    assert_eq!(get_net_index("static"), 0);
    assert_eq!(get_net_index("STATIC"), 0);
    assert_eq!(get_net_index(""), 0);
    assert_eq!(get_net_index("PPPoE"), 0);
}

#[test]
fn raid_index_of_each_level() {
    assert_eq!(get_raid_index("0"), 0);
    assert_eq!(get_raid_index("1"), 1);
    assert_eq!(get_raid_index("5"), 2);
    assert_eq!(get_raid_index("10"), 3);
}

#[test]
fn raid_index_of_no_raid_is_past_every_list() {
    assert_eq!(get_raid_index("No raid"), usize::MAX);
    assert_ne!(get_raid_index("No raid"), 0);
}

#[test]
fn raid_index_falls_back_to_first_level() {
    assert_eq!(get_raid_index(""), 0);
    assert_eq!(get_raid_index("6"), 0);
    assert_eq!(get_raid_index("no raid"), 0);
    assert_eq!(get_raid_index("No RAID"), 0);
    assert_eq!(get_raid_index("01"), 0);
}

#[test]
fn fs_panel_lists_the_four_filesystems() {
    let panel = get_fs("SQUASHFS".to_string());
    assert_eq!(panel.title, "Choose FS");
    assert_eq!(panel.title, FS_TITLE);
    assert_eq!(panel.name, FS);
    assert_eq!(panel.view.len(), 4);
    assert_eq!(
        entries(&panel.view),
        pairs(&[("SQUASHFS", "SQUASHFS"), ("EXT3", "EXT3"), ("EXT4", "EXT4"), ("ZFS", "ZFS")])
    );
}

#[test]
fn fs_panel_highlights_the_stored_filesystem() {
    for (index, name) in ["SQUASHFS", "EXT3", "EXT4", "ZFS"].iter().enumerate() {
        let panel = get_fs(name.to_string());
        assert_eq!(panel.view.selected_id(), Some(index));
        assert_eq!(panel.view.selection().unwrap().as_str(), *name);
    }
}

#[test]
fn fs_panel_highlights_squashfs_for_unknown_values() {
    for value in ["", "ext4", "NTFS", "SQUASHFS2", "No raid"] {
        let panel = get_fs(value.to_string());
        assert_eq!(panel.view.selected_id(), Some(0));
        assert_eq!(panel.view.selection().unwrap().as_str(), "SQUASHFS");
        assert_eq!(panel.view.len(), 4);
    }
}

#[test]
fn fs_options_are_label_and_value_alike() {
    let options = fs_options();
    assert_eq!(options.len(), 4);
    assert_eq!(options[2], SelectionOption::new("EXT4", "EXT4"));
    assert_eq!(options[3].label, "ZFS");
    assert_eq!(options[3].value, "ZFS");
}

#[test]
fn raid_panel_on_zfs_offers_five_entries() {
    let panel = get_raid("No raid".to_string(), "ZFS".to_string());
    assert_eq!(panel.title, "Choose RAID");
    assert_eq!(panel.title, RAID_TITLE);
    assert_eq!(panel.name, RAID);
    assert_eq!(panel.view.len(), 5);
    assert_eq!(
        entries(&panel.view),
        pairs(&[("No raid", "No raid"), ("0", "0"), ("1", "1"), ("5", "5"), ("10", "10")])
    );
}

#[test]
fn raid_panel_elsewhere_offers_no_raid_alone() {
    for fs in ["SQUASHFS", "EXT3", "EXT4", "zfs", "", "ZFS2"] {
        let panel = get_raid("No raid".to_string(), fs.to_string());
        assert_eq!(panel.view.len(), 1);
        assert_eq!(entries(&panel.view), pairs(&[("No raid", "No raid")]));
    }
}

#[test]
fn raid_panel_on_zfs_highlights_the_stored_level() {
    for (position, raid) in ["No raid", "0", "1", "5", "10"].iter().enumerate() {
        let panel = get_raid(raid.to_string(), "ZFS".to_string());
        assert_eq!(panel.view.selected_id(), Some(position));
        assert_eq!(panel.view.selection().unwrap().as_str(), *raid);
    }
}

#[test]
fn raid_panel_highlights_no_raid_for_unknown_values() {
    for raid in ["", "garbage", "no raid", "2", "ZFS"] {
        let panel = get_raid(raid.to_string(), "ZFS".to_string());
        assert_eq!(panel.view.len(), 5);
        assert_eq!(panel.view.selected_id(), Some(0));
        assert_eq!(panel.view.selection().unwrap().as_str(), "No raid");
    }
}

#[test]
fn raid_panel_without_levels_highlights_no_raid() {
    for fs in ["SQUASHFS", "EXT3", "EXT4", "zfs", ""] {
        for raid in ["No raid", "", "0", "1", "5", "10", "garbage"] {
            let panel = get_raid(raid.to_string(), fs.to_string());
            assert_eq!(panel.view.len(), 1);
            assert_eq!(panel.view.selected_id(), Some(0));
            assert_eq!(panel.view.get_item(0), Some(("No raid", &"No raid".to_string())));
        }
    }
}

#[test]
fn raid_options_follow_the_filesystem() {
    assert_eq!(raid_options("ZFS").len(), 5);
    assert_eq!(raid_options("EXT4").len(), 1);
    assert_eq!(raid_options("ZFS")[0], SelectionOption::new(NO_RAID, NO_RAID));
    assert_eq!(raid_options("ZFS")[4], SelectionOption::new("10", "10"));
    assert_eq!(raid_options("SQUASHFS")[0], SelectionOption::new("No raid", "No raid"));
}

#[test]
fn networking_panel_of_a_fresh_store_highlights_dhcp() {
    let store = ConfigStore::new();
    let panel = get_networking(&store);
    assert_eq!(panel.title, "Networking configuration");
    assert_eq!(panel.title, NET_TITLE);
    assert_eq!(panel.name, NETWORKING);
    assert_eq!(entries(&panel.view), pairs(&[("DHCP", "DHCP"), ("Static", "Static")]));
    assert_eq!(panel.view.selected_id(), Some(0));
}

#[test]
fn networking_panel_highlights_the_stored_mode() {
    let mut store = ConfigStore::new();
    store.seed(NETWORKING, STATIC);
    let panel = get_networking(&store);
    assert_eq!(panel.view.selected_id(), Some(1));
    assert_eq!(panel.view.selection().unwrap().as_str(), "Static");
    store.seed(NETWORKING, DHCP);
    assert_eq!(get_networking(&store).view.selected_id(), Some(0));
}

#[test]
fn networking_panel_highlights_dhcp_for_unknown_modes() {
    let mut store = ConfigStore::new();
    for value in ["", "static", "bridge"] {
        store.seed(NETWORKING, value);
        let panel = get_networking(&store);
        assert_eq!(panel.view.selected_id(), Some(0));
        assert_eq!(panel.view.len(), 2);
    }
}

#[test]
fn net_options_are_the_two_modes() {
    let options = net_options();
    assert_eq!(options, vec![SelectionOption::new("DHCP", "DHCP"), SelectionOption::new("Static", "Static")]);
}

#[test]
fn push_options_appends_a_range_in_order() {
    let options = fs_options();
    let mut view: SelectView<String> = SelectView::new();
    push_options(&mut view, &options, 1, 3);
    assert_eq!(entries(&view), pairs(&[("EXT3", "EXT3"), ("EXT4", "EXT4")]));
    push_options(&mut view, &options, 0, 1);
    assert_eq!(entries(&view), pairs(&[("EXT3", "EXT3"), ("EXT4", "EXT4"), ("SQUASHFS", "SQUASHFS")]));
    push_options(&mut view, &options, 2, 2);
    assert_eq!(view.len(), 3);
    assert_eq!(view.selected_id(), Some(0));
}

#[test]
fn submit_of_the_filesystem_panel_is_a_final_write() {
    assert_eq!(fs_submit("ZFS"), StoreWrite::new(FS, "ZFS", true));
    let write = fs_submit("EXT3");
    assert_eq!(write.key, "filesystem-type");
    assert_eq!(write.value, "EXT3");
    assert!(write.is_final);
}

#[test]
fn submit_of_the_raid_panel_is_a_final_write() {
    assert_eq!(raid_submit("5"), StoreWrite::new(RAID, "5", true));
    let write = raid_submit("No raid");
    assert_eq!(write.key, "raid-level");
    assert_eq!(write.value, "No raid");
    assert!(write.is_final);
}
