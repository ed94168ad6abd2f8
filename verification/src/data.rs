//! The well-known setting names and the values that the enumerated
//! settings are drawn from.

use vstd::prelude::*;
use crate::text::str_eq;

verus! {

/// Setting that holds the filesystem type.
pub const FS: &'static str = "filesystem-type";

/// Setting that holds the RAID level.
pub const RAID: &'static str = "raid-level";

/// Setting that holds the networking mode.
pub const NETWORKING: &'static str = "networking-mode";

/// Setting that holds the subnet of a static network configuration.
pub const SUBNET: &'static str = "subnet";

/// Setting that holds the gateway of a static network configuration.
pub const GATEWAY: &'static str = "gateway";

/// Setting that holds the DNS server of a static network configuration.
pub const DNS: &'static str = "dns";

/// The filesystem types.
pub const SQUASHFS: &'static str = "SQUASHFS";

pub const EXT3: &'static str = "EXT3";

pub const EXT4: &'static str = "EXT4";

pub const ZFS: &'static str = "ZFS";

/// Networking mode in which the address is obtained automatically.
pub const DHCP: &'static str = "DHCP";

/// Networking mode in which subnet, gateway and DNS are entered by hand.
pub const STATIC: &'static str = "Static";

/// Stored RAID level of an installation without RAID.
pub const NO_RAID: &'static str = "No raid";

/// Title and view name of the nested panel with the static network fields.
pub const STATIC_NET_CONFIG: &'static str = "Static network configuration";

/// The filesystem types that can be chosen.
pub open spec fn is_filesystem(value: Seq<char>) -> bool {
    value == SQUASHFS@ || value == EXT3@ || value == EXT4@ || value == ZFS@
}

/// The networking modes that can be chosen.
pub open spec fn is_network_mode(value: Seq<char>) -> bool {
    value == DHCP@ || value == STATIC@
}

/// The RAID levels that a filesystem with RAID support offers.
pub open spec fn is_raid_level(value: Seq<char>) -> bool {
    value == "0"@ || value == "1"@ || value == "5"@ || value == "10"@
}

/// What the RAID setting may hold: a level, or the value of an
/// installation without RAID.
pub open spec fn is_raid_setting(value: Seq<char>) -> bool {
    is_raid_level(value) || value == NO_RAID@
}

/// Whether `value` lies in the domain of the setting `key`. The three
/// enumerated settings accept their enumeration only; every other setting
/// is free-form.
pub open spec fn allowed(key: Seq<char>, value: Seq<char>) -> bool {
    if key == FS@ {
        is_filesystem(value)
    } else if key == RAID@ {
        is_raid_setting(value)
    } else if key == NETWORKING@ {
        is_network_mode(value)
    } else {
        true
    }
}

/// The three enumerated settings have three different names, and none of
/// them is the name of a static network field.
pub proof fn lemma_settings_distinct()
    ensures
        FS@ != RAID@,
        FS@ != NETWORKING@,
        RAID@ != NETWORKING@,
        SUBNET@ != FS@ && SUBNET@ != RAID@ && SUBNET@ != NETWORKING@,
        GATEWAY@ != FS@ && GATEWAY@ != RAID@ && GATEWAY@ != NETWORKING@,
        DNS@ != FS@ && DNS@ != RAID@ && DNS@ != NETWORKING@,
        SUBNET@ != GATEWAY@ && SUBNET@ != DNS@ && GATEWAY@ != DNS@,
{
    reveal_strlit("filesystem-type");
    reveal_strlit("raid-level");
    reveal_strlit("networking-mode");
    reveal_strlit("subnet");
    reveal_strlit("gateway");
    reveal_strlit("dns");
    assert(FS@.len() == 15 && RAID@.len() == 10 && NETWORKING@.len() == 15);
    assert(SUBNET@.len() == 6 && GATEWAY@.len() == 7 && DNS@.len() == 3);
    assert(FS@[0] != NETWORKING@[0]);
}

/// The four filesystem types have four different names.
pub proof fn lemma_filesystems_distinct()
    ensures
        SQUASHFS@ != EXT3@,
        SQUASHFS@ != EXT4@,
        SQUASHFS@ != ZFS@,
        EXT3@ != EXT4@,
        EXT3@ != ZFS@,
        EXT4@ != ZFS@,
{
    reveal_strlit("SQUASHFS");
    reveal_strlit("EXT3");
    reveal_strlit("EXT4");
    reveal_strlit("ZFS");
    assert(SQUASHFS@.len() == 8 && EXT3@.len() == 4 && EXT4@.len() == 4 && ZFS@.len() == 3);
    assert(EXT3@[3] != EXT4@[3]);
}

/// The two networking modes have two different names.
pub proof fn lemma_modes_distinct()
    ensures
        DHCP@ != STATIC@,
{
    reveal_strlit("DHCP");
    reveal_strlit("Static");
    assert(DHCP@.len() == 4 && STATIC@.len() == 6);
}

/// The values of the RAID setting are five different texts.
pub proof fn lemma_raid_settings_distinct()
    ensures
        "0"@ != "1"@ && "0"@ != "5"@ && "0"@ != "10"@,
        "1"@ != "5"@ && "1"@ != "10"@ && "5"@ != "10"@,
        NO_RAID@ != "0"@ && NO_RAID@ != "1"@ && NO_RAID@ != "5"@ && NO_RAID@ != "10"@,
{
    reveal_strlit("0");
    reveal_strlit("1");
    reveal_strlit("5");
    reveal_strlit("10");
    reveal_strlit("No raid");
    assert("0"@.len() == 1 && "1"@.len() == 1 && "5"@.len() == 1 && "10"@.len() == 2);
    assert(NO_RAID@.len() == 7);
    assert("0"@[0] == '0' && "1"@[0] == '1' && "5"@[0] == '5');
}

/// Decides `is_filesystem`.
pub fn is_filesystem_value(value: &str) -> (known: bool)
    ensures
        known == is_filesystem(value@),
{
    str_eq(value, SQUASHFS) || str_eq(value, EXT3) || str_eq(value, EXT4) || str_eq(value, ZFS)
}

/// Decides `is_network_mode`.
pub fn is_network_mode_value(value: &str) -> (known: bool)
    ensures
        known == is_network_mode(value@),
{
    str_eq(value, DHCP) || str_eq(value, STATIC)
}

/// Decides `is_raid_level`.
pub fn is_raid_level_value(value: &str) -> (known: bool)
    ensures
        known == is_raid_level(value@),
{
    str_eq(value, "0") || str_eq(value, "1") || str_eq(value, "5") || str_eq(value, "10")
}

/// Decides `is_raid_setting`.
pub fn is_raid_setting_value(value: &str) -> (known: bool)
    ensures
        known == is_raid_setting(value@),
{
    is_raid_level_value(value) || str_eq(value, NO_RAID)
}

/// Decides `allowed` for a setting and a value.
pub fn is_allowed(key: &str, value: &str) -> (ok: bool)
    ensures
        ok == allowed(key@, value@),
{
    if str_eq(key, FS) {
        is_filesystem_value(value)
    } else if str_eq(key, RAID) {
        is_raid_setting_value(value)
    } else if str_eq(key, NETWORKING) {
        is_network_mode_value(value)
    } else {
        true
    }
}

} // verus!
