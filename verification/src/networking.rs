//! The networking step: the choice between DHCP and a static
//! configuration, and the nested panel with the static fields.

use vstd::prelude::*;
use crate::data::{
    allowed, lemma_modes_distinct, lemma_settings_distinct, DHCP, DNS, FS, GATEWAY, NETWORKING,
    RAID, STATIC, SUBNET,
};
use crate::select::{
    option_pairs, push_options, select_focus, select_items, select_new, select_set_selection,
    Panel, SelectionOption,
};
use crate::store::{
    write_effect, write_result, ConfigError, ConfigStore, StepResult, StoreWrite,
};
use crate::text::str_eq;

verus! {

/// Title of the networking dialog.
pub const NET_TITLE: &'static str = "Networking configuration";

/// Position of a stored networking mode in the choice list; anything that
/// is no networking mode counts as DHCP.
pub open spec fn net_index(value: Seq<char>) -> int {
    if value == DHCP@ {
        0
    } else if value == STATIC@ {
        1
    } else {
        0
    }
}

/// The entries of the mode choice: each mode under its own name.
pub open spec fn net_choices() -> Seq<(Seq<char>, Seq<char>)> {
    seq![(DHCP@, DHCP@), (STATIC@, STATIC@)]
}

/// Position of the stored networking mode `value` in the choice list.
pub fn get_net_index(value: &str) -> (index: usize)
    ensures
        index == net_index(value@),
{
    if str_eq(value, DHCP) {
        0
    } else if str_eq(value, STATIC) {
        1
    } else {
        0
    }
}

/// The entries of the mode choice.
pub fn net_options() -> (options: Vec<SelectionOption>)
    ensures
        option_pairs(options@) == net_choices(),
{
    let mut options: Vec<SelectionOption> = Vec::new();
    options.push(SelectionOption::new(DHCP, DHCP));
    options.push(SelectionOption::new(STATIC, STATIC));
    assert(option_pairs(options@) =~= net_choices());
    options
}

/// The mode choice for the stored networking mode: DHCP and Static, with
/// the stored mode in focus, or DHCP where the store holds neither.
pub fn get_networking(store: &ConfigStore) -> (panel: Panel)
    requires
        store.wf(),
    ensures
        panel.title@ == NET_TITLE@,
        panel.name@ == NETWORKING@,
        select_items(panel.view) == net_choices(),
        select_focus(panel.view) == net_index(store@[NETWORKING@]),
{
    let mode = store.read(NETWORKING);
    let options = net_options();
    let mut view = select_new();
    push_options(&mut view, &options, 0, options.len());
    assert(select_items(view) =~= net_choices());
    select_set_selection(&mut view, get_net_index(mode.as_str()));
    Panel { title: NET_TITLE.to_owned(), name: NETWORKING.to_owned(), view }
}

/// One of the free-text fields of a static network configuration.
#[derive(Clone, Copy, Debug, PartialEq, Eq, Structural)]
pub enum StaticField {
    Subnet,
    Gateway,
    Dns,
}

/// The setting that a static field is stored under.
pub open spec fn field_key(field: StaticField) -> Seq<char> {
    match field {
        StaticField::Subnet => SUBNET@,
        StaticField::Gateway => GATEWAY@,
        StaticField::Dns => DNS@,
    }
}

impl StaticField {
    /// The setting that the field is stored under.
    pub fn key(self) -> (key: &'static str)
        ensures
            key@ == field_key(self),
    {
        match self {
            StaticField::Subnet => SUBNET,
            StaticField::Gateway => GATEWAY,
            StaticField::Dns => DNS,
        }
    }
}

/// The texts that the fields of the nested panel open with.
#[derive(Clone, Debug, PartialEq, Eq)]
pub struct StaticFields {
    pub subnet: String,
    pub gateway: String,
    pub dns: String,
}

impl View for StaticFields {
    type V = (Seq<char>, Seq<char>, Seq<char>);

    open spec fn view(&self) -> (Seq<char>, Seq<char>, Seq<char>) {
        (self.subnet@, self.gateway@, self.dns@)
    }
}

/// What the choice of a networking mode asks for: the write of the mode,
/// and the nested panel to open, if any.
#[derive(Clone, Debug, PartialEq, Eq)]
pub struct NetworkChoice {
    pub write: StoreWrite,
    pub nested: Option<StaticFields>,
}

/// The write that the choice of the mode `v` asks for: the mode goes under
/// the networking setting, and the write is final for DHCP alone.
pub open spec fn mode_write(v: Seq<char>) -> (Seq<char>, Seq<char>, bool) {
    (NETWORKING@, v, v == DHCP@)
}

/// Whether the choice of the mode `v` opens the nested panel: every choice
/// but DHCP does.
pub open spec fn opens_nested(v: Seq<char>) -> bool {
    v != DHCP@
}

/// The texts of the static fields as the settings hold them.
pub open spec fn stored_fields(settings: Map<Seq<char>, Seq<char>>) -> (Seq<char>, Seq<char>, Seq<
    char,
>) {
    (settings[SUBNET@], settings[GATEWAY@], settings[DNS@])
}

/// The texts that the nested panel opens with after the choice of the mode
/// `v`, or `None` where the choice opens no panel.
pub open spec fn nested_fields(v: Seq<char>, settings: Map<Seq<char>, Seq<char>>) -> Option<
    (Seq<char>, Seq<char>, Seq<char>),
> {
    if opens_nested(v) {
        Some(stored_fields(settings))
    } else {
        None
    }
}

/// Decides what the choice of the mode `v` asks for.
///
/// DHCP ends the step: its write is final and no panel is opened. Any other
/// choice is stored as a mode that is not complete yet, with a write that
/// is not final, and opens the nested panel, its fields filled with the
/// subnet, gateway and DNS server that the store holds.
pub fn network_config(v: &str, store: &ConfigStore) -> (choice: NetworkChoice)
    requires
        store.wf(),
    ensures
        choice.write@ == mode_write(v@),
        match choice.nested {
            None => nested_fields(v@, store@) is None,
            Some(fields) => nested_fields(v@, store@) == Some(fields@),
        },
{
    if str_eq(v, DHCP) {
        NetworkChoice { write: StoreWrite::new(NETWORKING, v, true), nested: None }
    } else {
        let fields = StaticFields {
            subnet: store.read(SUBNET),
            gateway: store.read(GATEWAY),
            dns: store.read(DNS),
        };
        NetworkChoice { write: StoreWrite::new(NETWORKING, v, false), nested: Some(fields) }
    }
}

/// The write that an edit of a static field asks for: the new text goes
/// into the store at once, and the wizard stays where it is.
pub fn static_edit(field: StaticField, text: &str) -> (write: StoreWrite)
    ensures
        write@ == (field_key(field), text@, false),
{
    StoreWrite::new(field.key(), text, false)
}

/// Where the networking step stands.
#[derive(Clone, Copy, Debug, PartialEq, Eq, Structural)]
pub enum NetworkStage {
    /// The choice between DHCP and Static is shown.
    ModeChoice,
    /// The nested panel with the static fields is open.
    StaticFields,
    /// The step is over and the wizard has moved on.
    Advanced,
}

/// What happened in the networking step.
#[derive(Clone, Copy, Debug, PartialEq, Eq, Structural)]
pub enum NetworkEvent {
    /// DHCP was chosen; `stored` says whether its write succeeded.
    DhcpChosen { stored: bool },
    /// Static was chosen.
    StaticChosen,
    /// The static fields were confirmed.
    Confirmed,
}

/// The stage after an event. DHCP, once stored, ends the step; Static
/// opens the static fields; confirming them ends the step. An event that a
/// stage does not take leaves the stage as it is: there is no way back
/// from the static fields to the mode choice.
pub open spec fn next_stage(stage: NetworkStage, event: NetworkEvent) -> NetworkStage {
    match (stage, event) {
        (NetworkStage::ModeChoice, NetworkEvent::DhcpChosen { stored: true }) => {
            NetworkStage::Advanced
        },
        (NetworkStage::ModeChoice, NetworkEvent::StaticChosen) => NetworkStage::StaticFields,
        (NetworkStage::StaticFields, NetworkEvent::Confirmed) => NetworkStage::Advanced,
        _ => stage,
    }
}

/// Takes the networking step from one stage to the next.
pub fn network_step(stage: NetworkStage, event: NetworkEvent) -> (next: NetworkStage)
    ensures
        next == next_stage(stage, event),
{
    match (stage, event) {
        (NetworkStage::ModeChoice, NetworkEvent::DhcpChosen { stored: true }) => {
            NetworkStage::Advanced
        },
        (NetworkStage::ModeChoice, NetworkEvent::StaticChosen) => NetworkStage::StaticFields,
        (NetworkStage::StaticFields, NetworkEvent::Confirmed) => NetworkStage::Advanced,
        _ => stage,
    }
}

/// Choosing DHCP ends the step: its write stores DHCP as the networking
/// mode and is final, no nested panel is opened, and once the backing
/// storage has taken the write the wizard advances.
pub proof fn lemma_dhcp_ends_the_step(settings: Map<Seq<char>, Seq<char>>)
    ensures
        mode_write(DHCP@) == (NETWORKING@, DHCP@, true),
        nested_fields(DHCP@, settings) is None,
        write_result(NETWORKING@, DHCP@, true, true) == Ok::<StepResult, ConfigError>(
            StepResult::PersistAndAdvance,
        ),
        next_stage(NetworkStage::ModeChoice, NetworkEvent::DhcpChosen { stored: true })
            == NetworkStage::Advanced,
{
    lemma_settings_distinct();
}

/// Choosing Static does not end the step: its write stores Static as the
/// networking mode and is not final, the nested panel is opened with the
/// subnet, gateway and DNS server that the store holds, and the wizard
/// stays on the step when the write has been taken.
pub proof fn lemma_static_opens_the_fields(settings: Map<Seq<char>, Seq<char>>)
    ensures
        mode_write(STATIC@) == (NETWORKING@, STATIC@, false),
        nested_fields(STATIC@, settings) == Some(
            (settings[SUBNET@], settings[GATEWAY@], settings[DNS@]),
        ),
        write_result(NETWORKING@, STATIC@, false, true) == Ok::<StepResult, ConfigError>(
            StepResult::PersistOnly,
        ),
        next_stage(NetworkStage::ModeChoice, NetworkEvent::StaticChosen)
            == NetworkStage::StaticFields,
{
    lemma_modes_distinct();
    lemma_settings_distinct();
}

/// The settings of the static fields are none of the enumerated settings,
/// so every text is in their domain.
pub proof fn lemma_static_fields_free_form(field: StaticField, text: Seq<char>)
    ensures
        field_key(field) != FS@,
        field_key(field) != RAID@,
        field_key(field) != NETWORKING@,
        allowed(field_key(field), text),
{
    lemma_settings_distinct();
}

/// An edit of a static field is in the store as soon as the backing
/// storage has taken it, whatever the text is and without the fields being
/// confirmed: the write succeeds, is not final, and the store then holds
/// the text under the field's setting.
pub proof fn lemma_edit_persists_at_once(
    settings: Map<Seq<char>, Seq<char>>,
    field: StaticField,
    text: Seq<char>,
)
    ensures
        write_result(field_key(field), text, false, true) == Ok::<StepResult, ConfigError>(
            StepResult::PersistOnly,
        ),
        write_effect(settings, field_key(field), text, true)[field_key(field)] == text,
{
    lemma_static_fields_free_form(field, text);
}

} // verus!
