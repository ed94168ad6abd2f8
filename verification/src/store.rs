//! The configuration store of an installer session and its writer.

use vstd::prelude::*;
use vstd::hash_map::StringHashMap;
use crate::data::{allowed, is_allowed, DHCP, DNS, FS, GATEWAY, NETWORKING, NO_RAID, RAID, SQUASHFS, SUBNET};

verus! {

/// Why a write into the store was refused.
#[derive(Clone, Copy, Debug, PartialEq, Eq, Structural)]
pub enum ConfigError {
    /// The value lies outside the domain of the setting.
    Validation,
    /// The backing storage did not accept the value.
    Persistence,
}

/// Outcome of a user action that was written into the store.
#[derive(Clone, Copy, Debug, PartialEq, Eq, Structural)]
pub enum StepResult {
    /// The value is stored and the wizard stays on its step.
    PersistOnly,
    /// The value is stored and the wizard moves to the next step.
    PersistAndAdvance,
}

/// A write that a user action asks for: the setting, the value, and
/// whether the wizard advances once the value is stored.
#[derive(Clone, Debug, PartialEq, Eq)]
pub struct StoreWrite {
    pub key: String,
    pub value: String,
    pub is_final: bool,
}

impl View for StoreWrite {
    type V = (Seq<char>, Seq<char>, bool);

    open spec fn view(&self) -> (Seq<char>, Seq<char>, bool) {
        (self.key@, self.value@, self.is_final)
    }
}

impl StoreWrite {
    /// The write of `value` under `key`.
    pub fn new(key: &str, value: &str, is_final: bool) -> (write: StoreWrite)
        ensures
            write@ == (key@, value@, is_final),
    {
        StoreWrite { key: key.to_owned(), value: value.to_owned(), is_final }
    }
}

/// The outcome that a successful write with the given flag has.
pub open spec fn step_result(is_final: bool) -> StepResult {
    if is_final {
        StepResult::PersistAndAdvance
    } else {
        StepResult::PersistOnly
    }
}

/// The settings that every panel may read: a store holds all of them from
/// its creation on.
pub open spec fn seeded(settings: Map<Seq<char>, Seq<char>>) -> bool {
    &&& settings.contains_key(FS@)
    &&& settings.contains_key(RAID@)
    &&& settings.contains_key(NETWORKING@)
    &&& settings.contains_key(SUBNET@)
    &&& settings.contains_key(GATEWAY@)
    &&& settings.contains_key(DNS@)
}

/// The settings of a fresh store.
pub open spec fn defaults() -> Map<Seq<char>, Seq<char>> {
    Map::<Seq<char>, Seq<char>>::empty()
        .insert(FS@, SQUASHFS@)
        .insert(RAID@, NO_RAID@)
        .insert(NETWORKING@, DHCP@)
        .insert(SUBNET@, ""@)
        .insert(GATEWAY@, ""@)
        .insert(DNS@, ""@)
}

/// What a write returns: a value outside the setting's
/// domain is refused first, then a value that the backing storage did not
/// take; otherwise the write succeeds with the outcome that `is_final` names.
pub open spec fn write_result(
    key: Seq<char>,
    value: Seq<char>,
    is_final: bool,
    persisted: bool,
) -> Result<StepResult, ConfigError> {
    if !allowed(key, value) {
        Err(ConfigError::Validation)
    } else if !persisted {
        Err(ConfigError::Persistence)
    } else {
        Ok(step_result(is_final))
    }
}

/// The settings after a write: a successful write replaces
/// the value under `key`, a refused one changes nothing.
pub open spec fn write_effect(
    settings: Map<Seq<char>, Seq<char>>,
    key: Seq<char>,
    value: Seq<char>,
    persisted: bool,
) -> Map<Seq<char>, Seq<char>> {
    if allowed(key, value) && persisted {
        settings.insert(key, value)
    } else {
        settings
    }
}

/// A write that fails, for either reason, leaves every setting as it was
/// and does not let the wizard advance.
pub proof fn lemma_failed_write_keeps_store(
    settings: Map<Seq<char>, Seq<char>>,
    key: Seq<char>,
    value: Seq<char>,
    is_final: bool,
    persisted: bool,
)
    requires
        write_result(key, value, is_final, persisted) is Err,
    ensures
        write_effect(settings, key, value, persisted) == settings,
        write_result(key, value, is_final, persisted) != Ok::<StepResult, ConfigError>(
            StepResult::PersistAndAdvance,
        ),
        !persisted && allowed(key, value) ==> write_result(key, value, is_final, persisted) == Err::<
            StepResult,
            ConfigError,
        >(ConfigError::Persistence),
{
}

/// A write that succeeds puts the value under its setting, whatever stood
/// there, touches no other setting, and advances exactly when it is final.
pub proof fn lemma_last_write_wins(
    settings: Map<Seq<char>, Seq<char>>,
    key: Seq<char>,
    value: Seq<char>,
    is_final: bool,
    other: Seq<char>,
)
    requires
        allowed(key, value),
        other != key,
    ensures
        write_effect(settings, key, value, true)[key] == value,
        write_effect(settings, key, value, true).contains_key(other) == settings.contains_key(other),
        settings.contains_key(other) ==> write_effect(settings, key, value, true)[other]
            == settings[other],
        (write_result(key, value, is_final, true) == Ok::<StepResult, ConfigError>(
            StepResult::PersistAndAdvance,
        )) == is_final,
{
}

/// The settings of one installer session, by name.
pub struct ConfigStore {
    map: StringHashMap<String>,
}

impl View for ConfigStore {
    type V = Map<Seq<char>, Seq<char>>;

    closed spec fn view(&self) -> Map<Seq<char>, Seq<char>> {
        self.map@.map_values(|value: String| value@)
    }
}

impl ConfigStore {
    /// Well-formedness: the store holds every well-known setting. `new`
    /// establishes it and every method keeps it.
    pub open spec fn wf(&self) -> bool {
        seeded(self@)
    }

    /// A store that holds the default of every well-known setting.
    pub fn new() -> (store: ConfigStore)
        ensures
            store.wf(),
            store@ == defaults(),
    {
        let mut map: StringHashMap<String> = StringHashMap::new();
        map.insert(FS.to_owned(), SQUASHFS.to_owned());
        map.insert(RAID.to_owned(), NO_RAID.to_owned());
        map.insert(NETWORKING.to_owned(), DHCP.to_owned());
        map.insert(SUBNET.to_owned(), "".to_owned());
        map.insert(GATEWAY.to_owned(), "".to_owned());
        map.insert(DNS.to_owned(), "".to_owned());
        let store = ConfigStore { map };
        assert(store@ =~= defaults());
        store
    }

    /// Puts a value from an earlier session under `key`, as it is: the
    /// value is not held to the setting's domain.
    pub fn seed(&mut self, key: &str, value: &str)
        requires
            old(self).wf(),
        ensures
            final(self).wf(),
            final(self)@ == old(self)@.insert(key@, value@),
    {
        self.map.insert(key.to_owned(), value.to_owned());
        assert(self@ =~= old(self)@.insert(key@, value@));
    }

    /// The value stored under `key`, if the store holds one.
    pub fn get(&self, key: &str) -> (value: Option<String>)
        ensures
            match value {
                Some(text) => self@.contains_key(key@) && text@ == self@[key@],
                None => !self@.contains_key(key@),
            },
    {
        match self.map.get(key) {
            Some(text) => Some(text.clone()),
            None => None,
        }
    }

    /// The value of a setting that the store holds.
    pub fn read(&self, key: &str) -> (text: String)
        requires
            self@.contains_key(key@),
        ensures
            text@ == self@[key@],
    {
        let stored = self.map.get(key);
        stored.unwrap().clone()
    }

    /// Whether a write of `value` under `key` would pass validation.
    pub fn validate(key: &str, value: &str) -> (result: Result<(), ConfigError>)
        ensures
            result == (if allowed(key@, value@) {
                Ok::<(), ConfigError>(())
            } else {
                Err::<(), ConfigError>(ConfigError::Validation)
            }),
    {
        if is_allowed(key, value) {
            Ok(())
        } else {
            Err(ConfigError::Validation)
        }
    }

    /// Writes `value` under `key`; the last write wins. `persisted` says
    /// whether the backing storage took the value. A refused write leaves
    /// the store as it was. The writer does not navigate: on success it
    /// tells the caller whether to advance.
    pub fn write(&mut self, key: &str, value: &str, is_final: bool, persisted: bool) -> (result:
        Result<StepResult, ConfigError>)
        requires
            old(self).wf(),
        ensures
            final(self).wf(),
            result == write_result(key@, value@, is_final, persisted),
            final(self)@ == write_effect(old(self)@, key@, value@, persisted),
    {
        if !is_allowed(key, value) {
            return Err(ConfigError::Validation);
        }
        if !persisted {
            return Err(ConfigError::Persistence);
        }
        self.map.insert(key.to_owned(), value.to_owned());
        assert(self@ =~= old(self)@.insert(key@, value@));
        if is_final {
            Ok(StepResult::PersistAndAdvance)
        } else {
            Ok(StepResult::PersistOnly)
        }
    }
}

} // verus!
