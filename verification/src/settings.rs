//! The stored settings as a source of current values.

use vstd::prelude::*;
use ahash::AHashMap;
use crate::resolve::SettingsValue;
use crate::store::{settings_entries, settings_map_get, settings_map_new};

verus! {

/// The settings that are stored, by key.
#[derive(Debug)]
pub struct Settings {
    pub values: AHashMap<String, String>,
}

impl Settings {
    /// What the store holds, by key.
    pub open spec fn entries(&self) -> Map<Seq<char>, Seq<char>> {
        settings_entries(self.values)
    }
}

impl Default for Settings {
    /// A store that holds nothing.
    fn default() -> (settings: Self)
        ensures
            settings.entries() =~= Map::empty(),
    {
        Settings { values: settings_map_new() }
    }
}

impl SettingsValue for Settings {
    /// Every setting that is stored, with its value.
    open spec fn values(&self) -> Map<Seq<char>, Seq<char>> {
        self.entries()
    }

    fn get(&self, key: &str) -> (value: Option<&str>) {
        settings_map_get(&self.values, key)
    }
}

} // verus!
