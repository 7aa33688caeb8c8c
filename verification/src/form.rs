//! The values of a form that is being filled in for a schema.

use vstd::prelude::*;
use std::sync::Arc;
use ahash::AHashMap;
use crate::model::Schema;
use crate::resolve::SettingsValue;
use crate::store::{form_entries, form_map_get, form_map_new};

verus! {

/// What a form holds for one field.
#[derive(Clone, Debug)]
pub enum FormValue {
    /// A single value.
    Value(String),
    /// The entries of a field that takes several.
    Array(Vec<String>),
}

/// A form for one schema: the values entered so far, the errors found in
/// them, and whether the form changes an entry that exists.
#[derive(Debug)]
pub struct FormData {
    pub values: AHashMap<String, FormValue>,
    pub errors: Vec<(String, String)>,
    pub schema: Arc<Schema>,
    pub is_update: bool,
}

impl FormData {
    /// What the form holds, by field id.
    pub open spec fn entries(&self) -> Map<Seq<char>, FormValue> {
        form_entries(self.values)
    }

    /// Whether the form is the empty form for `schema`: no value, no error,
    /// and not an update.
    pub open spec fn is_empty_for(&self, schema: Arc<Schema>) -> bool {
        &&& self.entries() =~= Map::empty()
        &&& self.errors@.len() == 0
        &&& self.schema == schema
        &&& !self.is_update
    }
}

impl SettingsValue for FormData {
    /// The fields that hold a single value, each with that value.
    open spec fn values(&self) -> Map<Seq<char>, Seq<char>> {
        Map::new(
            |id: Seq<char>| self.entries().contains_key(id) && self.entries()[id] is Value,
            |id: Seq<char>| self.entries()[id]->Value_0@,
        )
    }

    fn get(&self, key: &str) -> (value: Option<&str>) {
        match form_map_get(&self.values, key) {
            Some(FormValue::Value(s)) => Some(s.as_str()),
            _ => None,
        }
    }
}

impl From<Arc<Schema>> for FormData {
    /// The empty form for `schema`.
    fn from(schema: Arc<Schema>) -> (form: Self)
        ensures
            form.is_empty_for(schema),
    {
        FormData { values: form_map_new(), errors: Vec::new(), schema, is_update: false }
    }
}

impl vstd::std_specs::convert::FromSpecImpl<Arc<Schema>> for FormData {
    /// An empty form is told by what it holds, not by a value to compare
    /// with: see `is_empty_for`.
    open spec fn obeys_from_spec() -> bool {
        false
    }

    open spec fn from_spec(schema: Arc<Schema>) -> Self {
        arbitrary()
    }
}

} // verus!
