//! The registry: every schema of the process, by id.

use vstd::prelude::*;
use std::sync::Arc;
use ahash::AHashMap;
use crate::builder::Builder;
use crate::form::FormData;
use crate::model::Schema;
use crate::store::{schema_entries, schema_map_get, schema_map_new};

verus! {

/// The schemas that were built, by id. The registry is filled once, through
/// its builder, and only read afterwards.
#[derive(Debug)]
pub struct Schemas {
    pub schemas: AHashMap<&'static str, Arc<Schema>>,
}

impl Default for Schemas {
    fn default() -> (registry: Self)
        ensures
            registry.registered() =~= Map::empty(),
    {
        Schemas { schemas: schema_map_new() }
    }
}

impl Schemas {
    /// The schemas of the registry, by the id they were registered under.
    pub open spec fn registered(&self) -> Map<Seq<char>, Arc<Schema>> {
        schema_entries(self.schemas)
    }

    /// Whether every schema is registered under its own id.
    pub open spec fn well_formed(&self) -> bool {
        forall|id: Seq<char>| #[trigger]
            self.registered().contains_key(id) ==> self.registered()[id].id@ == id
    }

    /// The schema registered under `id`.
    ///
    /// Schema ids are written into the program, so an id that is not
    /// registered is a mistake in the caller: the contract rules it out, and
    /// there is no error to return.
    pub fn get(&self, id: &str) -> (schema: Arc<Schema>)
        requires
            self.registered().contains_key(id@),
        ensures
            schema == self.registered()[id@],
            self.well_formed() ==> schema.id@ == id@,
            self.is_sound() ==> schema.is_sound(self.registered().dom()),
    {
        match schema_map_get(&self.schemas, id) {
            Some(schema) => schema,
            None => vstd::pervasive::unreached(),
        }
    }

    /// An empty form for the schema registered under `id`.
    pub fn build_form(&self, id: &str) -> (form: FormData)
        requires
            self.registered().contains_key(id@),
        ensures
            form.is_empty_for(self.registered()[id@]),
    {
        FormData::from(self.get(id))
    }

    /// A builder that starts from an empty registry.
    pub fn builder() -> (start: Builder<Schemas, ()>)
        ensures
            start.parent.registered() =~= Map::empty(),
            start.parent.well_formed(),
            start.is_sound(),
    {
        Builder { parent: Schemas::default(), item: () }
    }
}

} // verus!
