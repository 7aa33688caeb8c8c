//! Integrity of references: every condition, every view and every dynamic
//! selection names a field or a schema that is registered.
//!
//! Fields and schemas are never removed, so what is registered only grows,
//! and a reference that was good when it was made stays good.

use vstd::prelude::*;
use std::sync::Arc;
use crate::builder::Builder;
use crate::model::{Eval, Field, Schema, Section, Source, Type, Value};
use crate::registry::Schemas;

verus! {

/// Whether every condition of `evals` reads a field whose id is in `known`.
pub open spec fn conditions_refer_to(evals: Seq<Eval>, known: Set<Seq<char>>) -> bool {
    forall|i: int| 0 <= i < evals.len() ==> known.contains((#[trigger] evals[i]).field.id@)
}

/// Whether every field of `fields` has an id that is in `known`.
pub open spec fn fields_among(fields: Seq<Arc<Field>>, known: Set<Seq<char>>) -> bool {
    forall|i: int| 0 <= i < fields.len() ==> known.contains((#[trigger] fields[i]).id@)
}

impl<T> Value<T> {
    /// Whether the condition of every rule reads a field whose id is in
    /// `known`.
    pub open spec fn refers_to(&self, known: Set<Seq<char>>) -> bool {
        forall|i: int|
            0 <= i < self.if_thens@.len() ==> known.contains(
                (#[trigger] self.if_thens@[i]).eval.field.id@,
            )
    }
}

impl Field {
    /// Whether everything that the field refers to is there: its conditions
    /// read fields in `known`, and a selection from another schema's field
    /// names a schema in `schemas` and a field in `known`.
    pub open spec fn refers_to(&self, known: Set<Seq<char>>, schemas: Set<Seq<char>>) -> bool {
        &&& conditions_refer_to(self.display@, known)
        &&& self.checks.refers_to(known)
        &&& self.default.refers_to(known)
        &&& self.placeholder.refers_to(known)
        &&& (self.typ_ matches Type::Select(Source::Dynamic { schema, field }) ==> schemas.contains(
            schema@,
        ) && known.contains(field@))
    }
}

impl Section {
    /// Whether the fields of the section and the fields that its conditions
    /// read have ids in `known`.
    pub open spec fn refers_to(&self, known: Set<Seq<char>>) -> bool {
        conditions_refer_to(self.display@, known) && fields_among(self.fields@, known)
    }
}

impl Schema {
    /// Whether the schema is sound among the schemas `schemas`: every field
    /// is registered under its own id and refers to what is there, and the
    /// list view and the sections of the form name registered fields only.
    pub open spec fn is_sound(&self, schemas: Set<Seq<char>>) -> bool {
        let known = self.registered().dom();
        &&& forall|id: Seq<char>| #[trigger]
            known.contains(id) ==> self.registered()[id].id@ == id && self.registered()[id].refers_to(
                known,
                schemas,
            )
        &&& fields_among(self.list.fields@, known)
        &&& forall|i: int|
            0 <= i < self.form.sections@.len() ==> (#[trigger] self.form.sections@[i]).refers_to(
                known,
            )
    }
}

impl Schemas {
    /// Whether the registry is sound: every schema is registered under its
    /// own id and is sound among the schemas of the registry.
    pub open spec fn is_sound(&self) -> bool {
        forall|id: Seq<char>| #[trigger]
            self.registered().contains_key(id) ==> self.registered()[id].id@ == id
                && self.registered()[id].is_sound(self.registered().dom())
    }
}

impl Builder<Schemas, ()> {
    /// Whether the registry built so far is sound.
    pub open spec fn is_sound(&self) -> bool {
        self.parent.is_sound()
    }
}

impl Builder<Schemas, Schema> {
    /// Whether the registry built so far is sound, and the schema in
    /// progress is sound among its schemas.
    pub open spec fn is_sound(&self) -> bool {
        self.parent.is_sound() && self.item.is_sound(self.parent.registered().dom())
    }
}

impl Builder<(Schemas, Schema), Field> {
    /// Whether the registry and the schema in progress are sound, and the
    /// field in progress refers to what is registered in them.
    pub open spec fn is_sound(&self) -> bool {
        &&& self.parent.0.is_sound()
        &&& self.parent.1.is_sound(self.parent.0.registered().dom())
        &&& self.item.refers_to(self.parent.1.registered().dom(), self.parent.0.registered().dom())
    }
}

impl Builder<(Schemas, Schema), Section> {
    /// Whether the registry and the schema in progress are sound, and the
    /// section in progress names registered fields only.
    pub open spec fn is_sound(&self) -> bool {
        &&& self.parent.0.is_sound()
        &&& self.parent.1.is_sound(self.parent.0.registered().dom())
        &&& self.item.refers_to(self.parent.1.registered().dom())
    }
}

/// A field that refers to what is there still does when more is there.
pub proof fn lemma_field_refers_to_more(
    field: Field,
    known: Set<Seq<char>>,
    schemas: Set<Seq<char>>,
    more_known: Set<Seq<char>>,
    more_schemas: Set<Seq<char>>,
)
    requires
        field.refers_to(known, schemas),
        known.subset_of(more_known),
        schemas.subset_of(more_schemas),
    ensures
        field.refers_to(more_known, more_schemas),
{
}

/// A schema that is sound among some schemas is sound among more.
pub proof fn lemma_schema_sound_among_more(
    schema: Schema,
    schemas: Set<Seq<char>>,
    more_schemas: Set<Seq<char>>,
)
    requires
        schema.is_sound(schemas),
        schemas.subset_of(more_schemas),
    ensures
        schema.is_sound(more_schemas),
{
    let known = schema.registered().dom();
    assert forall|id: Seq<char>| #[trigger] known.contains(id) implies schema.registered()[id].id@
        == id && schema.registered()[id].refers_to(known, more_schemas) by {
        lemma_field_refers_to_more(*schema.registered()[id], known, schemas, known, more_schemas);
    }
}

/// A sound schema stays sound when a field that refers to what is
/// registered is registered in it under its own id.
pub proof fn lemma_schema_sound_with_field(
    schema: Schema,
    schemas: Set<Seq<char>>,
    field: Field,
    after: Schema,
)
    requires
        schema.is_sound(schemas),
        field.refers_to(schema.registered().dom(), schemas),
        after.list == schema.list,
        after.form == schema.form,
        after.registered() == schema.registered().insert(field.id@, Arc::new(field)),
    ensures
        after.is_sound(schemas),
{
    let known = schema.registered().dom();
    let more = after.registered().dom();
    assert(known.subset_of(more));
    assert forall|id: Seq<char>| #[trigger] more.contains(id) implies after.registered()[id].id@
        == id && after.registered()[id].refers_to(more, schemas) by {
        if id == field.id@ {
            lemma_field_refers_to_more(field, known, schemas, more, schemas);
        } else {
            assert(known.contains(id));
            lemma_field_refers_to_more(*schema.registered()[id], known, schemas, more, schemas);
        }
    }
    assert forall|i: int| 0 <= i < after.form.sections@.len() implies (
    #[trigger] after.form.sections@[i]).refers_to(more) by {
        assert(schema.form.sections@[i].refers_to(known));
    }
}

/// A sound registry stays sound when a schema that is sound among its
/// schemas is registered in it under its own id.
pub proof fn lemma_registry_sound_with_schema(before: Schemas, schema: Schema, after: Schemas)
    requires
        before.is_sound(),
        schema.is_sound(before.registered().dom()),
        after.registered() == before.registered().insert(schema.id@, Arc::new(schema)),
    ensures
        after.is_sound(),
{
    let old_ids = before.registered().dom();
    let new_ids = after.registered().dom();
    assert(old_ids.subset_of(new_ids));
    assert forall|id: Seq<char>| #[trigger]
        after.registered().contains_key(id) implies after.registered()[id].id@ == id
        && after.registered()[id].is_sound(new_ids) by {
        if id == schema.id@ {
            lemma_schema_sound_among_more(schema, old_ids, new_ids);
        } else {
            assert(before.registered().contains_key(id));
            lemma_schema_sound_among_more(*before.registered()[id], old_ids, new_ids);
        }
    }
}

} // verus!
