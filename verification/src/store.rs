//! The hash maps that hold schemas and fields, and the few std functions
//! that the engine calls without a specification from vstd.
//!
//! Everything in this file is trusted: the contracts state what the called
//! code is documented to do, and nothing here is proved.

use vstd::prelude::*;
use std::sync::Arc;
use ahash::AHashMap;
use crate::form::FormValue;
use crate::model::{Field, Schema};

verus! {

/// `ahash::AHashMap`. Nothing inside a map is visible to the proofs: what
/// it holds is named by the functions below, one for each kind of map that
/// the engine keeps.
#[verifier::external_type_specification]
#[verifier::external_body]
#[verifier::reject_recursive_types(K)]
#[verifier::reject_recursive_types(V)]
#[verifier::reject_recursive_types(S)]
pub struct ExAHashMap<K, V, S>(AHashMap<K, V, S>);

/// `ahash::RandomState`, the hasher state that an `AHashMap` has by default.
#[verifier::external_type_specification]
#[verifier::external_body]
pub struct ExRandomState(ahash::RandomState);

/// What a field map holds: the field stored under each id.
pub uninterp spec fn field_entries(m: AHashMap<&'static str, Arc<Field>>) -> Map<
    Seq<char>,
    Arc<Field>,
>;

/// What a schema map holds: the schema stored under each id.
pub uninterp spec fn schema_entries(m: AHashMap<&'static str, Arc<Schema>>) -> Map<
    Seq<char>,
    Arc<Schema>,
>;

/// `AHashMap::new`: a map that holds nothing.
#[verifier::external_body]
pub(crate) fn field_map_new() -> (m: AHashMap<&'static str, Arc<Field>>)
    ensures
        field_entries(m) =~= Map::empty(),
{
    AHashMap::new()
}

/// `AHashMap::get` with a `&str` key, and a clone of the handle that it
/// finds: the field stored under that id, if there is one. Keys are compared
/// as strings, so by their characters.
#[verifier::external_body]
pub(crate) fn field_map_get(m: &AHashMap<&'static str, Arc<Field>>, id: &str) -> (found: Option<
    Arc<Field>,
>)
    ensures
        found == (if field_entries(*m).contains_key(id@) {
            Some(field_entries(*m)[id@])
        } else {
            None
        }),
{
    m.get(id).cloned()
}

/// `AHashMap::insert`: afterwards the map holds the field under the id, in
/// place of any field that was stored under it, and every other entry as
/// before.
#[verifier::external_body]
pub(crate) fn field_map_insert(
    m: &mut AHashMap<&'static str, Arc<Field>>,
    id: &'static str,
    field: Arc<Field>,
)
    ensures
        field_entries(*final(m)) == field_entries(*old(m)).insert(id@, field),
{
    m.insert(id, field);
}

/// `AHashMap::new`: a map that holds nothing.
#[verifier::external_body]
pub(crate) fn schema_map_new() -> (m: AHashMap<&'static str, Arc<Schema>>)
    ensures
        schema_entries(m) =~= Map::empty(),
{
    AHashMap::new()
}

/// `AHashMap::get` with a `&str` key, and a clone of the handle that it
/// finds: the schema stored under that id, if there is one.
#[verifier::external_body]
pub(crate) fn schema_map_get(m: &AHashMap<&'static str, Arc<Schema>>, id: &str) -> (found: Option<
    Arc<Schema>,
>)
    ensures
        found == (if schema_entries(*m).contains_key(id@) {
            Some(schema_entries(*m)[id@])
        } else {
            None
        }),
{
    m.get(id).cloned()
}

/// `AHashMap::insert`: afterwards the map holds the schema under the id, in
/// place of any schema that was stored under it, and every other entry as
/// before.
#[verifier::external_body]
pub(crate) fn schema_map_insert(
    m: &mut AHashMap<&'static str, Arc<Schema>>,
    id: &'static str,
    schema: Arc<Schema>,
)
    ensures
        schema_entries(*final(m)) == schema_entries(*old(m)).insert(id@, schema),
{
    m.insert(id, schema);
}

/// `==` on `str`: true exactly when the two strings have the same
/// characters.
#[verifier::external_body]
pub(crate) fn str_eq(a: &str, b: &str) -> (same: bool)
    ensures
        same == (a@ == b@),
{
    a == b
}

/// `Arc::clone` on a field: another handle to the same field.
#[verifier::external_body]
pub(crate) fn share_field(field: &Arc<Field>) -> (shared: Arc<Field>)
    ensures
        shared == *field,
{
    Arc::clone(field)
}

/// What the values of a form hold: the value stored under each field id.
pub uninterp spec fn form_entries(m: AHashMap<String, FormValue>) -> Map<Seq<char>, FormValue>;

/// `AHashMap::new`: a map that holds nothing.
#[verifier::external_body]
pub(crate) fn form_map_new() -> (m: AHashMap<String, FormValue>)
    ensures
        form_entries(m) =~= Map::empty(),
{
    AHashMap::new()
}

/// `AHashMap::get` with a `&str` key: the value stored under that id, if
/// there is one.
#[verifier::external_body]
pub(crate) fn form_map_get<'a>(m: &'a AHashMap<String, FormValue>, id: &str) -> (found: Option<
    &'a FormValue,
>)
    ensures
        found.is_some() == form_entries(*m).contains_key(id@),
        found matches Some(value) ==> *value == form_entries(*m)[id@],
{
    m.get(id)
}

/// What a settings store holds: the value stored under each key.
pub uninterp spec fn settings_entries(m: AHashMap<String, String>) -> Map<Seq<char>, Seq<char>>;

/// `AHashMap::new`: a map that holds nothing.
#[verifier::external_body]
pub(crate) fn settings_map_new() -> (m: AHashMap<String, String>)
    ensures
        settings_entries(m) =~= Map::empty(),
{
    AHashMap::new()
}

/// `AHashMap::get` with a `&str` key: the value stored under that key, as
/// a string slice, if there is one.
#[verifier::external_body]
pub(crate) fn settings_map_get<'a>(m: &'a AHashMap<String, String>, key: &str) -> (found: Option<
    &'a str,
>)
    ensures
        found.is_some() == settings_entries(*m).contains_key(key@),
        found matches Some(value) ==> value@ == settings_entries(*m)[key@],
{
    m.get(key).map(|value| value.as_str())
}

} // verus!
