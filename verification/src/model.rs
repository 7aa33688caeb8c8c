//! The data model: schemas, fields, sections and conditional values.

use vstd::prelude::*;
use std::sync::Arc;
use ahash::AHashMap;
use crate::store::{field_entries, field_map_new, str_eq};

verus! {

/// One configuration entity type: its fields, its list view and its form.
#[derive(Debug)]
pub struct Schema {
    pub id: &'static str,
    pub name_singular: &'static str,
    pub name_plural: &'static str,
    pub fields: AHashMap<&'static str, Arc<Field>>,
    pub typ: SchemaType,
    pub list: List,
    pub form: Form,
}

/// How the entries of a schema are identified.
#[derive(Clone, Debug)]
pub enum SchemaType {
    Record { prefix: &'static str, suffix: &'static str },
    Entry { prefix: &'static str },
    List,
}

/// The list view of a schema.
#[derive(Clone, Debug)]
pub struct List {
    pub title: &'static str,
    pub subtitle: &'static str,
    pub fields: Vec<Arc<Field>>,
    pub actions: Vec<Action>,
    pub page_size: u32,
}

/// The form view of a schema.
#[derive(Clone, Debug)]
pub struct Form {
    pub title: &'static str,
    pub subtitle: &'static str,
    pub sections: Vec<Section>,
    pub actions: Vec<Action>,
}

/// What a user may do from a list or a form.
#[derive(Clone, Copy, PartialEq, Eq, Structural, Debug)]
pub enum Action {
    Create,
    Save,
    Cancel,
    Modify,
    Delete,
    Search,
}

/// A group of fields shown together in a form.
#[derive(Clone, Debug)]
pub struct Section {
    pub title: Option<&'static str>,
    pub display: Vec<Eval>,
    pub fields: Vec<Arc<Field>>,
}

/// One named, typed attribute of a schema.
#[derive(Clone, Debug)]
pub struct Field {
    pub id: &'static str,
    pub label_form: &'static str,
    pub label_column: &'static str,
    pub help: Option<&'static str>,
    pub checks: Value<InputCheck>,
    pub typ_: Type<&'static str, &'static str>,
    pub default: Value<&'static str>,
    pub placeholder: Value<&'static str>,
    pub display: Vec<Eval>,
    pub readonly: bool,
}

/// The kind of a field. `S` and `F` are what a dynamic source refers to a
/// schema and a field by; the fields of a schema refer to both by id.
#[derive(Clone, Debug)]
pub enum Type<S, F> {
    Input,
    Array,
    Secret,
    Text,
    Expression,
    Select(Source<S, F>),
    Checkbox,
    Duration,
    Size,
}

/// Where the labels of a selection come from.
#[derive(Clone, Debug)]
pub enum Source<S, F> {
    Static(&'static [(&'static str, &'static str)]),
    Dynamic { schema: S, field: F },
}

/// An ordered list of conditional values and a fallback.
#[derive(Clone, Debug)]
pub struct Value<T> {
    pub if_thens: Vec<IfThen<T>>,
    pub default: Option<T>,
}

/// A value and the condition under which it applies.
#[derive(Clone, Debug)]
pub struct IfThen<T> {
    pub eval: Eval,
    pub value: T,
}

/// A membership test on the current value of a field.
#[derive(Clone, Debug)]
pub struct Eval {
    pub field: Arc<Field>,
    pub values: Vec<&'static str>,
    pub condition: Condition,
}

#[derive(Clone, Copy, PartialEq, Eq, Structural, Debug)]
pub enum Condition {
    MatchAny,
    MatchNone,
}

/// The transformers and validators applied to a submitted value, each list
/// in the order of application.
#[derive(Clone, Debug, PartialEq, Eq)]
pub struct InputCheck {
    pub transformers: Vec<Transformer>,
    pub validators: Vec<Validator>,
}

#[derive(Clone, Copy, PartialEq, Eq, Structural, Debug)]
pub enum Transformer {
    Trim,
    RemoveSpaces,
    Lowercase,
    Uppercase,
}

#[derive(Clone, Copy, Debug, PartialEq, Eq)]
pub enum Validator {
    Required,
    IsEmail,
    IsCron,
    IsId,
    IsHost,
    IsDomain,
    IsPort,
    IsUrl,
    IsGlobPattern,
    IsRegexPattern,
    MinLength(usize),
    MaxLength(usize),
    MinValue(NumberType),
    MaxValue(NumberType),
    MinItems(usize),
    MaxItems(usize),
    IsValidExpression {
        variables: &'static [&'static str],
        functions: &'static [(&'static str, u32)],
        constants: &'static [&'static str],
    },
}

/// A numeric bound. A floating-point bound is held as the bit pattern of
/// its IEEE 754 double.
#[derive(Clone, Copy, Debug, PartialEq, Eq)]
pub enum NumberType {
    Integer(i64),
    Float(u64),
}

impl<S, F> Default for Type<S, F> {
    /// The default kind is an expression.
    fn default() -> (kind: Self)
        ensures
            kind is Expression,
    {
        Type::Expression
    }
}

impl Default for SchemaType {
    /// A schema starts out as a plain list.
    fn default() -> (typ: Self)
        ensures
            typ is List,
    {
        SchemaType::List
    }
}

impl<T> Value<T> {
    /// Whether the set has no rule and no fallback.
    pub open spec fn is_blank(&self) -> bool {
        self.if_thens@.len() == 0 && self.default is None
    }
}

impl<T> Default for Value<T> {
    fn default() -> (set: Self)
        ensures
            set.is_blank(),
    {
        Value { if_thens: Vec::new(), default: None }
    }
}

impl InputCheck {
    /// Whether both lists are empty.
    pub open spec fn is_blank(&self) -> bool {
        self.transformers@.len() == 0 && self.validators@.len() == 0
    }

    /// The checks with the given transformers and validators, each list in
    /// the order given.
    pub fn new(transformers: Vec<Transformer>, validators: Vec<Validator>) -> (check: Self)
        ensures
            check.transformers == transformers,
            check.validators == validators,
    {
        InputCheck { transformers, validators }
    }
}

impl Default for InputCheck {
    fn default() -> (check: Self)
        ensures
            check.is_blank(),
    {
        InputCheck { transformers: Vec::new(), validators: Vec::new() }
    }
}

impl Section {
    /// Whether the section has no title, no condition and no field.
    pub open spec fn is_blank(&self) -> bool {
        self.title is None && self.display@.len() == 0 && self.fields@.len() == 0
    }
}

impl Default for Section {
    fn default() -> (section: Self)
        ensures
            section.is_blank(),
    {
        Section { title: None, display: Vec::new(), fields: Vec::new() }
    }
}

impl List {
    /// Whether the view has empty titles, no field, no action and a page
    /// size of zero.
    pub open spec fn is_blank(&self) -> bool {
        &&& self.title@.len() == 0
        &&& self.subtitle@.len() == 0
        &&& self.fields@.len() == 0
        &&& self.actions@.len() == 0
        &&& self.page_size == 0
    }
}

impl Default for List {
    fn default() -> (list: Self)
        ensures
            list.is_blank(),
    {
        proof {
            reveal_strlit("");
        }
        List { title: "", subtitle: "", fields: Vec::new(), actions: Vec::new(), page_size: 0 }
    }
}

impl Form {
    /// Whether the view has empty titles, no section and no action.
    pub open spec fn is_blank(&self) -> bool {
        &&& self.title@.len() == 0
        &&& self.subtitle@.len() == 0
        &&& self.sections@.len() == 0
        &&& self.actions@.len() == 0
    }
}

impl Default for Form {
    fn default() -> (form: Self)
        ensures
            form.is_blank(),
    {
        proof {
            reveal_strlit("");
        }
        Form { title: "", subtitle: "", sections: Vec::new(), actions: Vec::new() }
    }
}

impl Field {
    /// Whether everything but the id and the kind is as in a field that
    /// nothing was set on: empty labels, no help, no checks, default,
    /// placeholder or display condition, and not read-only.
    pub open spec fn is_plain(&self) -> bool {
        &&& self.label_form@.len() == 0
        &&& self.label_column@.len() == 0
        &&& self.help is None
        &&& self.checks.is_blank()
        &&& self.default.is_blank()
        &&& self.placeholder.is_blank()
        &&& self.display@.len() == 0
        &&& !self.readonly
    }

    /// Whether the field has an empty id, is an expression, and is plain.
    pub open spec fn is_blank(&self) -> bool {
        self.id@.len() == 0 && self.typ_ is Expression && self.is_plain()
    }

    /// A field that nothing was set on.
    pub fn blank() -> (field: Self)
        ensures
            field.is_blank(),
    {
        proof {
            reveal_strlit("");
        }
        Field {
            id: "",
            label_form: "",
            label_column: "",
            help: None,
            checks: Value::default(),
            typ_: Type::default(),
            default: Value::default(),
            placeholder: Value::default(),
            display: Vec::new(),
            readonly: false,
        }
    }
}

impl Default for Field {
    /// The field that `Field::blank` gives.
    fn default() -> Self {
        Field::blank()
    }
}

impl Schema {
    /// The fields registered in the schema, by id.
    pub open spec fn registered(&self) -> Map<Seq<char>, Arc<Field>> {
        field_entries(self.fields)
    }

    /// Whether the schema is as `Schema::default()` gives it.
    pub open spec fn is_blank(&self) -> bool {
        &&& self.id@.len() == 0
        &&& self.name_singular@.len() == 0
        &&& self.name_plural@.len() == 0
        &&& self.registered() =~= Map::empty()
        &&& self.typ is List
        &&& self.list.is_blank()
        &&& self.form.is_blank()
    }

    /// Whether the list view offers `action`.
    pub fn has_list_action(&self, action: Action) -> (offered: bool)
        ensures
            offered == self.list.actions@.contains(action),
    {
        has_action(&self.list.actions, action)
    }

    /// Whether the form view offers `action`.
    pub fn has_form_action(&self, action: Action) -> (offered: bool)
        ensures
            offered == self.form.actions@.contains(action),
    {
        has_action(&self.form.actions, action)
    }

    /// Whether entries can be modified from the list.
    pub fn can_edit(&self) -> (offered: bool)
        ensures
            offered == self.list.actions@.contains(Action::Modify),
    {
        self.has_list_action(Action::Modify)
    }

    /// Whether entries can be deleted from the list.
    pub fn can_delete(&self) -> (offered: bool)
        ensures
            offered == self.list.actions@.contains(Action::Delete),
    {
        self.has_list_action(Action::Delete)
    }

    /// Whether entries can be created from the list.
    pub fn can_create(&self) -> (offered: bool)
        ensures
            offered == self.list.actions@.contains(Action::Create),
    {
        self.has_list_action(Action::Create)
    }

    /// The prefix of an entry or record schema. A plain list has none: to
    /// ask for it is a mistake in the caller, which the contract rules out.
    pub fn unwrap_prefix(&self) -> (prefix: &str)
        requires
            !(self.typ is List),
        ensures
            self.typ matches SchemaType::Record { prefix: p, .. } ==> prefix == p,
            self.typ matches SchemaType::Entry { prefix: p } ==> prefix == p,
    {
        match self.typ {
            SchemaType::Record { prefix, .. } => prefix,
            SchemaType::Entry { prefix } => prefix,
            SchemaType::List => vstd::pervasive::unreached(),
        }
    }

    /// The suffix of a record schema, and nothing for the other kinds.
    pub fn try_unwrap_suffix(&self) -> (suffix: Option<&str>)
        ensures
            match self.typ {
                SchemaType::Record { suffix: s, .. } => suffix == Some(s),
                _ => suffix is None,
            },
    {
        match self.typ {
            SchemaType::Record { suffix, .. } => Some(suffix),
            SchemaType::Entry { .. } => None,
            SchemaType::List => None,
        }
    }
}

impl Default for Schema {
    fn default() -> (schema: Self)
        ensures
            schema.is_blank(),
    {
        proof {
            reveal_strlit("");
        }
        Schema {
            id: "",
            name_singular: "",
            name_plural: "",
            fields: field_map_new(),
            typ: SchemaType::default(),
            list: List::default(),
            form: Form::default(),
        }
    }
}

impl PartialEq for Schema {
    /// Two schemas are the same entity when their ids are the same.
    fn eq(&self, other: &Self) -> (same: bool) {
        str_eq(self.id, other.id)
    }
}

impl Eq for Schema {

}

impl vstd::std_specs::cmp::PartialEqSpecImpl for Schema {
    open spec fn obeys_eq_spec() -> bool {
        true
    }

    open spec fn eq_spec(&self, other: &Self) -> bool {
        self.id@ == other.id@
    }
}

/// Whether `actions` holds `action`.
fn has_action(actions: &Vec<Action>, action: Action) -> (found: bool)
    ensures
        found == actions@.contains(action),
{
    let mut i: usize = 0;
    while i < actions.len()
        invariant
            i <= actions@.len(),
            forall|j: int| 0 <= j < i ==> actions@[j] != action,
        decreases actions@.len() - i,
    {
        if actions[i] == action {
            return true;
        }
        i += 1;
    }
    false
}

impl<T> Value<T> {
    /// Adds, after the rules there are, the rule that gives `then` when
    /// `field` is set to one of `contains`.
    pub fn push_if_matches_eq(&mut self, field: Arc<Field>, contains: Vec<&'static str>, then: T)
        ensures
            final(self).if_thens@ == old(self).if_thens@.push(
                (IfThen {
                    eval: Eval { field, values: contains, condition: Condition::MatchAny },
                    value: then,
                }),
            ),
            final(self).default == old(self).default,
    {
        self.if_thens.push(
            IfThen {
                eval: Eval { field, values: contains, condition: Condition::MatchAny },
                value: then,
            },
        );
    }

    /// Adds, after the rules there are, the rule that gives `then` when
    /// `field` is set to none of `contains`.
    pub fn push_if_matches_ne(&mut self, field: Arc<Field>, contains: Vec<&'static str>, then: T)
        ensures
            final(self).if_thens@ == old(self).if_thens@.push(
                (IfThen {
                    eval: Eval { field, values: contains, condition: Condition::MatchNone },
                    value: then,
                }),
            ),
            final(self).default == old(self).default,
    {
        self.if_thens.push(
            IfThen {
                eval: Eval { field, values: contains, condition: Condition::MatchNone },
                value: then,
            },
        );
    }

    /// Sets the fallback, in place of any that was set.
    pub fn push_else(&mut self, value: T)
        ensures
            final(self).if_thens == old(self).if_thens,
            final(self).default == Some(value),
    {
        self.default = Some(value);
    }
}

impl From<i64> for NumberType {
    fn from(value: i64) -> (number: Self) {
        NumberType::Integer(value)
    }
}

impl vstd::std_specs::convert::FromSpecImpl<i64> for NumberType {
    open spec fn obeys_from_spec() -> bool {
        true
    }

    open spec fn from_spec(value: i64) -> Self {
        NumberType::Integer(value)
    }
}

} // verus!
