//! Staged construction of the registry: a schema is described field by
//! field and section by section, and every reference to a field or to a
//! schema has to name one that is registered already.

use vstd::prelude::*;
use std::sync::Arc;
use crate::model::{
    Action, Condition, Eval, Field, Form, IfThen, InputCheck, List, Schema, SchemaType, Section,
    Source, Transformer, Type, Validator, Value,
};
use crate::integrity::{lemma_field_refers_to_more, lemma_schema_sound_with_field};
use crate::registry::Schemas;
use crate::resolve::InputCheckView;
use crate::store::{
    field_map_get, field_map_insert, schema_map_get, schema_map_insert, share_field,
};

verus! {

/// One stage of construction: what is being described, and what it will
/// become part of.
pub struct Builder<P, I> {
    pub parent: P,
    pub item: I,
}

impl Schema {
    /// Whether the schema is as a builder starts it under `id`: a plain list
    /// without names or fields, whose list view offers create, search,
    /// delete and modify on pages of ten, and whose form offers save and
    /// cancel.
    pub open spec fn is_new(&self, id: &'static str) -> bool {
        &&& self.id == id
        &&& self.name_singular@.len() == 0
        &&& self.name_plural@.len() == 0
        &&& self.registered() =~= Map::empty()
        &&& self.typ is List
        &&& self.list.title@.len() == 0
        &&& self.list.subtitle@.len() == 0
        &&& self.list.fields@.len() == 0
        &&& self.list.actions@ == seq![Action::Create, Action::Search, Action::Delete, Action::Modify]
        &&& self.list.page_size == 10
        &&& self.form.title@.len() == 0
        &&& self.form.subtitle@.len() == 0
        &&& self.form.sections@.len() == 0
        &&& self.form.actions@ == seq![Action::Save, Action::Cancel]
    }
}

impl Builder<Schemas, ()> {
    /// Starts the schema `id`.
    pub fn new_schema(self, id: &'static str) -> (next: Builder<Schemas, Schema>)
        ensures
            next.parent == self.parent,
            next.item.is_new(id),
            self.is_sound() ==> next.is_sound(),
    {
        let mut item = Schema::default();
        item.id = id;
        item.list.actions = vec![Action::Create, Action::Search, Action::Delete, Action::Modify];
        item.list.page_size = 10;
        item.form.actions = vec![Action::Save, Action::Cancel];
        Builder { parent: self.parent, item }
    }

    /// Ends construction and hands out the registry.
    pub fn build(self) -> (registry: Schemas)
        ensures
            registry == self.parent,
            self.is_sound() ==> registry.is_sound(),
    {
        self.parent
    }
}

/// The fields that `ids` name among `registered`, in the order of `ids`.
pub open spec fn named(registered: Map<Seq<char>, Arc<Field>>, ids: Seq<&'static str>) -> Seq<
    Arc<Field>,
> {
    Seq::new(ids.len(), |i: int| registered[ids[i]@])
}

/// Whether every one of `ids` names a field among `registered`.
pub open spec fn all_registered(registered: Map<Seq<char>, Arc<Field>>, ids: Seq<&'static str>) -> bool {
    forall|i: int| 0 <= i < ids.len() ==> registered.contains_key((#[trigger] ids[i])@)
}

impl Builder<Schemas, Schema> {
    /// Starts the identifier field: the read-only input `_id`, labelled
    /// "Id", which is trimmed and put in lower case and has to be given as
    /// an id.
    pub fn new_id_field(self) -> (next: Builder<(Schemas, Schema), Field>)
        ensures
            next.parent == (self.parent, self.item),
            next.item.id@ == "_id"@,
            next.item.label_form@ == "Id"@,
            next.item.label_column@ == "Id"@,
            next.item.help is None,
            next.item.typ_ is Input,
            next.item.checks.if_thens@.len() == 0,
            next.item.checks.default.deep_view() == Some(
                (InputCheckView {
                    transformers: seq![Transformer::Trim, Transformer::Lowercase],
                    validators: seq![Validator::Required, Validator::IsId],
                }),
            ),
            next.item.default.is_blank(),
            next.item.placeholder.is_blank(),
            next.item.display@.len() == 0,
            next.item.readonly,
            self.is_sound() ==> next.is_sound(),
    {
        let mut item = Field::blank();
        item.id = "_id";
        Builder { parent: (self.parent, self.item), item }.label("Id").typ(Type::Input).input_check(
            vec![Transformer::Trim, Transformer::Lowercase],
            vec![Validator::Required, Validator::IsId],
        ).readonly()
    }

    /// Starts the value field: the input `_value`, labelled "Value", which
    /// is trimmed.
    pub fn new_value_field(self) -> (next: Builder<(Schemas, Schema), Field>)
        ensures
            next.parent == (self.parent, self.item),
            next.item.id@ == "_value"@,
            next.item.label_form@ == "Value"@,
            next.item.label_column@ == "Value"@,
            next.item.help is None,
            next.item.typ_ is Input,
            next.item.checks.if_thens@.len() == 0,
            next.item.checks.default.deep_view() == Some(
                (InputCheckView { transformers: seq![Transformer::Trim], validators: Seq::empty() }),
            ),
            next.item.default.is_blank(),
            next.item.placeholder.is_blank(),
            next.item.display@.len() == 0,
            !next.item.readonly,
            self.is_sound() ==> next.is_sound(),
    {
        let mut item = Field::blank();
        item.id = "_value";
        let transformers = vec![Transformer::Trim];
        proof {
            assert(transformers@ =~= seq![Transformer::Trim]);
        }
        Builder { parent: (self.parent, self.item), item }.label("Value").typ(
            Type::Input,
        ).input_check(transformers, Vec::new())
    }

    /// Starts the field `id` as a plain input.
    pub fn new_field(self, id: &'static str) -> (next: Builder<(Schemas, Schema), Field>)
        ensures
            next.parent == (self.parent, self.item),
            next.item.id == id,
            next.item.typ_ is Input,
            next.item.is_plain(),
            self.is_sound() ==> next.is_sound(),
    {
        let mut item = Field::blank();
        item.id = id;
        item.typ_ = Type::Input;
        Builder { parent: (self.parent, self.item), item }
    }

    /// Starts a section of the form, with nothing in it.
    pub fn new_form_section(self) -> (next: Builder<(Schemas, Schema), Section>)
        ensures
            next.parent == (self.parent, self.item),
            next.item.is_blank(),
            self.is_sound() ==> next.is_sound(),
    {
        Builder { parent: (self.parent, self.item), item: Section::default() }
    }

    /// Makes a plain list into a schema of entries under `prefix`. Only a
    /// plain list can be given a prefix.
    pub fn prefix(self, prefix: &'static str) -> (next: Self)
        requires
            self.item.typ is List,
        ensures
            next == (Builder {
                parent: self.parent,
                item: Schema { typ: SchemaType::Entry { prefix }, ..self.item },
            }),
            self.is_sound() ==> next.is_sound(),
    {
        let mut next = self;
        next.item.typ = SchemaType::Entry { prefix };
        next
    }

    /// Makes a schema of entries into one of records under its prefix and
    /// `suffix`. Only a schema of entries can be given a suffix.
    pub fn suffix(self, suffix: &'static str) -> (next: Self)
        requires
            self.item.typ is Entry,
        ensures
            next == (Builder {
                parent: self.parent,
                item: Schema {
                    typ: SchemaType::Record { prefix: self.item.typ->Entry_prefix, suffix },
                    ..self.item
                },
            }),
            self.is_sound() ==> next.is_sound(),
    {
        let mut next = self;
        match next.item.typ {
            SchemaType::Entry { prefix } => {
                next.item.typ = SchemaType::Record { prefix, suffix };
            },
            _ => {
                vstd::pervasive::unreached::<()>();
            },
        }
        next
    }

    /// Sets the title of the list view.
    pub fn list_title(self, title: &'static str) -> (next: Self)
        ensures
            next == (Builder {
                parent: self.parent,
                item: Schema { list: List { title, ..self.item.list }, ..self.item },
            }),
            self.is_sound() ==> next.is_sound(),
    {
        let mut next = self;
        next.item.list.title = title;
        next
    }

    /// Sets the subtitle of the list view.
    pub fn list_subtitle(self, subtitle: &'static str) -> (next: Self)
        ensures
            next == (Builder {
                parent: self.parent,
                item: Schema { list: List { subtitle, ..self.item.list }, ..self.item },
            }),
            self.is_sound() ==> next.is_sound(),
    {
        let mut next = self;
        next.item.list.subtitle = subtitle;
        next
    }

    /// Adds the registered field `field` as the last column of the list
    /// view.
    pub fn list_field(self, field: &'static str) -> (next: Self)
        requires
            self.item.registered().contains_key(field@),
        ensures
            next == (Builder {
                parent: self.parent,
                item: Schema {
                    list: List { fields: next.item.list.fields, ..self.item.list },
                    ..self.item
                },
            }),
            next.item.list.fields@ == self.item.list.fields@.push(self.item.registered()[field@]),
            self.is_sound() ==> next.is_sound(),
    {
        let mut next = self;
        match field_map_get(&next.item.fields, field) {
            Some(found) => {
                next.item.list.fields.push(found);
            },
            None => {
                vstd::pervasive::unreached::<()>();
            },
        }
        next
    }

    /// Adds the registered fields `fields`, in their order, as the last
    /// columns of the list view.
    pub fn list_fields(self, fields: Vec<&'static str>) -> (next: Self)
        requires
            all_registered(self.item.registered(), fields@),
        ensures
            next == (Builder {
                parent: self.parent,
                item: Schema {
                    list: List { fields: next.item.list.fields, ..self.item.list },
                    ..self.item
                },
            }),
            next.item.list.fields@ == self.item.list.fields@ + named(
                self.item.registered(),
                fields@,
            ),
            self.is_sound() ==> next.is_sound(),
    {
        let ghost start = self;
        let mut builder = self;
        let mut i: usize = 0;
        while i < fields.len()
            invariant
                i <= fields@.len(),
                all_registered(start.item.registered(), fields@),
                builder == (Builder {
                    parent: start.parent,
                    item: Schema {
                        list: List { fields: builder.item.list.fields, ..start.item.list },
                        ..start.item
                    },
                }),
                builder.item.list.fields@ == start.item.list.fields@ + named(
                    start.item.registered(),
                    fields@.take(i as int),
                ),
            decreases fields@.len() - i,
        {
            let ghost before = builder.item.list.fields@;
            builder = builder.list_field(fields[i]);
            proof {
                let registered = start.item.registered();
                assert(fields@.take(i + 1) == fields@.take(i as int).push(fields@[i as int]));
                assert(named(registered, fields@.take(i + 1)) == named(
                    registered,
                    fields@.take(i as int),
                ).push(registered[fields@[i as int]@]));
            }
            i += 1;
        }
        proof {
            assert(fields@.take(fields@.len() as int) == fields@);
        }
        builder
    }

    /// Sets the actions that the list view offers.
    pub fn list_actions(self, actions: Vec<Action>) -> (next: Self)
        ensures
            next == (Builder {
                parent: self.parent,
                item: Schema { list: List { actions, ..self.item.list }, ..self.item },
            }),
            self.is_sound() ==> next.is_sound(),
    {
        let mut next = self;
        next.item.list.actions = actions;
        next
    }

    /// Sets the title of the form.
    pub fn form_title(self, title: &'static str) -> (next: Self)
        ensures
            next == (Builder {
                parent: self.parent,
                item: Schema { form: Form { title, ..self.item.form }, ..self.item },
            }),
            self.is_sound() ==> next.is_sound(),
    {
        let mut next = self;
        next.item.form.title = title;
        next
    }

    /// Sets the subtitle of the form.
    pub fn form_subtitle(self, subtitle: &'static str) -> (next: Self)
        ensures
            next == (Builder {
                parent: self.parent,
                item: Schema { form: Form { subtitle, ..self.item.form }, ..self.item },
            }),
            self.is_sound() ==> next.is_sound(),
    {
        let mut next = self;
        next.item.form.subtitle = subtitle;
        next
    }

    /// Sets the actions that the form offers.
    pub fn form_actions(self, actions: Vec<Action>) -> (next: Self)
        ensures
            next == (Builder {
                parent: self.parent,
                item: Schema { form: Form { actions, ..self.item.form }, ..self.item },
            }),
            self.is_sound() ==> next.is_sound(),
    {
        let mut next = self;
        next.item.form.actions = actions;
        next
    }

    /// Sets the singular and the plural name of the entity.
    pub fn names(self, singular: &'static str, plural: &'static str) -> (next: Self)
        ensures
            next == (Builder {
                parent: self.parent,
                item: Schema { name_singular: singular, name_plural: plural, ..self.item },
            }),
            self.is_sound() ==> next.is_sound(),
    {
        let mut next = self;
        next.item.name_singular = singular;
        next.item.name_plural = plural;
        next
    }

    /// Registers the schema under its id, in place of any schema that was
    /// registered under it, and goes back to the registry.
    pub fn build(self) -> (next: Builder<Schemas, ()>)
        ensures
            next.parent.registered() == self.parent.registered().insert(
                self.item.id@,
                Arc::new(self.item),
            ),
            self.parent.well_formed() ==> next.parent.well_formed(),
            self.is_sound() ==> next.is_sound(),
    {
        let Builder { parent, item } = self;
        let mut parent = parent;
        schema_map_insert(&mut parent.schemas, item.id, Arc::new(item));
        Builder { parent, item: () }
    }
}

/// A vector with the items of `items`.
fn copy_items<T: Copy>(items: &Vec<T>) -> (copy: Vec<T>)
    ensures
        copy@ == items@,
{
    let mut copy: Vec<T> = Vec::new();
    let mut i: usize = 0;
    while i < items.len()
        invariant
            i <= items@.len(),
            copy@ == items@.take(i as int),
        decreases items@.len() - i,
    {
        copy.push(items[i]);
        proof {
            assert(items@.take(i + 1) == items@.take(i as int).push(items@[i as int]));
        }
        i += 1;
    }
    proof {
        assert(items@.take(items@.len() as int) == items@);
    }
    copy
}

/// A condition on the same field, with the same values and the same test.
fn copy_eval(eval: &Eval) -> (copy: Eval)
    ensures
        copy.deep_view() == eval.deep_view(),
{
    let values = copy_items(&eval.values);
    proof {
        assert(values.deep_view() =~= eval.values.deep_view());
    }
    Eval { field: share_field(&eval.field), values, condition: eval.condition }
}

/// The same conditions in the same order.
fn copy_evals(evals: &Vec<Eval>) -> (copy: Vec<Eval>)
    ensures
        copy.deep_view() == evals.deep_view(),
{
    let mut copy: Vec<Eval> = Vec::new();
    let mut i: usize = 0;
    while i < evals.len()
        invariant
            i <= evals@.len(),
            copy@.len() == i,
            forall|j: int| 0 <= j < i ==> (#[trigger] copy@[j]).deep_view() == evals@[j].deep_view(),
        decreases evals@.len() - i,
    {
        copy.push(copy_eval(&evals[i]));
        i += 1;
    }
    proof {
        assert(copy.deep_view() =~= evals.deep_view());
    }
    copy
}

/// Checks with the same transformers and validators.
fn copy_check(check: &InputCheck) -> (copy: InputCheck)
    ensures
        copy.deep_view() == check.deep_view(),
{
    InputCheck {
        transformers: copy_items(&check.transformers),
        validators: copy_items(&check.validators),
    }
}

/// Conditional checks with the same rules and the same fallback.
fn copy_checks(checks: &Value<InputCheck>) -> (copy: Value<InputCheck>)
    ensures
        copy.deep_view() == checks.deep_view(),
{
    let mut if_thens: Vec<IfThen<InputCheck>> = Vec::new();
    let mut i: usize = 0;
    while i < checks.if_thens.len()
        invariant
            i <= checks.if_thens@.len(),
            if_thens@.len() == i,
            forall|j: int|
                0 <= j < i ==> (#[trigger] if_thens@[j]).deep_view()
                    == checks.if_thens@[j].deep_view(),
        decreases checks.if_thens@.len() - i,
    {
        let rule = &checks.if_thens[i];
        if_thens.push(IfThen { eval: copy_eval(&rule.eval), value: copy_check(&rule.value) });
        i += 1;
    }
    let default = match &checks.default {
        Some(check) => Some(copy_check(check)),
        None => None,
    };
    proof {
        assert(if_thens.deep_view() =~= checks.if_thens.deep_view());
    }
    Value { if_thens, default }
}

/// The same kind.
fn copy_kind(kind: &Type<&'static str, &'static str>) -> (copy: Type<&'static str, &'static str>)
    ensures
        copy == *kind,
{
    match kind {
        Type::Input => Type::Input,
        Type::Array => Type::Array,
        Type::Secret => Type::Secret,
        Type::Text => Type::Text,
        Type::Expression => Type::Expression,
        Type::Select(Source::Static(items)) => Type::Select(Source::Static(*items)),
        Type::Select(Source::Dynamic { schema, field }) => Type::Select(
            Source::Dynamic { schema: *schema, field: *field },
        ),
        Type::Checkbox => Type::Checkbox,
        Type::Duration => Type::Duration,
        Type::Size => Type::Size,
    }
}

impl Builder<(Schemas, Schema), Field> {
    /// The field registered under `id` in the schema that is being built.
    fn field(&self, id: &'static str) -> (found: Arc<Field>)
        requires
            self.parent.1.registered().contains_key(id@),
        ensures
            found == self.parent.1.registered()[id@],
    {
        match field_map_get(&self.parent.1.fields, id) {
            Some(found) => found,
            None => vstd::pervasive::unreached(),
        }
    }

    /// The schema registered under `id`.
    fn schema(&self, id: &'static str) -> (found: Arc<Schema>)
        requires
            self.parent.0.registered().contains_key(id@),
        ensures
            found == self.parent.0.registered()[id@],
    {
        match schema_map_get(&self.parent.0.schemas, id) {
            Some(found) => found,
            None => vstd::pervasive::unreached(),
        }
    }

    /// Sets the label of the field, for the form and for the list alike.
    pub fn label(self, label: &'static str) -> (next: Self)
        ensures
            next == (Builder {
                parent: self.parent,
                item: Field { label_column: label, label_form: label, ..self.item },
            }),
            self.is_sound() ==> next.is_sound(),
    {
        let mut next = self;
        next.item.label_column = label;
        next.item.label_form = label;
        next
    }

    /// Sets the label of the field in the list.
    pub fn label_column(self, label: &'static str) -> (next: Self)
        ensures
            next == (Builder {
                parent: self.parent,
                item: Field { label_column: label, ..self.item },
            }),
            self.is_sound() ==> next.is_sound(),
    {
        let mut next = self;
        next.item.label_column = label;
        next
    }

    /// Sets the label of the field in the form.
    pub fn label_form(self, label: &'static str) -> (next: Self)
        ensures
            next == (Builder { parent: self.parent, item: Field { label_form: label, ..self.item } }),
            self.is_sound() ==> next.is_sound(),
    {
        let mut next = self;
        next.item.label_form = label;
        next
    }

    /// Sets the help text.
    pub fn help(self, help: &'static str) -> (next: Self)
        ensures
            next == (Builder { parent: self.parent, item: Field { help: Some(help), ..self.item } }),
            self.is_sound() ==> next.is_sound(),
    {
        let mut next = self;
        next.item.help = Some(help);
        next
    }

    /// Makes the field read-only.
    pub fn readonly(self) -> (next: Self)
        ensures
            next == (Builder { parent: self.parent, item: Field { readonly: true, ..self.item } }),
            self.is_sound() ==> next.is_sound(),
    {
        let mut next = self;
        next.item.readonly = true;
        next
    }

    /// Whether what `typ_` refers to is there: a selection from another
    /// schema's field has to name a schema of the registry and a field that
    /// is registered in the schema that is being built.
    pub open spec fn resolves(&self, typ_: Type<&'static str, &'static str>) -> bool {
        typ_ matches Type::Select(Source::Dynamic { schema, field }) ==> {
            &&& self.parent.0.registered().contains_key(schema@)
            &&& self.parent.1.registered().contains_key(field@)
        }
    }

    /// Sets the kind of the field.
    pub fn typ(self, typ_: Type<&'static str, &'static str>) -> (next: Self)
        requires
            self.resolves(typ_),
        ensures
            next == (Builder { parent: self.parent, item: Field { typ_, ..self.item } }),
            self.is_sound() ==> next.is_sound(),
    {
        let mut next = self;
        match &typ_ {
            Type::Select(Source::Dynamic { schema, field }) => {
                let _ = next.schema(*schema);
                let _ = next.field(*field);
            },
            _ => {},
        }
        next.item.typ_ = typ_;
        next
    }

    /// Adds, after the rules there are, the rule that the given checks
    /// apply when the registered field `field` is set to one of
    /// `conditions`.
    pub fn input_check_if_eq(
        self,
        field: &'static str,
        conditions: Vec<&'static str>,
        transformers: Vec<Transformer>,
        validators: Vec<Validator>,
    ) -> (next: Self)
        requires
            self.parent.1.registered().contains_key(field@),
        ensures
            next == (Builder {
                parent: self.parent,
                item: Field {
                    checks: Value {
                        if_thens: next.item.checks.if_thens,
                        default: self.item.checks.default,
                    },
                    ..self.item
                },
            }),
            next.item.checks.if_thens@ == self.item.checks.if_thens@.push(
                (IfThen {
                    eval: Eval {
                        field: self.parent.1.registered()[field@],
                        values: conditions,
                        condition: Condition::MatchAny,
                    },
                    value: InputCheck { transformers, validators },
                }),
            ),
            self.is_sound() ==> next.is_sound(),
    {
        let mut next = self;
        let found = next.field(field);
        next.item.checks.push_if_matches_eq(
            found,
            conditions,
            InputCheck::new(transformers, validators),
        );
        next
    }

    /// Sets the checks that apply when no rule does.
    pub fn input_check(self, transformers: Vec<Transformer>, validators: Vec<Validator>) -> (next:
        Self)
        ensures
            next == (Builder {
                parent: self.parent,
                item: Field {
                    checks: Value {
                        if_thens: self.item.checks.if_thens,
                        default: Some(InputCheck { transformers, validators }),
                    },
                    ..self.item
                },
            }),
            self.is_sound() ==> next.is_sound(),
    {
        let mut next = self;
        next.item.checks.push_else(InputCheck::new(transformers, validators));
        next
    }

    /// Sets the placeholder that applies when no rule does.
    pub fn placeholder(self, placeholder: &'static str) -> (next: Self)
        ensures
            next == (Builder {
                parent: self.parent,
                item: Field {
                    placeholder: Value {
                        if_thens: self.item.placeholder.if_thens,
                        default: Some(placeholder),
                    },
                    ..self.item
                },
            }),
            self.is_sound() ==> next.is_sound(),
    {
        let mut next = self;
        next.item.placeholder.push_else(placeholder);
        next
    }

    /// Sets the default that applies when no rule does, and shows it as the
    /// placeholder too.
    pub fn default(self, default: &'static str) -> (next: Self)
        ensures
            next == (Builder {
                parent: self.parent,
                item: Field {
                    default: Value { if_thens: self.item.default.if_thens, default: Some(default) },
                    placeholder: Value {
                        if_thens: self.item.placeholder.if_thens,
                        default: Some(default),
                    },
                    ..self.item
                },
            }),
            self.is_sound() ==> next.is_sound(),
    {
        let mut next = self;
        next.item.default.push_else(default);
        next.item.placeholder.push_else(default);
        next
    }

    /// Adds, after the rules there are, the rule that the default is
    /// `value` when the registered field `field` is set to one of
    /// `conditions`.
    pub fn default_if_eq(
        self,
        field: &'static str,
        conditions: Vec<&'static str>,
        value: &'static str,
    ) -> (next: Self)
        requires
            self.parent.1.registered().contains_key(field@),
        ensures
            next == (Builder {
                parent: self.parent,
                item: Field {
                    default: Value {
                        if_thens: next.item.default.if_thens,
                        default: self.item.default.default,
                    },
                    ..self.item
                },
            }),
            next.item.default.if_thens@ == self.item.default.if_thens@.push(
                (IfThen {
                    eval: Eval {
                        field: self.parent.1.registered()[field@],
                        values: conditions,
                        condition: Condition::MatchAny,
                    },
                    value,
                }),
            ),
            self.is_sound() ==> next.is_sound(),
    {
        let mut next = self;
        let found = next.field(field);
        next.item.default.push_if_matches_eq(found, conditions, value);
        next
    }

    /// Adds a display condition on the registered field `field`. The field
    /// that is being built is shown when any of its conditions holds.
    pub fn display_if(
        self,
        field: &'static str,
        values: Vec<&'static str>,
        condition: Condition,
    ) -> (next: Self)
        requires
            self.parent.1.registered().contains_key(field@),
        ensures
            next == (Builder {
                parent: self.parent,
                item: Field { display: next.item.display, ..self.item },
            }),
            next.item.display@ == self.item.display@.push(
                (Eval { field: self.parent.1.registered()[field@], values, condition }),
            ),
            self.is_sound() ==> next.is_sound(),
    {
        let mut next = self;
        let found = next.field(field);
        next.item.display.push(Eval { field: found, values, condition });
        next
    }

    /// Adds the display condition that `field` is set to one of `values`.
    pub fn display_if_eq(self, field: &'static str, values: Vec<&'static str>) -> (next: Self)
        requires
            self.parent.1.registered().contains_key(field@),
        ensures
            next == (Builder {
                parent: self.parent,
                item: Field { display: next.item.display, ..self.item },
            }),
            next.item.display@ == self.item.display@.push(
                (Eval {
                    field: self.parent.1.registered()[field@],
                    values,
                    condition: Condition::MatchAny,
                }),
            ),
            self.is_sound() ==> next.is_sound(),
    {
        self.display_if(field, values, Condition::MatchAny)
    }

    /// Adds the display condition that `field` is set to none of `values`.
    pub fn display_if_ne(self, field: &'static str, values: Vec<&'static str>) -> (next: Self)
        requires
            self.parent.1.registered().contains_key(field@),
        ensures
            next == (Builder {
                parent: self.parent,
                item: Field { display: next.item.display, ..self.item },
            }),
            next.item.display@ == self.item.display@.push(
                (Eval {
                    field: self.parent.1.registered()[field@],
                    values,
                    condition: Condition::MatchNone,
                }),
            ),
            self.is_sound() ==> next.is_sound(),
    {
        self.display_if(field, values, Condition::MatchNone)
    }

    /// Registers the field in the schema under its id, in place of any field
    /// that was registered under it, and goes back to the schema.
    pub fn build(self) -> (next: Builder<Schemas, Schema>)
        ensures
            next.parent == self.parent.0,
            next.item == (Schema { fields: next.item.fields, ..self.parent.1 }),
            next.item.registered() == self.parent.1.registered().insert(
                self.item.id@,
                Arc::new(self.item),
            ),
            self.is_sound() ==> next.is_sound(),
    {
        let Builder { parent, item } = self;
        let (schemas, schema) = parent;
        let mut schema = schema;
        field_map_insert(&mut schema.fields, item.id, Arc::new(item));
        Builder { parent: schemas, item: schema }
    }

    /// Registers the field as `build` does, and starts the field `id` with
    /// the kind, the display conditions and the checks of the field just
    /// registered, and nothing else of it.
    pub fn new_field(self, id: &'static str) -> (next: Self)
        ensures
            next.parent.0 == self.parent.0,
            next.parent.1 == (Schema { fields: next.parent.1.fields, ..self.parent.1 }),
            next.parent.1.registered() == self.parent.1.registered().insert(
                self.item.id@,
                Arc::new(self.item),
            ),
            next.item.id == id,
            next.item.typ_ == self.item.typ_,
            next.item.display.deep_view() == self.item.display.deep_view(),
            next.item.checks.deep_view() == self.item.checks.deep_view(),
            next.item.label_form@.len() == 0,
            next.item.label_column@.len() == 0,
            next.item.help is None,
            next.item.default.is_blank(),
            next.item.placeholder.is_blank(),
            !next.item.readonly,
            self.is_sound() ==> next.is_sound(),
    {
        let mut cloned_field = Field::blank();
        cloned_field.id = id;
        cloned_field.typ_ = copy_kind(&self.item.typ_);
        cloned_field.display = copy_evals(&self.item.display);
        cloned_field.checks = copy_checks(&self.item.checks);
        let Builder { parent, item } = self;
        let (schemas, schema) = parent;
        let mut schema = schema;
        field_map_insert(&mut schema.fields, item.id, Arc::new(item));
        proof {
            if self.is_sound() {
                let known = self.parent.1.registered().dom();
                let taken = self.parent.0.registered().dom();
                lemma_schema_sound_with_field(self.parent.1, taken, self.item, schema);
                assert(cloned_field.display.deep_view().len() == cloned_field.display@.len());
                assert(self.item.display.deep_view().len() == self.item.display@.len());
                assert(cloned_field.checks.deep_view().rules.len()
                    == cloned_field.checks.if_thens@.len());
                assert(self.item.checks.deep_view().rules.len() == self.item.checks.if_thens@.len());
                assert forall|i: int| 0 <= i < cloned_field.display@.len() implies known.contains(
                    (#[trigger] cloned_field.display@[i]).field.id@,
                ) by {
                    assert(cloned_field.display.deep_view()[i] == self.item.display.deep_view()[i]);
                    assert(known.contains(self.item.display@[i].field.id@));
                }
                assert forall|i: int|
                    0 <= i < cloned_field.checks.if_thens@.len() implies known.contains(
                    (#[trigger] cloned_field.checks.if_thens@[i]).eval.field.id@,
                ) by {
                    assert(cloned_field.checks.deep_view().rules[i]
                        == self.item.checks.deep_view().rules[i]);
                    assert(known.contains(self.item.checks.if_thens@[i].eval.field.id@));
                }
                lemma_field_refers_to_more(
                    cloned_field,
                    known,
                    taken,
                    schema.registered().dom(),
                    taken,
                );
            }
        }
        Builder { parent: (schemas, schema), item: cloned_field }
    }
}

impl Builder<(Schemas, Schema), Section> {
    /// Sets the title of the section.
    pub fn title(self, title: &'static str) -> (next: Self)
        ensures
            next == (Builder {
                parent: self.parent,
                item: Section { title: Some(title), ..self.item },
            }),
            self.is_sound() ==> next.is_sound(),
    {
        let mut next = self;
        next.item.title = Some(title);
        next
    }

    /// Adds the registered field `field` as the last field of the section.
    pub fn field(self, field: &'static str) -> (next: Self)
        requires
            self.parent.1.registered().contains_key(field@),
        ensures
            next == (Builder {
                parent: self.parent,
                item: Section { fields: next.item.fields, ..self.item },
            }),
            next.item.fields@ == self.item.fields@.push(self.parent.1.registered()[field@]),
            self.is_sound() ==> next.is_sound(),
    {
        let mut next = self;
        match field_map_get(&next.parent.1.fields, field) {
            Some(found) => {
                next.item.fields.push(found);
            },
            None => {
                vstd::pervasive::unreached::<()>();
            },
        }
        next
    }

    /// Adds the registered fields `fields`, in their order, as the last
    /// fields of the section.
    pub fn fields(self, fields: Vec<&'static str>) -> (next: Self)
        requires
            all_registered(self.parent.1.registered(), fields@),
        ensures
            next == (Builder {
                parent: self.parent,
                item: Section { fields: next.item.fields, ..self.item },
            }),
            next.item.fields@ == self.item.fields@ + named(self.parent.1.registered(), fields@),
            self.is_sound() ==> next.is_sound(),
    {
        let ghost start = self;
        let mut builder = self;
        let mut i: usize = 0;
        while i < fields.len()
            invariant
                i <= fields@.len(),
                all_registered(start.parent.1.registered(), fields@),
                builder == (Builder {
                    parent: start.parent,
                    item: Section { fields: builder.item.fields, ..start.item },
                }),
                builder.item.fields@ == start.item.fields@ + named(
                    start.parent.1.registered(),
                    fields@.take(i as int),
                ),
            decreases fields@.len() - i,
        {
            builder = builder.field(fields[i]);
            proof {
                let registered = start.parent.1.registered();
                assert(fields@.take(i + 1) == fields@.take(i as int).push(fields@[i as int]));
                assert(named(registered, fields@.take(i + 1)) == named(
                    registered,
                    fields@.take(i as int),
                ).push(registered[fields@[i as int]@]));
            }
            i += 1;
        }
        proof {
            assert(fields@.take(fields@.len() as int) == fields@);
        }
        builder
    }

    /// Adds a display condition on the registered field `field`. The
    /// section is shown when any of its conditions holds.
    fn display_if(
        self,
        field: &'static str,
        values: Vec<&'static str>,
        condition: Condition,
    ) -> (next: Self)
        requires
            self.parent.1.registered().contains_key(field@),
        ensures
            next == (Builder {
                parent: self.parent,
                item: Section { display: next.item.display, ..self.item },
            }),
            next.item.display@ == self.item.display@.push(
                (Eval { field: self.parent.1.registered()[field@], values, condition }),
            ),
            self.is_sound() ==> next.is_sound(),
    {
        let mut next = self;
        match field_map_get(&next.parent.1.fields, field) {
            Some(found) => {
                next.item.display.push(Eval { field: found, values, condition });
            },
            None => {
                vstd::pervasive::unreached::<()>();
            },
        }
        next
    }

    /// Adds the display condition that `field` is set to one of `values`.
    pub fn display_if_eq(self, field: &'static str, values: Vec<&'static str>) -> (next: Self)
        requires
            self.parent.1.registered().contains_key(field@),
        ensures
            next == (Builder {
                parent: self.parent,
                item: Section { display: next.item.display, ..self.item },
            }),
            next.item.display@ == self.item.display@.push(
                (Eval {
                    field: self.parent.1.registered()[field@],
                    values,
                    condition: Condition::MatchAny,
                }),
            ),
            self.is_sound() ==> next.is_sound(),
    {
        self.display_if(field, values, Condition::MatchAny)
    }

    /// Adds the display condition that `field` is set to none of `values`.
    pub fn display_if_ne(self, field: &'static str, values: Vec<&'static str>) -> (next: Self)
        requires
            self.parent.1.registered().contains_key(field@),
        ensures
            next == (Builder {
                parent: self.parent,
                item: Section { display: next.item.display, ..self.item },
            }),
            next.item.display@ == self.item.display@.push(
                (Eval {
                    field: self.parent.1.registered()[field@],
                    values,
                    condition: Condition::MatchNone,
                }),
            ),
            self.is_sound() ==> next.is_sound(),
    {
        self.display_if(field, values, Condition::MatchNone)
    }

    /// Adds the section as the last section of the form, and goes back to
    /// the schema.
    pub fn build(self) -> (next: Builder<Schemas, Schema>)
        ensures
            next.parent == self.parent.0,
            next.item == (Schema {
                form: Form { sections: next.item.form.sections, ..self.parent.1.form },
                ..self.parent.1
            }),
            next.item.form.sections@ == self.parent.1.form.sections@.push(self.item),
            self.is_sound() ==> next.is_sound(),
    {
        let Builder { parent, item } = self;
        let (schemas, schema) = parent;
        let mut schema = schema;
        schema.form.sections.push(item);
        Builder { parent: schemas, item: schema }
    }
}

} // verus!
