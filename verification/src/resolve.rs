//! Resolution against the current values: conditions, conditional values,
//! visibility and the operations that fields, sections and sources derive
//! from them.

use vstd::prelude::*;
use std::sync::Arc;
use crate::model::{
    Condition, Eval, Field, IfThen, InputCheck, Section, Source, Transformer, Type, Validator, Value,
};
use crate::store::str_eq;

verus! {

/// A source of current values: what each field is currently set to.
pub trait SettingsValue {
    /// The current value of each field that has one, by field id.
    spec fn values(&self) -> Map<Seq<char>, Seq<char>>;

    /// The current value stored under `key`, if there is one.
    fn get(&self, key: &str) -> (value: Option<&str>)
        ensures
            value.is_some() == self.values().contains_key(key@),
            value matches Some(s) ==> s@ == self.values()[key@],
    ;
}

/// A condition as plain values: the field it reads, the listed values as
/// character sequences, and the kind of test.
pub struct EvalView {
    pub field: Arc<Field>,
    pub values: Seq<Seq<char>>,
    pub condition: Condition,
}

impl EvalView {
    /// Whether the condition holds of `values`: `MatchAny` when the field is
    /// set to one of the listed values, `MatchNone` when it is not, which
    /// includes a field that is not set at all.
    pub open spec fn holds(self, values: Map<Seq<char>, Seq<char>>) -> bool {
        let listed = values.contains_key(self.field.id@) && self.values.contains(
            values[self.field.id@],
        );
        match self.condition {
            Condition::MatchAny => listed,
            Condition::MatchNone => !listed,
        }
    }
}

impl DeepView for Eval {
    type V = EvalView;

    open spec fn deep_view(&self) -> EvalView {
        EvalView {
            field: self.field,
            values: self.values.deep_view(),
            condition: self.condition,
        }
    }
}

impl Eval {
    /// Whether the condition holds of `values`.
    pub open spec fn holds(&self, values: Map<Seq<char>, Seq<char>>) -> bool {
        self.deep_view().holds(values)
    }

    /// Evaluates the condition against the current values.
    pub fn eval(&self, settings: &impl SettingsValue) -> (matched: bool)
        ensures
            matched == self.holds(settings.values()),
    {
        let mut listed = false;
        if let Some(current) = settings.get(self.field.id) {
            let mut i: usize = 0;
            while i < self.values.len() && !listed
                invariant
                    i <= self.values@.len(),
                    listed ==> self.values.deep_view().contains(current@),
                    !listed ==> forall|j: int|
                        0 <= j < i ==> (#[trigger] self.values.deep_view()[j]) != current@,
                decreases self.values@.len() - i + (if listed { 0int } else { 1int }),
            {
                if str_eq(self.values[i], current) {
                    assert(self.values.deep_view()[i as int] == current@);
                    listed = true;
                } else {
                    i += 1;
                }
            }
        }
        match self.condition {
            Condition::MatchAny => listed,
            Condition::MatchNone => !listed,
        }
    }
}

/// Whether something with the display conditions `evals` is shown: always
/// when there are none, else when at least one of them holds.
pub open spec fn visible(evals: Seq<EvalView>, values: Map<Seq<char>, Seq<char>>) -> bool {
    evals.len() == 0 || exists|i: int| 0 <= i < evals.len() && (#[trigger] evals[i]).holds(values)
}

/// Decides `visible` for a list of display conditions.
pub fn is_visible(evals: &Vec<Eval>, settings: &impl SettingsValue) -> (shown: bool)
    ensures
        shown == visible(evals.deep_view(), settings.values()),
{
    if evals.len() == 0 {
        return true;
    }
    let mut i: usize = 0;
    while i < evals.len()
        invariant
            i <= evals@.len(),
            forall|j: int|
                0 <= j < i ==> !(#[trigger] evals.deep_view()[j]).holds(settings.values()),
        decreases evals@.len() - i,
    {
        if evals[i].eval(settings) {
            assert(evals.deep_view()[i as int].holds(settings.values()));
            return true;
        }
        i += 1;
    }
    false
}

/// A rule as plain values.
pub struct IfThenView<V> {
    pub eval: EvalView,
    pub value: V,
}

/// A conditional value as plain values: the rules in their order, and the
/// fallback.
pub struct ValueView<V> {
    pub rules: Seq<IfThenView<V>>,
    pub fallback: Option<V>,
}

impl<T: DeepView> DeepView for IfThen<T> {
    type V = IfThenView<T::V>;

    open spec fn deep_view(&self) -> IfThenView<T::V> {
        IfThenView { eval: self.eval.deep_view(), value: self.value.deep_view() }
    }
}

impl<T: DeepView> DeepView for Value<T> {
    type V = ValueView<T::V>;

    open spec fn deep_view(&self) -> ValueView<T::V> {
        ValueView { rules: self.if_thens.deep_view(), fallback: self.default.deep_view() }
    }
}

impl<V> ValueView<V> {
    /// The position of the first rule at or after `from` whose condition
    /// holds.
    pub open spec fn first_match(self, values: Map<Seq<char>, Seq<char>>, from: int) -> Option<int>
        decreases self.rules.len() - from,
    {
        if from < 0 || from >= self.rules.len() {
            None
        } else if self.rules[from].eval.holds(values) {
            Some(from)
        } else {
            self.first_match(values, from + 1)
        }
    }

    /// The value that applies under `values`: that of the first rule whose
    /// condition holds, else the fallback, else nothing.
    pub open spec fn resolved(self, values: Map<Seq<char>, Seq<char>>) -> Option<V> {
        match self.first_match(values, 0) {
            Some(i) => Some(self.rules[i].value),
            None => self.fallback,
        }
    }
}

impl<T> Value<T> {
    /// The position of the first rule at or after `from` whose condition
    /// holds.
    pub open spec fn first_match(&self, values: Map<Seq<char>, Seq<char>>, from: int) -> Option<int>
        decreases self.if_thens@.len() - from,
    {
        if from < 0 || from >= self.if_thens@.len() {
            None
        } else if self.if_thens@[from].eval.holds(values) {
            Some(from)
        } else {
            self.first_match(values, from + 1)
        }
    }

    /// The value that applies under `values`: that of the first rule whose
    /// condition holds, else the fallback, else nothing.
    pub open spec fn resolved(&self, values: Map<Seq<char>, Seq<char>>) -> Option<T> {
        match self.first_match(values, 0) {
            Some(i) => Some(self.if_thens@[i].value),
            None => self.default,
        }
    }

    /// Resolves the value that applies under the current values.
    pub fn eval(&self, settings: &impl SettingsValue) -> (found: Option<&T>)
        ensures
            match found {
                Some(value) => self.resolved(settings.values()) == Some(*value),
                None => self.resolved(settings.values()) is None,
            },
    {
        let mut i: usize = 0;
        while i < self.if_thens.len()
            invariant
                i <= self.if_thens@.len(),
                self.first_match(settings.values(), 0) == self.first_match(
                    settings.values(),
                    i as int,
                ),
            decreases self.if_thens@.len() - i,
        {
            if self.if_thens[i].eval.eval(settings) {
                return Some(&self.if_thens[i].value);
            }
            i += 1;
        }
        self.default.as_ref()
    }
}

/// The label of the first pair of `items`, at or after `from`, whose key is
/// `id`.
pub open spec fn static_label(
    items: Seq<(&'static str, &'static str)>,
    id: Seq<char>,
    from: int,
) -> Option<Seq<char>>
    decreases items.len() - from,
{
    if from < 0 || from >= items.len() {
        None
    } else if items[from].0@ == id {
        Some(items[from].1@)
    } else {
        static_label(items, id, from + 1)
    }
}

impl Source<&'static str, &'static str> {
    /// The label that the source gives for the key `id`: from a fixed table
    /// the label of the first pair with that key, from another field the
    /// current value of that field.
    pub open spec fn label(&self, id: Seq<char>, values: Map<Seq<char>, Seq<char>>) -> Option<
        Seq<char>,
    > {
        match *self {
            Source::Static(items) => static_label(items@, id, 0),
            Source::Dynamic { schema, field } => if values.contains_key(field@) {
                Some(values[field@])
            } else {
                None
            },
        }
    }

    /// Looks up the label for the key `id`.
    pub fn display<'x>(&self, id: &str, settings: &'x impl SettingsValue) -> (found: Option<&'x str>)
        ensures
            match found {
                Some(label) => self.label(id@, settings.values()) == Some(label@),
                None => self.label(id@, settings.values()) is None,
            },
    {
        match self {
            Source::Static(table) => {
                let items: &[(&'static str, &'static str)] = *table;
                let mut i: usize = 0;
                while i < items.len()
                    invariant
                        i <= items@.len(),
                        self.label(id@, settings.values()) == static_label(items@, id@, i as int),
                    decreases items@.len() - i,
                {
                    let (key, label) = items[i];
                    if str_eq(key, id) {
                        return Some(label);
                    }
                    i += 1;
                }
                None
            },
            Source::Dynamic { field, .. } => settings.get(field),
        }
    }
}

/// Checks as plain values: the two lists in their order.
pub struct InputCheckView {
    pub transformers: Seq<Transformer>,
    pub validators: Seq<Validator>,
}

impl InputCheckView {
    /// Whether the validators include `Required`.
    pub open spec fn requires_value(self) -> bool {
        exists|i: int| 0 <= i < self.validators.len() && (#[trigger] self.validators[i]) is Required
    }
}

impl DeepView for InputCheck {
    type V = InputCheckView;

    open spec fn deep_view(&self) -> InputCheckView {
        InputCheckView { transformers: self.transformers@, validators: self.validators@ }
    }
}

impl InputCheck {
    /// Whether the validators include `Required`.
    pub open spec fn requires_value(&self) -> bool {
        self.deep_view().requires_value()
    }

    /// Decides `requires_value`.
    pub fn has_required(&self) -> (found: bool)
        ensures
            found == self.requires_value(),
    {
        let mut i: usize = 0;
        while i < self.validators.len()
            invariant
                i <= self.validators@.len(),
                forall|j: int| 0 <= j < i ==> !((#[trigger] self.validators@[j]) is Required),
            decreases self.validators@.len() - i,
        {
            if matches!(self.validators[i], Validator::Required) {
                return true;
            }
            i += 1;
        }
        false
    }
}

impl Field {
    /// The current value of the field, empty when it is not set.
    pub open spec fn current(&self, values: Map<Seq<char>, Seq<char>>) -> Seq<char> {
        if values.contains_key(self.id@) {
            values[self.id@]
        } else {
            Seq::empty()
        }
    }

    /// What is shown for the current value: for a selection the label that
    /// its source gives for it, where it gives one, else the value itself.
    pub open spec fn shown(&self, values: Map<Seq<char>, Seq<char>>) -> Seq<char> {
        match self.typ_ {
            Type::Select(source) => match source.label(self.current(values), values) {
                Some(label) => label,
                None => self.current(values),
            },
            _ => self.current(values),
        }
    }

    /// Whether a value has to be given: always for a checkbox and for a
    /// selection, else when the checks that apply include `Required`.
    pub open spec fn required(&self, values: Map<Seq<char>, Seq<char>>) -> bool {
        self.typ_ is Checkbox || self.typ_ is Select || match self.checks.resolved(values) {
            Some(check) => check.requires_value(),
            None => false,
        }
    }

    /// The current value of the field, empty when it is not set.
    pub fn value(&self, settings: &impl SettingsValue) -> (current: String)
        ensures
            current@ == self.current(settings.values()),
    {
        match settings.get(self.id) {
            Some(s) => s.to_owned(),
            None => String::new(),
        }
    }

    /// What is shown for the current value of the field.
    pub fn label(&self, settings: &impl SettingsValue) -> (shown: String)
        ensures
            shown@ == self.shown(settings.values()),
    {
        let value = self.value(settings);
        match &self.typ_ {
            Type::Select(source) => match source.display(value.as_str(), settings) {
                Some(label) => label.to_owned(),
                None => value,
            },
            _ => value,
        }
    }

    /// Whether the field is shown under the current values.
    pub fn display(&self, settings: &impl SettingsValue) -> (shown: bool)
        ensures
            shown == visible(self.display.deep_view(), settings.values()),
    {
        is_visible(&self.display, settings)
    }

    /// The placeholder that applies under the current values.
    pub fn placeholder(&self, settings: &impl SettingsValue) -> (found: Option<&str>)
        ensures
            found.deep_view() == self.placeholder.resolved(settings.values()).deep_view(),
    {
        match self.placeholder.eval(settings) {
            Some(s) => Some(*s),
            None => None,
        }
    }

    /// The default that applies under the current values.
    pub fn default(&self, settings: &impl SettingsValue) -> (found: Option<&str>)
        ensures
            found.deep_view() == self.default.resolved(settings.values()).deep_view(),
    {
        match self.default.eval(settings) {
            Some(s) => Some(*s),
            None => None,
        }
    }

    /// The checks that apply under the current values.
    pub fn input_check(&self, settings: &impl SettingsValue) -> (found: Option<&InputCheck>)
        ensures
            match found {
                Some(check) => self.checks.resolved(settings.values()) == Some(*check),
                None => self.checks.resolved(settings.values()) is None,
            },
    {
        self.checks.eval(settings)
    }

    /// Whether a value has to be given under the current values.
    pub fn is_required(&self, settings: &impl SettingsValue) -> (required: bool)
        ensures
            required == self.required(settings.values()),
    {
        if matches!(self.typ_, Type::Checkbox | Type::Select(_)) {
            return true;
        }
        match self.input_check(settings) {
            Some(check) => check.has_required(),
            None => false,
        }
    }

    /// Whether the field takes several entries: an array or an expression.
    pub fn is_multivalue(&self) -> (multi: bool)
        ensures
            multi == (self.typ_ is Array || self.typ_ is Expression),
    {
        matches!(self.typ_, Type::Array | Type::Expression)
    }
}

impl Section {
    /// Whether the section is shown under the current values.
    pub fn display(&self, settings: &impl SettingsValue) -> (shown: bool)
        ensures
            shown == visible(self.display.deep_view(), settings.values()),
    {
        is_visible(&self.display, settings)
    }
}

} // verus!
