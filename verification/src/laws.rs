//! What holds of resolution and of construction, for every schema and every
//! set of current values.

use vstd::prelude::*;
use std::sync::Arc;
use crate::model::{Condition, Field, Schema, Value};
use crate::registry::Schemas;
use crate::resolve::{visible, EvalView};

verus! {

/// From `from` on, the first rule whose condition holds is the first match.
proof fn lemma_first_match_from<T>(
    set: Value<T>,
    values: Map<Seq<char>, Seq<char>>,
    from: int,
    i: int,
)
    requires
        0 <= from <= i < set.if_thens@.len(),
        set.if_thens@[i].eval.holds(values),
        forall|j: int| from <= j < i ==> !(#[trigger] set.if_thens@[j]).eval.holds(values),
    ensures
        set.first_match(values, from) == Some(i),
    decreases i - from,
{
    if from < i {
        lemma_first_match_from(set, values, from + 1, i);
    }
}

/// From `from` on, there is no match when no condition holds.
proof fn lemma_no_match_from<T>(set: Value<T>, values: Map<Seq<char>, Seq<char>>, from: int)
    requires
        0 <= from,
        forall|j: int|
            from <= j < set.if_thens@.len() ==> !(#[trigger] set.if_thens@[j]).eval.holds(values),
    ensures
        set.first_match(values, from) is None,
    decreases set.if_thens@.len() - from,
{
    if from < set.if_thens@.len() {
        lemma_no_match_from(set, values, from + 1);
    }
}

/// A match is the position of a rule whose condition holds, and no rule
/// between `from` and it has a condition that holds.
proof fn lemma_match_is_first<T>(set: Value<T>, values: Map<Seq<char>, Seq<char>>, from: int)
    requires
        0 <= from,
    ensures
        match set.first_match(values, from) {
            Some(i) => {
                &&& from <= i < set.if_thens@.len()
                &&& set.if_thens@[i].eval.holds(values)
                &&& forall|j: int|
                    from <= j < i ==> !(#[trigger] set.if_thens@[j]).eval.holds(values)
            },
            None => forall|j: int|
                from <= j < set.if_thens@.len() ==> !(#[trigger] set.if_thens@[j]).eval.holds(
                    values,
                ),
        },
    decreases set.if_thens@.len() - from,
{
    if from < set.if_thens@.len() && !set.if_thens@[from].eval.holds(values) {
        lemma_match_is_first(set, values, from + 1);
    }
}

/// A conditional value without rules resolves to its fallback, and to
/// nothing when it has none, whatever the current values are.
pub proof fn lemma_no_rules_gives_fallback<T>(set: Value<T>, values: Map<Seq<char>, Seq<char>>)
    requires
        set.if_thens@.len() == 0,
    ensures
        set.resolved(values) == set.default,
{
}

/// Resolution gives the value of the first rule, in the order of the rules,
/// whose condition holds.
pub proof fn lemma_first_holding_rule_wins<T>(
    set: Value<T>,
    values: Map<Seq<char>, Seq<char>>,
    i: int,
)
    requires
        0 <= i < set.if_thens@.len(),
        set.if_thens@[i].eval.holds(values),
        forall|j: int| 0 <= j < i ==> !(#[trigger] set.if_thens@[j]).eval.holds(values),
    ensures
        set.resolved(values) == Some(set.if_thens@[i].value),
{
    lemma_first_match_from(set, values, 0, i);
}

/// Of two rules whose conditions both hold, the later one never decides:
/// the rule that does stands at or before the earlier one.
pub proof fn lemma_earlier_rule_shadows_later<T>(
    set: Value<T>,
    values: Map<Seq<char>, Seq<char>>,
    earlier: int,
    later: int,
)
    requires
        0 <= earlier < later < set.if_thens@.len(),
        set.if_thens@[earlier].eval.holds(values),
        set.if_thens@[later].eval.holds(values),
    ensures
        set.first_match(values, 0) matches Some(i) && i <= earlier,
{
    lemma_match_is_first(set, values, 0);
}

/// When no condition holds, resolution gives the fallback, and nothing when
/// there is none.
pub proof fn lemma_no_holding_rule_gives_fallback<T>(
    set: Value<T>,
    values: Map<Seq<char>, Seq<char>>,
)
    requires
        forall|j: int|
            0 <= j < set.if_thens@.len() ==> !(#[trigger] set.if_thens@[j]).eval.holds(values),
    ensures
        set.resolved(values) == set.default,
{
    lemma_no_match_from(set, values, 0);
}

/// Resolution on the plain values of a conditional value gives the plain
/// value of what resolution gives on the conditional value itself.
pub proof fn lemma_resolution_goes_by_plain_values<T: DeepView>(
    set: Value<T>,
    values: Map<Seq<char>, Seq<char>>,
)
    ensures
        set.deep_view().resolved(values) == set.resolved(values).deep_view(),
{
    lemma_first_match_by_plain_values(set, values, 0);
}

/// The first match is the same on the plain values.
proof fn lemma_first_match_by_plain_values<T: DeepView>(
    set: Value<T>,
    values: Map<Seq<char>, Seq<char>>,
    from: int,
)
    requires
        0 <= from,
    ensures
        set.deep_view().first_match(values, from) == set.first_match(values, from),
        set.first_match(values, from) matches Some(i) ==> 0 <= i < set.if_thens@.len(),
    decreases set.if_thens@.len() - from,
{
    if from < set.if_thens@.len() && !set.if_thens@[from].eval.holds(values) {
        lemma_first_match_by_plain_values(set, values, from + 1);
    }
}

/// Two conditional values with the same rules and the same fallback, as
/// plain values, resolve to the same plain value.
pub proof fn lemma_same_rules_resolve_alike<T: DeepView>(
    a: Value<T>,
    b: Value<T>,
    values: Map<Seq<char>, Seq<char>>,
)
    requires
        a.deep_view() == b.deep_view(),
    ensures
        a.resolved(values).deep_view() == b.resolved(values).deep_view(),
{
    lemma_resolution_goes_by_plain_values(a, values);
    lemma_resolution_goes_by_plain_values(b, values);
}

/// On a field that is not set, a `MatchAny` condition never holds and a
/// `MatchNone` condition always does, whatever values they list.
pub proof fn lemma_unset_field_matches_none(eval: EvalView, values: Map<Seq<char>, Seq<char>>)
    requires
        !values.contains_key(eval.field.id@),
    ensures
        eval.holds(values) == (eval.condition == Condition::MatchNone),
{
}

/// What has no display condition is always shown.
pub proof fn lemma_no_condition_is_shown(values: Map<Seq<char>, Seq<char>>)
    ensures
        visible(Seq::empty(), values),
{
}

/// What has display conditions is shown exactly when one of them holds.
pub proof fn lemma_shown_when_any_holds(evals: Seq<EvalView>, values: Map<Seq<char>, Seq<char>>)
    requires
        evals.len() > 0,
    ensures
        visible(evals, values) == exists|i: int|
            0 <= i < evals.len() && (#[trigger] evals[i]).holds(values),
{
}

/// A checkbox is required whatever its checks say, and so is a selection.
pub proof fn lemma_checkbox_and_selection_required(
    field: Field,
    values: Map<Seq<char>, Seq<char>>,
)
    requires
        field.typ_ is Checkbox || field.typ_ is Select,
    ensures
        field.required(values),
{
}

/// A schema that was registered is found under its id, with that id, and a
/// registry in which every schema stands under its own id stays so.
pub proof fn lemma_registered_schema_is_found(before: Schemas, schema: Schema, after: Schemas)
    requires
        after.registered() == before.registered().insert(schema.id@, Arc::new(schema)),
    ensures
        after.registered().contains_key(schema.id@),
        after.registered()[schema.id@].id == schema.id,
        before.well_formed() ==> after.well_formed(),
{
}

/// Two fields of the same kind whose checks have the same rules and the
/// same fallback, as plain values, are required under the same values.
pub proof fn lemma_same_checks_same_requirement(
    a: Field,
    b: Field,
    values: Map<Seq<char>, Seq<char>>,
)
    requires
        a.typ_ == b.typ_,
        a.checks.deep_view() == b.checks.deep_view(),
    ensures
        a.required(values) == b.required(values),
{
    lemma_same_rules_resolve_alike(a.checks, b.checks, values);
}

/// In a sound registry every schema stands under its own id.
pub proof fn lemma_sound_registry_is_well_formed(registry: Schemas)
    requires
        registry.is_sound(),
    ensures
        registry.well_formed(),
{
}

} // verus!
