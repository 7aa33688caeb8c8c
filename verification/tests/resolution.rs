use std::sync::Arc;

use schema_engine::form::{FormData, FormValue};
use schema_engine::model::{
    Condition, Eval, Field, IfThen, InputCheck, Schema, Source, Transformer, Type, Validator, Value,
};
use schema_engine::registry::Schemas;
use schema_engine::resolve::SettingsValue;

fn empty_form() -> FormData {
    FormData::from(Arc::new(Schema::default()))
}

fn form_with(pairs: &[(&str, &str)]) -> FormData {
    let mut form = empty_form();
    for (key, value) in pairs {
        form.values
            .insert(key.to_string(), FormValue::Value(value.to_string()));
    }
    form
}

fn field(id: &'static str) -> Arc<Field> {
    let mut field = Field::blank();
    field.id = id;
    Arc::new(field)
}

fn eval(id: &'static str, values: Vec<&'static str>, condition: Condition) -> Eval {
    Eval {
        field: field(id),
        values,
        condition,
    }
}

#[test]
fn empty_rule_list_resolves_to_fallback() {
    let mut set: Value<&'static str> = Value::default();
    set.push_else("fallback");
    assert_eq!(set.eval(&empty_form()), Some(&"fallback"));
    assert_eq!(set.eval(&form_with(&[("mode", "fast")])), Some(&"fallback"));
}

#[test]
fn empty_rule_list_without_fallback_resolves_to_nothing() {
    let set: Value<&'static str> = Value::default();
    assert_eq!(set.eval(&empty_form()), None);
    assert_eq!(set.eval(&form_with(&[("mode", "fast")])), None);
}

#[test]
fn first_matching_rule_wins() {
    let mut set: Value<&'static str> = Value::default();
    set.push_if_matches_eq(field("mode"), vec!["fast", "faster"], "A");
    set.push_if_matches_eq(field("mode"), vec!["fast"], "B");
    set.push_else("C");
    assert_eq!(set.eval(&form_with(&[("mode", "fast")])), Some(&"A"));
    assert_eq!(set.eval(&form_with(&[("mode", "faster")])), Some(&"A"));
    assert_eq!(set.eval(&form_with(&[("mode", "slow")])), Some(&"C"));
}

#[test]
fn rule_order_decides_between_two_matches() {
    let mut first: Value<&'static str> = Value::default();
    first.push_if_matches_eq(field("mode"), vec!["x"], "A");
    first.push_if_matches_ne(field("other"), vec!["y"], "B");
    let mut second: Value<&'static str> = Value::default();
    second.push_if_matches_ne(field("other"), vec!["y"], "B");
    second.push_if_matches_eq(field("mode"), vec!["x"], "A");
    let form = form_with(&[("mode", "x")]);
    assert_eq!(first.eval(&form), Some(&"A"));
    assert_eq!(second.eval(&form), Some(&"B"));
}

#[test]
fn later_rule_applies_when_earlier_does_not() {
    let mut set: Value<&'static str> = Value::default();
    set.push_if_matches_eq(field("mode"), vec!["fast"], "A");
    set.push_if_matches_eq(field("mode"), vec!["slow"], "B");
    assert_eq!(set.eval(&form_with(&[("mode", "slow")])), Some(&"B"));
    assert_eq!(set.eval(&form_with(&[("mode", "other")])), None);
}

#[test]
fn match_any_needs_a_listed_value() {
    let any = eval("status", vec!["on", "off"], Condition::MatchAny);
    assert!(any.eval(&form_with(&[("status", "on")])));
    assert!(any.eval(&form_with(&[("status", "off")])));
    assert!(!any.eval(&form_with(&[("status", "maybe")])));
    assert!(!any.eval(&form_with(&[("other", "on")])));
}

#[test]
fn match_any_never_holds_of_an_absent_value() {
    assert!(!eval("status", vec!["on"], Condition::MatchAny).eval(&empty_form()));
    assert!(!eval("status", vec![""], Condition::MatchAny).eval(&empty_form()));
    assert!(!eval("status", vec![], Condition::MatchAny).eval(&empty_form()));
}

#[test]
fn match_none_always_holds_of_an_absent_value() {
    assert!(eval("status", vec!["on"], Condition::MatchNone).eval(&empty_form()));
    assert!(eval("status", vec![""], Condition::MatchNone).eval(&empty_form()));
    assert!(eval("status", vec![], Condition::MatchNone).eval(&empty_form()));
}

#[test]
fn match_none_rejects_a_listed_value() {
    let none = eval("status", vec!["on", "off"], Condition::MatchNone);
    assert!(!none.eval(&form_with(&[("status", "on")])));
    assert!(!none.eval(&form_with(&[("status", "off")])));
    assert!(none.eval(&form_with(&[("status", "maybe")])));
}

#[test]
fn empty_value_list_with_a_set_field() {
    let form = form_with(&[("status", "on")]);
    assert!(!eval("status", vec![], Condition::MatchAny).eval(&form));
    assert!(eval("status", vec![], Condition::MatchNone).eval(&form));
}

#[test]
fn field_without_conditions_is_visible() {
    let plain = Field::blank();
    assert!(plain.display(&empty_form()));
    assert!(plain.display(&form_with(&[("status", "on")])));
}

#[test]
fn visibility_is_the_or_of_the_conditions() {
    let mut shown = Field::blank();
    shown.display.push(eval("a", vec!["1"], Condition::MatchAny));
    shown.display.push(eval("b", vec!["2"], Condition::MatchAny));
    assert!(!shown.display(&empty_form()));
    assert!(shown.display(&form_with(&[("a", "1")])));
    assert!(shown.display(&form_with(&[("b", "2")])));
    assert!(shown.display(&form_with(&[("a", "1"), ("b", "2")])));
    assert!(!shown.display(&form_with(&[("a", "2"), ("b", "1")])));
}

#[test]
fn current_value_is_empty_when_absent() {
    let name = field("name");
    assert_eq!(name.value(&empty_form()), "");
    assert_eq!(name.value(&form_with(&[("name", "alice")])), "alice");
    assert_eq!(name.value(&form_with(&[("other", "alice")])), "");
}

#[test]
fn label_of_a_plain_field_is_its_value() {
    let name = field("name");
    assert_eq!(name.label(&form_with(&[("name", "alice")])), "alice");
    assert_eq!(name.label(&empty_form()), "");
}

static PROTOCOLS: &[(&str, &str)] = &[
    ("TLSv1.2", "TLS version 1.2"),
    ("TLSv1.3", "TLS version 1.3"),
    ("TLSv1.2", "shadowed"),
];

#[test]
fn static_source_gives_the_first_label_for_a_key() {
    let source: Source<&'static str, &'static str> = Source::Static(PROTOCOLS);
    let form = empty_form();
    assert_eq!(source.display("TLSv1.2", &form), Some("TLS version 1.2"));
    assert_eq!(source.display("TLSv1.3", &form), Some("TLS version 1.3"));
    assert_eq!(source.display("TLSv1.1", &form), None);
    assert_eq!(source.display("", &form), None);
}

#[test]
fn dynamic_source_reads_the_other_field() {
    let source: Source<&'static str, &'static str> = Source::Dynamic {
        schema: "directory",
        field: "description",
    };
    assert_eq!(
        source.display("ignored", &form_with(&[("description", "Main")])),
        Some("Main")
    );
    assert_eq!(source.display("ignored", &empty_form()), None);
}

#[test]
fn label_of_a_selection_goes_through_its_source() {
    let mut protocol = Field::blank();
    protocol.id = "protocol";
    protocol.typ_ = Type::Select(Source::Static(PROTOCOLS));
    assert_eq!(
        protocol.label(&form_with(&[("protocol", "TLSv1.3")])),
        "TLS version 1.3"
    );
    assert_eq!(
        protocol.label(&form_with(&[("protocol", "SSLv3")])),
        "SSLv3"
    );
    assert_eq!(protocol.label(&empty_form()), "");
}

#[test]
fn label_of_a_dynamic_selection() {
    let mut owner = Field::blank();
    owner.id = "owner";
    owner.typ_ = Type::Select(Source::Dynamic {
        schema: "account",
        field: "name",
    });
    assert_eq!(
        owner.label(&form_with(&[("owner", "7"), ("name", "Alice")])),
        "Alice"
    );
    assert_eq!(owner.label(&form_with(&[("owner", "7")])), "7");
}

#[test]
fn checkbox_is_required_without_a_required_validator() {
    let mut flag = Field::blank();
    flag.typ_ = Type::Checkbox;
    assert!(flag.is_required(&empty_form()));
    flag.checks
        .push_else(InputCheck::new(vec![Transformer::Trim], vec![Validator::IsId]));
    assert!(flag.is_required(&empty_form()));
    assert!(flag.is_required(&form_with(&[("x", "y")])));
}

#[test]
fn selection_is_required() {
    let mut choice = Field::blank();
    choice.typ_ = Type::Select(Source::Static(PROTOCOLS));
    assert!(choice.is_required(&empty_form()));
}

#[test]
fn input_is_required_by_its_resolved_checks() {
    let mut name = Field::blank();
    name.typ_ = Type::Input;
    assert!(!name.is_required(&empty_form()));
    name.checks.push_else(InputCheck::new(
        vec![Transformer::Trim],
        vec![Validator::MaxLength(10), Validator::IsEmail],
    ));
    assert!(!name.is_required(&empty_form()));
    name.checks.push_if_matches_eq(
        field("kind"),
        vec!["person"],
        InputCheck::new(vec![], vec![Validator::IsEmail, Validator::Required]),
    );
    assert!(name.is_required(&form_with(&[("kind", "person")])));
    assert!(!name.is_required(&form_with(&[("kind", "group")])));
}

#[test]
fn input_check_resolves_the_rule_that_applies() {
    let mut name = Field::blank();
    let fallback = InputCheck::new(vec![Transformer::Trim], vec![]);
    let strict = InputCheck::new(vec![Transformer::Lowercase], vec![Validator::Required]);
    name.checks.push_else(fallback.clone());
    name.checks
        .push_if_matches_eq(field("kind"), vec!["person"], strict.clone());
    assert_eq!(
        name.input_check(&form_with(&[("kind", "person")])),
        Some(&strict)
    );
    assert_eq!(name.input_check(&empty_form()), Some(&fallback));
    assert_eq!(Field::blank().input_check(&empty_form()), None);
}

#[test]
fn multivalue_kinds() {
    let mut any = Field::blank();
    assert!(any.is_multivalue());
    any.typ_ = Type::Array;
    assert!(any.is_multivalue());
    any.typ_ = Type::Input;
    assert!(!any.is_multivalue());
    any.typ_ = Type::Checkbox;
    assert!(!any.is_multivalue());
    any.typ_ = Type::Select(Source::Static(PROTOCOLS));
    assert!(!any.is_multivalue());
}

#[test]
fn placeholder_and_default_resolve_separately() {
    let mut timeout = Field::blank();
    timeout.default.push_else("30s");
    timeout.placeholder.push_else("e.g. 30s");
    timeout
        .placeholder
        .push_if_matches_ne(field("mode"), vec!["fast"], "slow mode");
    let fast = form_with(&[("mode", "fast")]);
    assert_eq!(timeout.default(&fast), Some("30s"));
    assert_eq!(timeout.placeholder(&fast), Some("e.g. 30s"));
    assert_eq!(timeout.placeholder(&empty_form()), Some("slow mode"));
    assert_eq!(Field::blank().default(&fast), None);
    assert_eq!(Field::blank().placeholder(&fast), None);
}

#[test]
fn form_answers_only_for_single_values() {
    let mut form = empty_form();
    form.values.insert(
        "domains".to_string(),
        FormValue::Array(vec!["a.org".to_string()]),
    );
    form.values
        .insert("name".to_string(), FormValue::Value("x".to_string()));
    assert_eq!(form.get("domains"), None);
    assert_eq!(form.get("name"), Some("x"));
    assert_eq!(form.get("missing"), None);
}

#[test]
fn rule_values_keep_their_order() {
    let mut set: Value<u32> = Value::default();
    set.push_if_matches_eq(field("a"), vec!["1"], 1);
    set.push_if_matches_ne(field("a"), vec!["1"], 2);
    set.push_else(3);
    assert_eq!(set.if_thens.len(), 2);
    let IfThen { eval, value } = &set.if_thens[0];
    assert_eq!(*value, 1);
    assert_eq!(eval.condition, Condition::MatchAny);
    assert_eq!(set.if_thens[1].eval.condition, Condition::MatchNone);
    assert_eq!(set.if_thens[1].value, 2);
    assert_eq!(set.default, Some(3));
    assert_eq!(set.eval(&form_with(&[("a", "1")])), Some(&1));
    assert_eq!(set.eval(&form_with(&[("a", "2")])), Some(&2));
    assert_eq!(set.eval(&empty_form()), Some(&2));
}

#[test]
fn registry_hands_out_an_empty_form() {
    let registry = Schemas::builder().new_schema("acme").build().build();
    let form = registry.build_form("acme");
    assert!(form.values.is_empty());
    assert!(form.errors.is_empty());
    assert!(!form.is_update);
    assert_eq!(form.schema.id, "acme");
    assert_eq!(form.get("anything"), None);
}
