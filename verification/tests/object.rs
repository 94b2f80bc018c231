use std::cell::Cell;
use std::rc::Rc;

use teo::action::{Action, CREATE, ENTRY, SINGLE, UPDATE};
use teo::error::ActionError;
use teo::json::Json;
use teo::model::{Field, Model, Type};
use teo::object::{settle, Object};
use teo::pipeline::ctx::{PathItem, Validity};
use teo::pipeline::items::gte::GteModifier;
use teo::pipeline::items::invalid::InvalidModifier;
use teo::pipeline::items::is_null::IsNullModifier;
use teo::pipeline::items::object_value::ObjectValueModifier;
use teo::pipeline::items::transform::TransformModifier;
use teo::pipeline::items::trim::TrimModifier;
use teo::pipeline::items::truncate::TruncateModifier;
use teo::pipeline::items::when::WhenModifier;
use teo::pipeline::{Argument, Item, Pipeline, TransformArgument};
use teo::value::{DateTime, Value};

struct Counting {
    calls: Rc<Cell<u32>>,
}

impl TransformArgument for Counting {
    fn call(&self, _value: Value) -> Value {
        self.calls.set(self.calls.get() + 1);
        Value::I32(self.calls.get() as i32)
    }
}

fn text(s: &str) -> Value {
    Value::String(s.to_string())
}

fn keys(names: &[&str]) -> Vec<String> {
    names.iter().map(|n| n.to_string()).collect()
}

fn object(entries: Vec<(&str, Json)>) -> Json {
    Json::Object(entries.into_iter().map(|(k, v)| (k.to_string(), v)).collect())
}

fn user_model() -> Model {
    let mut model = Model::new("User");
    let mut name = Field::new("name", Type::String);
    name.on_set_pipeline = Pipeline::from_items(vec![Item::Trim(TrimModifier::new())]);
    let mut age = Field::new("age", Type::I32);
    age.on_set_pipeline = Pipeline::from_items(vec![Item::Gte(GteModifier::new(
        Argument::ValueArgument(Value::I32(0)),
    ))]);
    age.on_save_pipeline = Pipeline::from_items(vec![Item::Gte(GteModifier::new(
        Argument::ValueArgument(Value::I32(0)),
    ))]);
    let mut role = Field::new("role", Type::String);
    role.default = Some(Argument::ValueArgument(text("member")));
    let secret = Field::new("secret", Type::String);
    model.fields = vec![name, age, role, secret];
    model.input_keys = keys(&["name", "age", "role"]);
    model.save_keys = keys(&["name", "age", "role", "secret"]);
    model.output_keys = keys(&["name", "age", "role"]);
    model.all_getable_keys = keys(&["name", "age", "role"]);
    model
}

#[test]
fn a_new_record_is_empty() {
    let model = user_model();
    let record = Object::new(&model);
    assert!(record.is_new);
    assert!(!record.is_initialized);
    assert!(!record.is_modified);
    assert!(!record.is_partial);
    assert!(!record.is_deleted);
    assert!(record.selected_fields.is_empty());
    assert!(record.modified_fields.is_empty());
    assert_eq!(record.get_value("name"), Ok(None));
}

#[test]
fn set_value_stores_under_a_save_key() {
    let model = user_model();
    let mut record = Object::new(&model);
    assert_eq!(record.set_value("age", Value::I32(3)), Ok(()));
    assert_eq!(record.get_value("age"), Ok(Some(Value::I32(3))));
    assert!(!record.is_modified);
    assert!(record.modified_fields.is_empty());
}

#[test]
fn set_value_marks_a_record_that_is_not_new() {
    let model = user_model();
    let mut record = Object::new(&model);
    record.is_new = false;
    assert_eq!(record.set_value("age", Value::I32(3)), Ok(()));
    assert!(record.is_modified);
    assert!(record.modified_fields.contains("age"));
    assert!(!record.modified_fields.contains("name"));
}

#[test]
fn set_value_refuses_a_key_that_is_not_allowed() {
    let model = user_model();
    let mut record = Object::new(&model);
    record.is_new = false;
    assert_eq!(
        record.set_value("height", Value::I32(3)),
        Err(ActionError::KeysUnallowed)
    );
    assert!(!record.is_modified);
    assert!(record.modified_fields.is_empty());
    assert!(!record.value_map.contains_key("height"));
}

#[test]
fn get_value_refuses_a_key_that_cannot_be_read() {
    let model = user_model();
    let mut record = Object::new(&model);
    record.set_value("secret", text("x")).unwrap();
    assert_eq!(record.get_value("secret"), Err(ActionError::KeysUnallowed));
    assert_eq!(record.get_value("age"), Ok(None));
}

#[test]
fn select_and_deselect_keep_the_set_of_output_fields() {
    let model = user_model();
    let mut record = Object::new(&model);
    assert_eq!(record.select(&keys(&["name", "age"])), Ok(()));
    assert!(record.selected_fields.contains("name"));
    assert!(record.selected_fields.contains("age"));
    assert!(!record.selected_fields.contains("role"));
    assert_eq!(record.deselect(&keys(&["name"])), Ok(()));
    assert!(!record.selected_fields.contains("name"));
    assert!(record.selected_fields.contains("age"));
}

#[test]
fn deselect_starts_from_the_output_keys_where_nothing_was_selected() {
    let model = user_model();
    let mut record = Object::new(&model);
    assert_eq!(record.deselect(&keys(&["age"])), Ok(()));
    assert!(record.selected_fields.contains("name"));
    assert!(record.selected_fields.contains("role"));
    assert!(!record.selected_fields.contains("age"));
    assert!(!record.selected_fields.contains("secret"));
    let mut all: Vec<String> = record.selected_fields.to_vec();
    all.sort();
    assert_eq!(all, keys(&["name", "role"]));
}

#[test]
fn delete_and_to_json_give_the_record_back() {
    let model = user_model();
    let mut record = Object::new(&model);
    record.set_value("age", Value::I32(3)).unwrap();
    assert_eq!(record.delete().get_value("age"), Ok(Some(Value::I32(3))));
    assert_eq!(record.to_json().get_value("age"), Ok(Some(Value::I32(3))));
}

#[test]
fn first_assignment_runs_on_set_pipelines_and_applies_defaults() {
    let model = user_model();
    let mut record = Object::new(&model);
    let input = object(vec![
        ("name", Json::String("  Ada  ".to_string())),
        ("age", Json::Integer(36)),
    ]);
    assert_eq!(record.set_json(&input), Ok(()));
    assert!(record.is_initialized);
    assert_eq!(record.get_value("name"), Ok(Some(text("Ada"))));
    assert_eq!(record.get_value("age"), Ok(Some(Value::I32(36))));
    assert_eq!(record.get_value("role"), Ok(Some(text("member"))));
    assert!(!record.value_map.contains_key("secret"));
    assert!(!record.is_modified);
}

#[test]
fn update_json_stores_values_as_they_are() {
    let model = user_model();
    let mut record = Object::new(&model);
    let input = object(vec![
        ("name", Json::String("  Ada  ".to_string())),
        ("secret", Json::String("s".to_string())),
    ]);
    assert_eq!(record.update_json(&input), Ok(()));
    assert_eq!(record.get_value("name"), Ok(Some(text("  Ada  "))));
    assert_eq!(record.value_map.get("secret"), Some(&text("s")));
    assert_eq!(record.get_value("role"), Ok(Some(text("member"))));
}

#[test]
fn a_key_that_is_not_allowed_fails_the_whole_assignment() {
    let model = user_model();
    let mut record = Object::new(&model);
    let input = object(vec![
        ("name", Json::String("Ada".to_string())),
        ("secret", Json::String("s".to_string())),
    ]);
    assert_eq!(record.set_json(&input), Err(ActionError::KeysUnallowed));
    assert!(!record.is_initialized);
    assert!(!record.value_map.contains_key("name"));
    assert!(!record.value_map.contains_key("role"));
    assert!(!record.value_map.contains_key("secret"));
    assert!(record.modified_fields.is_empty());
    let unknown = object(vec![("height", Json::Integer(1))]);
    assert_eq!(record.update_json(&unknown), Err(ActionError::KeysUnallowed));
    assert!(!record.is_initialized);
    assert!(!record.value_map.contains_key("height"));
}

#[test]
fn a_value_of_the_wrong_type_is_a_type_mismatch() {
    let model = user_model();
    let mut record = Object::new(&model);
    let input = object(vec![("age", Json::Bool(true))]);
    assert_eq!(
        record.set_json(&input),
        Err(ActionError::TypeMismatch {
            path: vec![PathItem::Key("age".to_string())]
        })
    );
    let too_wide = object(vec![("age", Json::Integer(1 << 40))]);
    assert_eq!(
        record.set_json(&too_wide),
        Err(ActionError::TypeMismatch {
            path: vec![PathItem::Key("age".to_string())]
        })
    );
    assert_eq!(
        record.set_json(&Json::Array(vec![])),
        Err(ActionError::TypeMismatch { path: vec![] })
    );
}

#[test]
fn a_refused_value_is_a_validation_failure_at_its_field() {
    let model = user_model();
    let mut record = Object::new(&model);
    let input = object(vec![
        ("name", Json::String(" Ada ".to_string())),
        ("age", Json::Integer(-1)),
    ]);
    assert_eq!(
        record.set_json(&input),
        Err(ActionError::ValidationFailed {
            path: vec![PathItem::Key("age".to_string())],
            reason: "Value is not greater than or equal to rhs.".to_string(),
        })
    );
    assert_eq!(record.value_map.get("name"), Some(&text("Ada")));
    assert!(!record.value_map.contains_key("age"));
    assert!(!record.is_initialized);
}

#[test]
fn a_leftover_condition_signal_is_an_inconsistency() {
    let mut model = Model::new("Note");
    let mut body = Field::new("body", Type::String);
    body.on_save_pipeline = Pipeline::from_items(vec![Item::IsNull(IsNullModifier::new())]);
    model.fields = vec![body];
    model.save_keys = keys(&["body", "ghost"]);
    let mut record = Object::new(&model);
    assert_eq!(
        record.save(),
        Err(ActionError::InternalInconsistency {
            reason: "Pipeline modifiers are invalid.".to_string()
        })
    );
    let mut bare = Model::new("Bare");
    bare.save_keys = keys(&["ghost"]);
    let mut record = Object::new(&bare);
    assert_eq!(
        record.save(),
        Err(ActionError::InternalInconsistency {
            reason: "Key names no field.".to_string()
        })
    );
}

#[test]
fn save_runs_on_save_pipelines_in_the_order_of_the_model() {
    let mut model = Model::new("Pair");
    let mut first = Field::new("first", Type::String);
    first.on_save_pipeline = Pipeline::from_items(vec![Item::Truncate(TruncateModifier::new(
        Argument::ValueArgument(Value::I32(2)),
    ))]);
    let mut second = Field::new("second", Type::String);
    second.on_save_pipeline =
        Pipeline::from_items(vec![Item::ObjectValue(ObjectValueModifier::new("first"))]);
    model.fields = vec![first, second];
    model.save_keys = keys(&["first", "second"]);
    let mut record = Object::new(&model);
    record.set_value("first", text("hello")).unwrap();
    record.set_value("second", text("x")).unwrap();
    assert_eq!(record.save(), Ok(()));
    assert_eq!(record.value_map.get("first"), Some(&text("he")));
    assert_eq!(record.value_map.get("second"), Some(&text("he")));
}

#[test]
fn save_keeps_what_was_written_before_a_failure() {
    let mut model = Model::new("Pair");
    let mut first = Field::new("first", Type::String);
    first.on_save_pipeline = Pipeline::from_items(vec![Item::Truncate(TruncateModifier::new(
        Argument::ValueArgument(Value::I32(2)),
    ))]);
    let mut second = Field::new("second", Type::String);
    second.on_save_pipeline = Pipeline::from_items(vec![Item::Invalid(InvalidModifier::new())]);
    let mut third = Field::new("third", Type::String);
    third.on_save_pipeline = Pipeline::from_items(vec![Item::Truncate(TruncateModifier::new(
        Argument::ValueArgument(Value::I32(1)),
    ))]);
    model.fields = vec![first, second, third];
    model.save_keys = keys(&["first", "second", "third"]);
    let mut record = Object::new(&model);
    record.is_new = false;
    record.set_value("first", text("hello")).unwrap();
    record.set_value("third", text("hello")).unwrap();
    assert_eq!(
        record.save(),
        Err(ActionError::ValidationFailed {
            path: vec![PathItem::Key("second".to_string())],
            reason: "Value is invalid.".to_string(),
        })
    );
    assert_eq!(record.value_map.get("first"), Some(&text("he")));
    assert_eq!(record.value_map.get("third"), Some(&text("hello")));
    assert!(!record.value_map.contains_key("second"));
}

#[test]
fn saving_twice_without_effects_stores_the_same_values() {
    let model = user_model();
    let mut record = Object::new(&model);
    let input = object(vec![
        ("name", Json::String("Ada".to_string())),
        ("age", Json::Integer(36)),
    ]);
    record.set_json(&input).unwrap();
    assert_eq!(record.save(), Ok(()));
    let name = record.get_value("name");
    let age = record.get_value("age");
    let role = record.get_value("role");
    assert_eq!(record.save(), Ok(()));
    assert_eq!(record.get_value("name"), name);
    assert_eq!(record.get_value("age"), age);
    assert_eq!(record.get_value("role"), role);
    assert_eq!(age, Ok(Some(Value::I32(36))));
}

#[test]
fn saving_twice_with_an_effect_can_store_other_values() {
    let mut model = Model::new("Note");
    let mut body = Field::new("body", Type::String);
    body.on_save_pipeline = Pipeline::from_items(vec![
        Item::Trim(TrimModifier::new()),
        Item::Truncate(TruncateModifier::new(Argument::ValueArgument(Value::I32(3)))),
    ]);
    model.fields = vec![body];
    model.save_keys = keys(&["body"]);
    let mut record = Object::new(&model);
    record.set_value("body", text("ab  cd")).unwrap();
    assert_eq!(record.save(), Ok(()));
    assert_eq!(record.value_map.get("body"), Some(&text("ab ")));
    assert_eq!(record.save(), Ok(()));
    assert_eq!(record.value_map.get("body"), Some(&text("ab")));
}

#[test]
fn a_default_is_applied_once() {
    let calls = Rc::new(Cell::new(0));
    let mut model = Model::new("Ticket");
    let mut number = Field::new("number", Type::I32);
    number.default = Some(Argument::FunctionArgument(Box::new(Counting {
        calls: calls.clone(),
    })));
    let title = Field::new("title", Type::String);
    model.fields = vec![number, title];
    model.input_keys = keys(&["number", "title"]);
    model.save_keys = keys(&["number", "title"]);
    model.all_getable_keys = keys(&["number", "title"]);
    let mut record = Object::new(&model);
    record
        .set_json(&object(vec![("title", Json::String("a".to_string()))]))
        .unwrap();
    assert_eq!(calls.get(), 1);
    assert_eq!(record.get_value("number"), Ok(Some(Value::I32(1))));
    record
        .set_json(&object(vec![("title", Json::String("b".to_string()))]))
        .unwrap();
    assert_eq!(calls.get(), 1);
    assert_eq!(record.get_value("number"), Ok(Some(Value::I32(1))));
    record.set_value("number", Value::Null).unwrap();
    assert_eq!(record.save(), Ok(()));
    assert_eq!(record.get_value("number"), Ok(Some(Value::Null)));
    record
        .set_json(&object(vec![("title", Json::String("c".to_string()))]))
        .unwrap();
    assert_eq!(record.get_value("number"), Ok(Some(Value::Null)));
    assert_eq!(calls.get(), 1);
}

#[test]
fn an_explicit_null_is_stored_and_not_defaulted() {
    let model = user_model();
    let mut record = Object::new(&model);
    let input = object(vec![("role", Json::Null)]);
    assert_eq!(record.set_json(&input), Ok(()));
    assert_eq!(record.get_value("role"), Ok(Some(Value::Null)));
}

#[test]
fn a_record_that_is_not_new_takes_no_default() {
    let model = user_model();
    let mut record = Object::new(&model);
    record.is_new = false;
    let input = object(vec![("name", Json::String("Ada".to_string()))]);
    assert_eq!(record.update_json(&input), Ok(()));
    assert!(record.is_initialized);
    assert_eq!(record.get_value("role"), Ok(None));
    assert!(record.is_modified);
    assert!(record.modified_fields.contains("name"));
}

#[test]
fn a_default_can_come_from_a_pipeline() {
    let mut model = Model::new("Post");
    let mut title = Field::new("title", Type::String);
    title.default = Some(Argument::PipelineArgument(Pipeline::from_items(vec![
        Item::Transform(TransformModifier::new(Box::new(Counting {
            calls: Rc::new(Cell::new(6)),
        }))),
    ])));
    let mut body = Field::new("body", Type::String);
    body.default = Some(Argument::PipelineArgument(Pipeline::from_items(vec![
        Item::Invalid(InvalidModifier::new()),
    ])));
    model.fields = vec![title, body];
    model.input_keys = keys(&["title", "body"]);
    model.all_getable_keys = keys(&["title", "body"]);
    let mut record = Object::new(&model);
    assert_eq!(
        record.set_json(&object(vec![])),
        Err(ActionError::ValidationFailed {
            path: vec![PathItem::Key("body".to_string())],
            reason: "Value is invalid.".to_string(),
        })
    );
    assert_eq!(record.get_value("title"), Ok(Some(Value::I32(7))));
    assert_eq!(record.get_value("body"), Ok(None));
}

#[test]
fn instants_are_read_from_their_text() {
    let mut model = Model::new("Event");
    model.fields = vec![Field::new("at", Type::DateTime), Field::new("id", Type::ObjectId)];
    model.input_keys = keys(&["at", "id"]);
    model.all_getable_keys = keys(&["at", "id"]);
    let mut record = Object::new(&model);
    let input = object(vec![
        ("at", Json::String("1996-12-19T16:39:57.5-08:00".to_string())),
        ("id", Json::String("12345678901234567890abcd".to_string())),
    ]);
    assert_eq!(record.set_json(&input), Ok(()));
    assert_eq!(
        record.get_value("at"),
        Ok(Some(Value::DateTime(DateTime {
            seconds: 851042397,
            nanos: 500_000_000
        })))
    );
    assert_eq!(
        record.get_value("id"),
        Ok(Some(Value::ObjectId("12345678901234567890abcd".to_string())))
    );
    let bad = object(vec![("at", Json::String("yesterday".to_string()))]);
    assert_eq!(
        record.set_json(&bad),
        Err(ActionError::TypeMismatch {
            path: vec![PathItem::Key("at".to_string())]
        })
    );
}

#[test]
fn settle_takes_the_value_or_tells_what_went_wrong() {
    assert_eq!(settle(Value::I32(1), Validity::Valid, "age"), Ok(Value::I32(1)));
    assert_eq!(
        settle(Value::I32(1), Validity::Invalid("no".to_string()), "age"),
        Err(ActionError::ValidationFailed {
            path: vec![PathItem::Key("age".to_string())],
            reason: "no".to_string(),
        })
    );
    assert_eq!(
        settle(Value::I32(1), Validity::ConditionTrue, "age"),
        Err(ActionError::InternalInconsistency {
            reason: "Pipeline modifiers are invalid.".to_string()
        })
    );
    assert_eq!(
        settle(Value::I32(1), Validity::ConditionFalse, "age"),
        Err(ActionError::InternalInconsistency {
            reason: "Pipeline modifiers are invalid.".to_string()
        })
    );
}

#[test]
fn errors_have_messages_and_copies() {
    assert_eq!(ActionError::keys_unallowed().message(), "Unallowed keys detected.");
    assert_eq!(
        ActionError::type_mismatch("age").message(),
        "Value is not of the declared type."
    );
    assert_eq!(
        ActionError::invalid_input("age", "too small".to_string()).message(),
        "too small"
    );
    assert_eq!(
        ActionError::internal_server_error("broken".to_string()).message(),
        "broken"
    );
    let error = ActionError::invalid_input("age", "too small".to_string());
    assert_eq!(error.clone(), error);
    assert_eq!(
        error,
        ActionError::ValidationFailed {
            path: vec![PathItem::Key("age".to_string())],
            reason: "too small".to_string(),
        }
    );
}

#[test]
fn fields_are_found_by_name() {
    let model = user_model();
    assert_eq!(model.field("age").map(|f| f.field_type), Some(Type::I32));
    assert_eq!(model.field("role").map(|f| f.name.clone()), Some("role".to_string()));
    assert!(model.field("height").is_none());
    assert_eq!(model.name, "User");
}

#[test]
fn save_runs_the_pipeline_on_null_where_nothing_is_stored() {
    let mut model = Model::new("Note");
    let mut body = Field::new("body", Type::String);
    body.on_save_pipeline = Pipeline::from_items(vec![Item::Trim(TrimModifier::new())]);
    let mut flag = Field::new("flag", Type::Bool);
    flag.on_save_pipeline = Pipeline::from_items(vec![Item::Gte(GteModifier::new(
        Argument::ValueArgument(Value::Null),
    ))]);
    model.fields = vec![body, flag];
    model.save_keys = keys(&["body"]);
    let mut record = Object::new(&model);
    assert_eq!(
        record.save(),
        Err(ActionError::ValidationFailed {
            path: vec![PathItem::Key("body".to_string())],
            reason: "Value is not string.".to_string(),
        })
    );
    assert!(!record.value_map.contains_key("body"));
    record.set_value("body", text(" x ")).unwrap();
    assert_eq!(record.save(), Ok(()));
    assert_eq!(record.value_map.get("body"), Some(&text("x")));
    assert!(!record.value_map.contains_key("flag"));
}

#[test]
fn saving_leaves_the_rest_of_the_record_alone() {
    let model = user_model();
    let mut record = Object::new(&model);
    record.is_new = false;
    record.select(&keys(&["name"])).unwrap();
    record.set_value("age", Value::I32(3)).unwrap();
    assert_eq!(record.save(), Ok(()));
    assert!(record.selected_fields.contains("name"));
    assert!(!record.is_initialized);
    assert!(!record.is_new);
    assert!(record.is_modified);
    assert!(record.modified_fields.contains("age"));
    assert!(!record.modified_fields.contains("name"));
}

#[test]
fn the_action_of_the_record_reaches_its_pipelines() {
    let mut model = Model::new("Note");
    let mut body = Field::new("body", Type::String);
    body.on_save_pipeline = Pipeline::from_items(vec![Item::When(WhenModifier::new(
        vec![Action::from_u32(CREATE)],
        Pipeline::from_items(vec![Item::Invalid(InvalidModifier::new())]),
    ))]);
    model.fields = vec![body];
    model.save_keys = keys(&["body"]);
    let mut updating = Object::new(&model);
    updating.action = Action::from_u32(UPDATE | ENTRY | SINGLE);
    updating.set_value("body", text("x")).unwrap();
    assert_eq!(updating.save(), Ok(()));
    let mut creating = Object::new(&model);
    creating.action = Action::from_u32(CREATE | ENTRY | SINGLE);
    creating.set_value("body", text("x")).unwrap();
    assert_eq!(
        creating.save(),
        Err(ActionError::ValidationFailed {
            path: vec![PathItem::Key("body".to_string())],
            reason: "Value is invalid.".to_string(),
        })
    );
}
