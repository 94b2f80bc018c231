use teo::action::{
    Action, CREATE, CREATE_HANDLER, CREATE_MANY_HANDLER, ENTRY, FIND_MANY_HANDLER, SINGLE, UPDATE,
    UPDATE_HANDLER, UPSERT,
};
use teo::graph::{Graph, UserCtx};
use teo::json::Json;
use teo::model::Model;
use teo::pipeline::ctx::PathItem;
use teo::relation::{DeleteRule, Optionality, Relation};
use teo::server::error::{key_path, key_path2, Error};
use teo::server::form::{field_name, field_name_from, file_entry, form_insert, FieldName};
use teo::server::input::{
    commits, create_input, create_many_entries, many_result, sub_input, transform_plan, TransformPlan,
    UpsertBranch,
};
use teo::server::paging::{find_many_meta, is_paging_key, number_of_pages, without_paging};
use teo::server::path::{parse_path, purify, PathComponents};
use teo::server::sign_in::{read_credentials, token_expiry, Credentials};
use teo::server::{
    bearer_token, body_accepts, grown_body, identity_of_model, object_root, route, status_class, ActionInputFormat, Handler, ResetMode,
    ResetTime, Route, StatusClass, MAX_BODY_SIZE,
};
use teo::text::{ends_with, split_on, starts_with};
use teo::value::Value;

fn text(s: &str) -> Value {
    Value::String(s.to_string())
}

fn dict(entries: Vec<(&str, Value)>) -> Value {
    Value::Dictionary(entries.into_iter().map(|(k, v)| (k.to_string(), v)).collect())
}

fn keys(names: &[&str]) -> Vec<String> {
    names.iter().map(|n| n.to_string()).collect()
}

fn key(name: &str) -> PathItem {
    PathItem::Key(name.to_string())
}

#[test]
fn a_path_names_a_namespace_a_model_and_an_action() {
    assert_eq!(
        parse_path("/users/create", None),
        Ok(PathComponents {
            ns: vec![],
            model: "users".to_string(),
            action: "create".to_string()
        })
    );
    assert_eq!(
        parse_path("/shop/admin/users/create/", None),
        Ok(PathComponents {
            ns: keys(&["shop", "admin"]),
            model: "users".to_string(),
            action: "create".to_string()
        })
    );
    assert_eq!(
        parse_path("users/findMany", None),
        Ok(PathComponents {
            ns: vec![],
            model: "users".to_string(),
            action: "findMany".to_string()
        })
    );
    assert_eq!(
        parse_path("//users/create", None),
        Ok(PathComponents {
            ns: keys(&[""]),
            model: "users".to_string(),
            action: "create".to_string()
        })
    );
}

#[test]
fn a_path_with_fewer_than_two_pieces_names_nothing() {
    assert_eq!(parse_path("/users", None), Err(Error::DestinationNotFound));
    assert_eq!(parse_path("/", None), Err(Error::DestinationNotFound));
    assert_eq!(parse_path("", None), Err(Error::DestinationNotFound));
    assert_eq!(parse_path("users/", None), Err(Error::DestinationNotFound));
}

#[test]
fn a_path_is_read_behind_its_prefix() {
    assert_eq!(
        parse_path("/api/users/create", Some("/api")),
        Ok(PathComponents {
            ns: vec![],
            model: "users".to_string(),
            action: "create".to_string()
        })
    );
    assert_eq!(
        parse_path("/v1/users/create", Some("/api")),
        Err(Error::DestinationNotFound)
    );
    assert_eq!(parse_path("/api", Some("/api")), Err(Error::DestinationNotFound));
    assert_eq!(
        parse_path("/ap", Some("/api")),
        Err(Error::DestinationNotFound)
    );
    assert_eq!(purify("/static/a.png", Some("/static")), "/a.png");
    assert_eq!(purify("/other/a.png", Some("/static")), "/other/a.png");
    assert_eq!(purify("/other/a.png", None), "/other/a.png");
}

#[test]
fn the_model_path_is_the_namespace_and_the_model() {
    let components = PathComponents {
        ns: keys(&["shop", "admin"]),
        model: "users".to_string(),
        action: "create".to_string(),
    };
    assert_eq!(components.model_path(), vec!["shop", "admin", "users"]);
    let bare = PathComponents {
        ns: vec![],
        model: "users".to_string(),
        action: "create".to_string(),
    };
    assert_eq!(bare.model_path(), vec!["users"]);
}

#[test]
fn strings_are_split_and_matched_at_their_ends() {
    assert_eq!(split_on("a/b/c", '/'), keys(&["a", "b", "c"]));
    assert_eq!(split_on("", '/'), keys(&[""]));
    assert_eq!(split_on("/", '/'), keys(&["", ""]));
    assert_eq!(split_on("a//b/", '/'), keys(&["a", "", "b", ""]));
    assert_eq!(split_on("é/è", '/'), keys(&["é", "è"]));
    assert!(starts_with("hello", "he"));
    assert!(starts_with("hello", ""));
    assert!(starts_with("hello", "hello"));
    assert!(!starts_with("hello", "hello!"));
    assert!(!starts_with("hello", "el"));
    assert!(ends_with("hello", "lo"));
    assert!(ends_with("hello", ""));
    assert!(!ends_with("hello", "hell"));
    assert!(!ends_with("lo", "hello"));
}

#[test]
fn status_codes_fall_into_classes() {
    assert_eq!(status_class(0), StatusClass::Informational);
    assert_eq!(status_class(199), StatusClass::Informational);
    assert_eq!(status_class(200), StatusClass::Success);
    assert_eq!(status_class(299), StatusClass::Success);
    assert_eq!(status_class(300), StatusClass::Redirection);
    assert_eq!(status_class(399), StatusClass::Redirection);
    assert_eq!(status_class(400), StatusClass::Failure);
    assert_eq!(status_class(500), StatusClass::Failure);
    assert_eq!(status_class(u16::MAX), StatusClass::Failure);
}

#[test]
fn requests_are_routed_by_method() {
    assert_eq!(route("GET"), Route::StaticFile);
    assert_eq!(route("POST"), Route::Action);
    assert_eq!(route("OPTIONS"), Route::Preflight);
    assert_eq!(route("PUT"), Route::NotFound);
    assert_eq!(route("get"), Route::NotFound);
    assert_eq!(
        ActionInputFormat::from_content_type("multipart/form-data"),
        ActionInputFormat::Form
    );
    assert_eq!(
        ActionInputFormat::from_content_type("application/json"),
        ActionInputFormat::Json
    );
    assert_eq!(ActionInputFormat::from_content_type(""), ActionInputFormat::Json);
    assert!(ActionInputFormat::Json.is_json());
    assert!(!ActionInputFormat::Json.is_form());
    assert!(ActionInputFormat::Form.is_form());
}

#[test]
fn a_body_is_held_up_to_the_limit() {
    assert_eq!(MAX_BODY_SIZE, 262_144);
    assert!(body_accepts(0, 262_144));
    assert!(body_accepts(262_143, 1));
    assert!(!body_accepts(262_144, 1));
    assert!(!body_accepts(0, 262_145));
    assert!(!body_accepts(usize::MAX, usize::MAX));
    assert!(body_accepts(0, 0));
}

#[test]
fn the_token_follows_the_scheme() {
    assert_eq!(bearer_token("Bearer abc.def"), Ok("abc.def".to_string()));
    assert_eq!(bearer_token("Bearer "), Ok("".to_string()));
    assert_eq!(bearer_token("Bearer"), Err(Error::InvalidAuthToken));
    assert_eq!(bearer_token(""), Err(Error::InvalidAuthToken));
}

#[test]
fn handlers_take_the_actions_with_their_flags() {
    assert_eq!(
        Handler::of_action(Action::from_u32(CREATE_HANDLER)),
        Some(Handler::Create)
    );
    assert_eq!(
        Handler::of_action(Action::from_u32(FIND_MANY_HANDLER)),
        Some(Handler::FindMany)
    );
    assert_eq!(Handler::of_action(Action::from_u32(CREATE)), None);
    assert_eq!(Handler::of_action(Action::from_u32(0)), None);
    let names = [
        ("findUnique", Handler::FindUnique),
        ("findFirst", Handler::FindFirst),
        ("findMany", Handler::FindMany),
        ("create", Handler::Create),
        ("update", Handler::Update),
        ("upsert", Handler::Upsert),
        ("delete", Handler::Delete),
        ("createMany", Handler::CreateMany),
        ("updateMany", Handler::UpdateMany),
        ("deleteMany", Handler::DeleteMany),
        ("count", Handler::Count),
        ("aggregate", Handler::Aggregate),
        ("groupBy", Handler::GroupBy),
        ("signIn", Handler::SignIn),
        ("identity", Handler::Identity),
    ];
    for (name, handler) in names {
        let action = Action::handler_from_name(name).unwrap();
        assert_eq!(Handler::of_action(action), Some(handler));
    }
}

#[test]
fn data_is_put_back_after_the_handlers_that_touch_it() {
    assert_eq!(Handler::FindUnique.reset_time(), ResetTime::AfterQuery);
    assert_eq!(Handler::FindMany.reset_time(), ResetTime::AfterQuery);
    assert_eq!(Handler::Create.reset_time(), ResetTime::AfterMutation);
    assert_eq!(Handler::DeleteMany.reset_time(), ResetTime::AfterMutation);
    assert_eq!(Handler::Count.reset_time(), ResetTime::Never);
    assert_eq!(Handler::SignIn.reset_time(), ResetTime::Never);
    assert!(!Handler::Create.needs_reset(None));
    assert!(Handler::Create.needs_reset(Some(ResetMode::AfterMutation)));
    assert!(Handler::Create.needs_reset(Some(ResetMode::AfterQuery)));
    assert!(Handler::FindFirst.needs_reset(Some(ResetMode::AfterQuery)));
    assert!(!Handler::FindFirst.needs_reset(Some(ResetMode::AfterMutation)));
    assert!(!Handler::Identity.needs_reset(Some(ResetMode::AfterQuery)));
    assert!(ResetMode::AfterQuery.after_query());
    assert!(ResetMode::AfterQuery.after_mutation());
    assert!(!ResetMode::AfterMutation.after_query());
}

#[test]
fn pages_are_counted_up() {
    assert_eq!(number_of_pages(0, 10), Some(0));
    assert_eq!(number_of_pages(1, 10), Some(1));
    assert_eq!(number_of_pages(10, 10), Some(1));
    assert_eq!(number_of_pages(11, 10), Some(2));
    assert_eq!(number_of_pages(u64::MAX, 1), Some(u64::MAX));
    assert_eq!(number_of_pages(u64::MAX, 2), Some(1 << 63));
    assert_eq!(number_of_pages(5, 0), None);
}

#[test]
fn the_count_is_asked_without_paging() {
    let input = dict(vec![
        ("where", dict(vec![("age", Value::I32(3))])),
        ("skip", Value::I32(1)),
        ("orderBy", text("name")),
        ("take", Value::I32(2)),
        ("pageSize", Value::I32(3)),
        ("pageNumber", Value::I32(4)),
    ]);
    assert_eq!(
        without_paging(&input),
        dict(vec![
            ("where", dict(vec![("age", Value::I32(3))])),
            ("orderBy", text("name")),
        ])
    );
    assert_eq!(without_paging(&dict(vec![])), dict(vec![]));
    assert_eq!(without_paging(&Value::I32(1)), Value::I32(1));
    assert!(is_paging_key("skip"));
    assert!(is_paging_key("pageNumber"));
    assert!(!is_paging_key("where"));
}

#[test]
fn the_meta_of_a_list_counts_records_and_pages() {
    assert_eq!(find_many_meta(7, None), dict(vec![("count", Value::U64(7))]));
    assert_eq!(
        find_many_meta(7, Some(&Value::I32(3))),
        dict(vec![("count", Value::U64(7)), ("numberOfPages", Value::U64(3))])
    );
    assert_eq!(
        find_many_meta(6, Some(&Value::U8(3))),
        dict(vec![("count", Value::U64(6)), ("numberOfPages", Value::U64(2))])
    );
    assert_eq!(
        find_many_meta(7, Some(&Value::I32(0))),
        dict(vec![("count", Value::U64(7))])
    );
    assert_eq!(
        find_many_meta(7, Some(&Value::I32(-3))),
        dict(vec![("count", Value::U64(7))])
    );
    assert_eq!(find_many_meta(7, Some(&text("3"))), dict(vec![("count", Value::U64(7))]));
}

#[test]
fn many_records_give_their_data_and_their_number() {
    let (data, count) = many_result(vec![
        Some(Value::I32(1)),
        None,
        Some(text("b")),
        None,
        Some(Value::Null),
    ]);
    assert_eq!(data, Value::Vec(vec![Value::I32(1), text("b"), Value::Null]));
    assert_eq!(count, Value::I32(3));
    let (data, count) = many_result(vec![None, None]);
    assert_eq!(data, Value::Vec(vec![]));
    assert_eq!(count, Value::I32(0));
    let (data, count) = many_result(vec![]);
    assert_eq!(data, Value::Vec(vec![]));
    assert_eq!(count, Value::I32(0));
}

#[test]
fn handlers_read_their_part_of_the_input() {
    let input = dict(vec![
        ("update", dict(vec![("age", Value::I32(3))])),
        ("create", Value::Vec(vec![dict(vec![]), dict(vec![("a", Value::Null)])])),
    ]);
    assert_eq!(sub_input(&input, "update"), dict(vec![("age", Value::I32(3))]));
    assert_eq!(sub_input(&input, "where"), dict(vec![]));
    assert_eq!(
        create_many_entries(&input),
        Ok(&vec![dict(vec![]), dict(vec![("a", Value::Null)])])
    );
    assert_eq!(
        create_many_entries(&dict(vec![])),
        Err(Error::MissingRequiredInput {
            expected: "array".to_string(),
            path: vec![key("create")]
        })
    );
    assert_eq!(
        create_many_entries(&dict(vec![("create", dict(vec![]))])),
        Err(Error::UnexpectedInputType {
            expected: "array".to_string(),
            path: vec![key("create")]
        })
    );
    assert_eq!(create_input(None, key_path("create")), Ok(dict(vec![])));
    let given = dict(vec![("a", Value::I32(1))]);
    assert_eq!(create_input(Some(&given), key_path("create")), Ok(dict(vec![("a", Value::I32(1))])));
    assert_eq!(
        create_input(Some(&Value::I32(1)), vec![key("create"), PathItem::Index(2)]),
        Err(Error::UnexpectedInputType {
            expected: "object".to_string(),
            path: vec![key("create"), PathItem::Index(2)]
        })
    );
}

#[test]
fn an_upsert_updates_what_it_found() {
    assert_eq!(UpsertBranch::of(true), UpsertBranch::Update);
    assert_eq!(UpsertBranch::of(false), UpsertBranch::Create);
    assert_eq!(UpsertBranch::Update.key(), "update");
    assert_eq!(UpsertBranch::Create.key(), "create");
    assert_eq!(
        UpsertBranch::Update.action(),
        Action::from_u32(UPSERT | UPDATE | ENTRY | SINGLE)
    );
    assert_eq!(
        UpsertBranch::Create.action(),
        Action::from_u32(UPSERT | CREATE | ENTRY | SINGLE)
    );
}

#[test]
fn inputs_go_to_the_transformers_whole_or_entry_by_entry() {
    let plain = dict(vec![("create", dict(vec![]))]);
    let list = dict(vec![("create", Value::Vec(vec![dict(vec![])]))]);
    let including = dict(vec![("create", dict(vec![])), ("include", dict(vec![]))]);
    let create = Action::from_u32(CREATE_HANDLER);
    let create_many = Action::from_u32(CREATE_MANY_HANDLER);
    let update = Action::from_u32(UPDATE_HANDLER);
    assert_eq!(transform_plan(false, &plain, create), TransformPlan::Untouched);
    assert_eq!(transform_plan(true, &plain, create), TransformPlan::Whole);
    assert_eq!(transform_plan(false, &including, create), TransformPlan::Whole);
    assert_eq!(transform_plan(true, &list, create), TransformPlan::EachEntry);
    assert_eq!(transform_plan(true, &list, create_many), TransformPlan::EachEntry);
    assert_eq!(transform_plan(true, &list, update), TransformPlan::Whole);
    assert_eq!(transform_plan(true, &dict(vec![]), create), TransformPlan::Whole);
    assert_eq!(transform_plan(false, &list, create_many), TransformPlan::Untouched);
}

#[test]
fn credentials_hold_one_identity_and_one_checker() {
    let identity_keys = keys(&["email", "phone"]);
    let by_keys = keys(&["password", "code"]);
    let good = dict(vec![(
        "credentials",
        dict(vec![("password", text("secret")), ("email", text("a@b.c"))]),
    )]);
    assert_eq!(
        read_credentials(&good, &identity_keys, &by_keys),
        Ok(Credentials {
            identity_key: "email".to_string(),
            identity_value: text("a@b.c"),
            by_key: "password".to_string(),
            by_value: text("secret"),
        })
    );
    assert_eq!(
        read_credentials(&dict(vec![]), &identity_keys, &by_keys),
        Err(Error::MissingRequiredInput {
            expected: "object".to_string(),
            path: vec![key("credentials")]
        })
    );
    assert_eq!(
        read_credentials(&dict(vec![("credentials", Value::I32(1))]), &identity_keys, &by_keys),
        Err(Error::UnexpectedInputType {
            expected: "object".to_string(),
            path: vec![key("credentials")]
        })
    );
    let two = dict(vec![(
        "credentials",
        dict(vec![("email", text("a")), ("phone", text("1")), ("password", text("s"))]),
    )]);
    assert_eq!(
        read_credentials(&two, &identity_keys, &by_keys),
        Err(Error::UnexpectedInputValue {
            reason: "Multiple auth identity provided".to_string(),
            path: vec![key("credentials"), key("phone")]
        })
    );
    let two_checkers = dict(vec![(
        "credentials",
        dict(vec![("password", text("s")), ("code", text("1")), ("email", text("a"))]),
    )]);
    assert_eq!(
        read_credentials(&two_checkers, &identity_keys, &by_keys),
        Err(Error::UnexpectedInputValue {
            reason: "Multiple auth checker provided".to_string(),
            path: vec![key("credentials"), key("code")]
        })
    );
    let unknown = dict(vec![(
        "credentials",
        dict(vec![("email", text("a")), ("name", text("n"))]),
    )]);
    assert_eq!(
        read_credentials(&unknown, &identity_keys, &by_keys),
        Err(Error::UnexpectedInputKey {
            key: "name".to_string(),
            path: vec![key("credentials"), key("name")]
        })
    );
    let no_identity = dict(vec![("credentials", dict(vec![("password", text("s"))]))]);
    assert_eq!(
        read_credentials(&no_identity, &identity_keys, &by_keys),
        Err(Error::MissingRequiredInput {
            expected: "auth identity".to_string(),
            path: vec![key("credentials")]
        })
    );
    let no_checker = dict(vec![("credentials", dict(vec![("email", text("a"))]))]);
    assert_eq!(
        read_credentials(&no_checker, &identity_keys, &by_keys),
        Err(Error::MissingRequiredInput {
            expected: "auth checker".to_string(),
            path: vec![key("credentials")]
        })
    );
}

#[test]
fn a_token_holds_for_a_year() {
    assert_eq!(token_expiry(0), Some(31_536_000));
    assert_eq!(token_expiry(1_700_000_000), Some(1_731_536_000));
    assert_eq!(token_expiry(-31_536_000), Some(0));
    assert_eq!(token_expiry(-31_536_001), None);
    assert_eq!(token_expiry(i64::MAX), None);
}

#[test]
fn field_names_say_where_values_go() {
    assert_eq!(field_name("avatar"), FieldName::Plain("avatar".to_string()));
    assert_eq!(field_name("photos[]"), FieldName::Item("photos".to_string()));
    assert_eq!(
        field_name("files[cover]"),
        FieldName::Entry("files".to_string(), "cover".to_string())
    );
    assert_eq!(
        field_name("a[b][c]"),
        FieldName::Entry("a[b]".to_string(), "c".to_string())
    );
    assert_eq!(field_name("odd]"), FieldName::Plain("odd]".to_string()));
    assert_eq!(field_name("[]"), FieldName::Item("".to_string()));
    assert_eq!(
        field_name_from("x]", None),
        FieldName::Plain("x]".to_string())
    );
    assert_eq!(
        field_name_from(
            "x[y]",
            Some(vec![Some("x[y]".to_string()), Some("x".to_string()), Some("y".to_string())])
        ),
        FieldName::Entry("x".to_string(), "y".to_string())
    );
    assert_eq!(
        field_name_from("x[y]", Some(vec![Some("x[y]".to_string()), None, Some("y".to_string())])),
        FieldName::Plain("x[y]".to_string())
    );
    assert_eq!(
        field_name_from("x[y]", Some(vec![Some("x[y]".to_string())])),
        FieldName::Plain("x[y]".to_string())
    );
    assert_eq!(
        field_name_from("plain", Some(vec![Some("a".to_string()), Some("b".to_string()), Some("c".to_string())])),
        FieldName::Plain("plain".to_string())
    );
}

#[test]
fn form_fields_are_gathered_into_one_object() {
    let form = Json::empty_object();
    let form = form_insert(form, &field_name("name"), Json::string("Ada"));
    let form = form_insert(form, &field_name("tags[]"), Json::string("a"));
    let form = form_insert(form, &field_name("tags[]"), Json::string("b"));
    let form = form_insert(form, &field_name("files[cover]"), Json::Integer(1));
    let form = form_insert(form, &field_name("files[back]"), Json::Integer(2));
    let form = form_insert(form, &field_name("name"), Json::string("Bob"));
    assert_eq!(
        form,
        Json::Object(vec![
            ("name".to_string(), Json::string("Bob")),
            (
                "tags".to_string(),
                Json::Array(vec![Json::string("a"), Json::string("b")])
            ),
            (
                "files".to_string(),
                Json::Object(vec![
                    ("cover".to_string(), Json::Integer(1)),
                    ("back".to_string(), Json::Integer(2)),
                ])
            ),
        ])
    );
    let form = form_insert(form, &field_name("name[]"), Json::Null);
    assert_eq!(form.get("name"), Some(&Json::Array(vec![Json::Null])));
    let form = form_insert(form, &field_name("tags[x]"), Json::Null);
    assert_eq!(
        form.get("tags"),
        Some(&Json::Object(vec![("x".to_string(), Json::Null)]))
    );
    assert_eq!(
        form_insert(Json::Null, &field_name("a"), Json::Null),
        Json::Null
    );
}

#[test]
fn a_file_is_entered_with_its_place_and_names() {
    assert_eq!(
        file_entry("/tmp/a.png", Some("image/png"), "a.png", None),
        Json::Object(vec![
            ("filepath".to_string(), Json::string("/tmp/a.png")),
            ("contentType".to_string(), Json::string("image/png")),
            ("filename".to_string(), Json::string("a.png")),
            ("filenameExt".to_string(), Json::Null),
        ])
    );
    assert_eq!(Json::string_or_null(Some("x")), Json::string("x"));
    assert!(Json::empty_object().is_object());
    assert!(!Json::Null.is_object());
    let tree = Json::Array(vec![Json::Object(vec![("a".to_string(), Json::Real("1.5".to_string()))])]);
    assert_eq!(tree.clone(), tree);
}

#[test]
fn dictionaries_are_read_and_written_by_key() {
    let value = dict(vec![("a", Value::I32(1)), ("b", Value::I32(2)), ("a", Value::I32(3))]);
    assert_eq!(value.get("a"), Some(&Value::I32(1)));
    assert_eq!(value.get("c"), None);
    assert_eq!(Value::I32(1).get("a"), None);
    assert!(value.is_dictionary());
    assert!(!value.is_vec());
    assert!(Value::Vec(vec![]).is_vec());
    let value = value.with_entry("b", Value::Null).with_entry("c", text("x"));
    assert_eq!(
        value,
        dict(vec![
            ("a", Value::I32(1)),
            ("b", Value::Null),
            ("a", Value::I32(3)),
            ("c", text("x")),
        ])
    );
    assert_eq!(Value::I32(1).with_entry("a", Value::Null), Value::I32(1));
    assert_eq!(Value::empty_dictionary(), dict(vec![]));
}

#[test]
fn request_errors_are_made_by_name() {
    assert_eq!(Error::destination_not_found(), Error::DestinationNotFound);
    assert_eq!(Error::invalid_auth_token(), Error::InvalidAuthToken);
    assert_eq!(Error::wrong_identity_model(), Error::WrongIdentityModel);
    assert_eq!(Error::incorrect_json_format(), Error::IncorrectJsonFormat);
    assert_eq!(
        Error::incorrect_form_format("bad".to_string()),
        Error::IncorrectFormFormat { reason: "bad".to_string() }
    );
    assert_eq!(
        Error::unexpected_input_root_type("object"),
        Error::UnexpectedInputRootType { expected: "object".to_string() }
    );
    assert_eq!(
        Error::unexpected_input_value("This identity is not found.", key_path2("credentials", "email")),
        Error::UnexpectedInputValue {
            reason: "This identity is not found.".to_string(),
            path: vec![key("credentials"), key("email")]
        }
    );
    assert_eq!(
        Error::permission_error(key_path("data"), "not allowed to read"),
        Error::PermissionError {
            reason: "not allowed to read".to_string(),
            path: vec![key("data")]
        }
    );
    assert_eq!(
        Error::internal_server_error("Memory overflow."),
        Error::InternalServerError { reason: "Memory overflow.".to_string() }
    );
}

#[test]
fn models_are_found_in_the_graph() {
    let mut graph = Graph::new();
    graph.models.push(Model::new("User"));
    graph.models.push(Model::new("Post"));
    assert_eq!(graph.model("Post").map(|m| m.name.clone()), Ok("Post".to_string()));
    assert_eq!(
        graph.model("Tag").map(|m| m.name.clone()),
        Err(Error::ModelNotFound { name: "Tag".to_string() })
    );
    let user_ctx = UserCtx::new(7u32);
    let ctx = user_ctx.model_ctx(&graph, "User").ok().unwrap();
    assert_eq!(ctx.model.name, "User");
    assert_eq!(*ctx.conn, 7);
    assert!(user_ctx.model_ctx(&graph, "Tag").is_err());
}

#[test]
fn relations_tell_what_they_join() {
    let relation = Relation::new("author", "User")
        .with_pair("authorId", "id")
        .with_pair("tenantId", "tenant")
        .with_optionality(Optionality::Required)
        .with_delete_rule(DeleteRule::Cascade)
        .with_vec(false);
    assert_eq!(relation.name(), "author");
    assert_eq!(relation.model(), "User");
    assert_eq!(relation.localized_name(), "");
    assert_eq!(relation.description(), "");
    assert_eq!(relation.optionality(), &Optionality::Required);
    assert!(relation.is_required());
    assert!(!relation.is_optional());
    assert_eq!(relation.through(), None);
    assert!(!relation.is_vec());
    assert_eq!(relation.fields(), &vec!["authorId".to_string(), "tenantId".to_string()]);
    assert_eq!(relation.references(), &vec!["id".to_string(), "tenant".to_string()]);
    assert_eq!(relation.local(), Some("authorId"));
    assert_eq!(relation.foreign(), Some("id"));
    assert_eq!(relation.delete_rule(), DeleteRule::Cascade);
    assert!(!relation.has_foreign_key());
    let bare = Relation::new("posts", "Post").with_vec(true);
    assert_eq!(bare.local(), None);
    assert_eq!(bare.foreign(), None);
    assert!(bare.is_vec());
    assert!(bare.is_optional());
    assert_eq!(bare.delete_rule(), DeleteRule::Default);
}

#[test]
fn a_body_grows_up_to_the_limit() {
    assert_eq!(grown_body(0, 10), Ok(10));
    assert_eq!(grown_body(262_000, 144), Ok(262_144));
    assert_eq!(
        grown_body(262_000, 145),
        Err(Error::InternalServerError { reason: "Memory overflow.".to_string() })
    );
    assert_eq!(
        grown_body(usize::MAX, 1),
        Err(Error::InternalServerError { reason: "Memory overflow.".to_string() })
    );
}

#[test]
fn the_root_of_a_body_is_an_object() {
    assert_eq!(object_root(&Json::empty_object()), Ok(()));
    assert_eq!(
        object_root(&Json::Array(vec![])),
        Err(Error::UnexpectedInputRootType { expected: "object".to_string() })
    );
    assert_eq!(
        object_root(&Json::Null),
        Err(Error::UnexpectedInputRootType { expected: "object".to_string() })
    );
}

#[test]
fn an_identity_is_of_its_own_model() {
    assert_eq!(identity_of_model(&keys(&["shop", "User"]), &keys(&["shop", "User"])), Ok(()));
    assert_eq!(identity_of_model(&keys(&[]), &keys(&[])), Ok(()));
    assert_eq!(
        identity_of_model(&keys(&["shop", "User"]), &keys(&["shop", "Admin"])),
        Err(Error::WrongIdentityModel)
    );
    assert_eq!(
        identity_of_model(&keys(&["User"]), &keys(&["shop", "User"])),
        Err(Error::WrongIdentityModel)
    );
}

#[test]
fn request_errors_have_codes_kinds_and_paths() {
    assert_eq!(Error::destination_not_found().code(), 404);
    assert_eq!(Error::model_not_found("User").code(), 404);
    assert_eq!(Error::invalid_auth_token().code(), 401);
    assert_eq!(Error::wrong_identity_model().code(), 401);
    assert_eq!(Error::permission_error(key_path("data"), "no").code(), 401);
    assert_eq!(Error::internal_server_error("x").code(), 500);
    assert_eq!(Error::incorrect_json_format().code(), 400);
    assert_eq!(Error::incorrect_form_format("x".to_string()).code(), 400);
    assert_eq!(Error::unexpected_input_root_type("object").code(), 400);
    assert_eq!(Error::unexpected_input_type("object", key_path("a")).code(), 400);
    assert_eq!(Error::unexpected_input_key("k", key_path("a")).code(), 400);
    assert_eq!(Error::unexpected_input_value("r", key_path("a")).code(), 400);
    assert_eq!(Error::missing_required_input_with_type("array", key_path("a")).code(), 400);
    assert_eq!(Error::destination_not_found().kind(), "DestinationNotFound");
    assert_eq!(Error::incorrect_json_format().kind(), "IncorrectJSONFormat");
    assert_eq!(Error::unexpected_input_key("k", key_path("a")).kind(), "UnexpectedInputKey");
    assert_eq!(Error::destination_not_found().path(), None);
    assert_eq!(
        Error::unexpected_input_key("k", key_path2("a", "k")).path(),
        Some(&vec![key("a"), key("k")])
    );
    assert_eq!(
        Error::permission_error(key_path("data"), "no").path(),
        Some(&vec![key("data")])
    );
}

#[test]
fn only_work_that_went_through_is_committed() {
    let done: Result<Value, Error> = Ok(Value::Null);
    assert!(commits(&done));
    let refused: Result<Value, Error> = Err(Error::unexpected_input_value("no", key_path("age")));
    assert!(!commits(&refused));
    let nothing: Result<(), Error> = Ok(());
    assert!(commits(&nothing));
}
