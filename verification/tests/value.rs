use teo::action::{
    Action, CREATE, CREATE_HANDLER, DELETE_MANY_HANDLER, ENTRY, FIND, FIND_FIRST_HANDLER,
    FIND_UNIQUE_HANDLER, MANY, NESTED, SINGLE, UPDATE,
};
use teo::collections::{contains_key, same_text, KeySet, ValueMap};
use teo::json::Json;
use teo::model::Type;
use teo::text::{chars_of, is_all_alphabetic, trim};
use teo::value::{DateTime, Order, Value, Whole};

fn text(s: &str) -> Value {
    Value::String(s.to_string())
}

#[test]
fn numbers_compare_by_what_they_hold() {
    assert_eq!(Value::I8(5).compare(&Value::U64(5)), Some(Order::Equal));
    assert_eq!(Value::I8(-5).compare(&Value::U64(5)), Some(Order::Less));
    assert_eq!(Value::U64(u64::MAX).compare(&Value::I64(i64::MAX)), Some(Order::Greater));
    assert_eq!(Value::I16(7).compare(&Value::I32(6)), Some(Order::Greater));
}

#[test]
fn strings_compare_lexicographically() {
    assert_eq!(text("abc").compare(&text("abd")), Some(Order::Less));
    assert_eq!(text("abc").compare(&text("ab")), Some(Order::Greater));
    assert_eq!(text("").compare(&text("")), Some(Order::Equal));
    assert_eq!(text("").compare(&text("a")), Some(Order::Less));
    assert_eq!(text("b").compare(&text("abc")), Some(Order::Greater));
    assert_eq!(text("é").compare(&text("z")), Some(Order::Greater));
    assert_eq!(text("same").compare(&text("same")), Some(Order::Equal));
}

#[test]
fn values_of_different_families_are_not_ordered() {
    assert_eq!(text("1").compare(&Value::I32(1)), None);
    assert_eq!(Value::I32(1).compare(&text("1")), None);
    assert_eq!(Value::Null.compare(&Value::Null), None);
    assert_eq!(Value::Bool(true).compare(&Value::Bool(false)), None);
    assert_eq!(Value::Vec(vec![]).compare(&Value::Vec(vec![])), None);
}

#[test]
fn accessors_give_what_the_variant_holds() {
    assert!(Value::Null.is_null());
    assert!(!Value::I32(0).is_null());
    assert_eq!(Value::Bool(true).as_bool(), Some(true));
    assert_eq!(Value::I32(1).as_bool(), None);
    assert_eq!(text("a").as_str(), Some("a"));
    assert_eq!(Value::ObjectId("a".to_string()).as_str(), None);
    assert_eq!(Value::Vec(vec![Value::Null]).as_vec(), Some(&vec![Value::Null]));
    assert_eq!(text("a").as_vec(), None);
    assert_eq!(Value::U64(u64::MAX).as_number(), Some(u64::MAX as i128));
    assert_eq!(Value::I8(-3).as_number(), Some(-3));
    assert_eq!(text("3").as_number(), None);
    assert_eq!(Value::I64(3).as_usize(), Some(3));
    assert_eq!(Value::I64(-3).as_usize(), None);
    assert_eq!(Value::Null.as_usize(), None);
}

#[test]
fn with_number_keeps_the_variant() {
    assert_eq!(Value::I8(0).with_number(127), Some(Value::I8(127)));
    assert_eq!(Value::I8(0).with_number(128), None);
    assert_eq!(Value::I8(0).with_number(-128), Some(Value::I8(-128)));
    assert_eq!(Value::I16(0).with_number(-32769), None);
    assert_eq!(Value::I32(0).with_number(1 << 31), None);
    assert_eq!(Value::I64(0).with_number(i64::MIN as i128), Some(Value::I64(i64::MIN)));
    assert_eq!(Value::U8(0).with_number(255), Some(Value::U8(255)));
    assert_eq!(Value::U8(0).with_number(-1), None);
    assert_eq!(Value::U16(0).with_number(65536), None);
    assert_eq!(Value::U32(9).with_number(7), Some(Value::U32(7)));
    assert_eq!(Value::U64(0).with_number(u64::MAX as i128), Some(Value::U64(u64::MAX)));
    assert_eq!(Value::U64(0).with_number(u64::MAX as i128 + 1), None);
    assert_eq!(text("a").with_number(1), None);
}

#[test]
fn a_copy_holds_the_same() {
    let value = Value::Dictionary(vec![
        ("list".to_string(), Value::Vec(vec![Value::I32(1), text("a"), Value::Null])),
        ("when".to_string(), Value::DateTime(DateTime { seconds: 1, nanos: 2 })),
        ("id".to_string(), Value::ObjectId("x".to_string())),
    ]);
    assert_eq!(value.clone(), value);
}

#[test]
fn values_are_read_from_json_by_type() {
    assert_eq!(Value::from_json(Type::Bool, &Json::Bool(true)), Some(Value::Bool(true)));
    assert_eq!(Value::from_json(Type::Bool, &Json::Integer(1)), None);
    assert_eq!(Value::from_json(Type::I8, &Json::Integer(-128)), Some(Value::I8(-128)));
    assert_eq!(Value::from_json(Type::I8, &Json::Integer(128)), None);
    assert_eq!(Value::from_json(Type::I16, &Json::Integer(300)), Some(Value::I16(300)));
    assert_eq!(Value::from_json(Type::I32, &Json::Integer(-7)), Some(Value::I32(-7)));
    assert_eq!(Value::from_json(Type::I64, &Json::Integer(1 << 40)), Some(Value::I64(1 << 40)));
    assert_eq!(Value::from_json(Type::I64, &Json::Integer(1 << 70)), None);
    assert_eq!(Value::from_json(Type::U8, &Json::Integer(255)), Some(Value::U8(255)));
    assert_eq!(Value::from_json(Type::U8, &Json::Integer(-1)), None);
    assert_eq!(Value::from_json(Type::U16, &Json::Integer(65535)), Some(Value::U16(65535)));
    assert_eq!(Value::from_json(Type::U32, &Json::Integer(1 << 32)), None);
    assert_eq!(
        Value::from_json(Type::U64, &Json::Integer(u64::MAX as i128)),
        Some(Value::U64(u64::MAX))
    );
    assert_eq!(Value::from_json(Type::I32, &Json::Real("1.5".to_string())), None);
    assert_eq!(Value::from_json(Type::String, &Json::String("a".to_string())), Some(text("a")));
    assert_eq!(Value::from_json(Type::String, &Json::Integer(1)), None);
    assert_eq!(
        Value::from_json(Type::ObjectId, &Json::String("a".to_string())),
        Some(Value::ObjectId("a".to_string()))
    );
    assert_eq!(Value::from_json(Type::I32, &Json::Null), Some(Value::Null));
    assert_eq!(Value::from_json(Type::String, &Json::Array(vec![])), None);
    assert_eq!(Value::from_json(Type::String, &Json::Object(vec![])), None);
    assert_eq!(
        Value::from_json(Type::DateTime, &Json::String("1970-01-01T00:00:01Z".to_string())),
        Some(Value::DateTime(DateTime { seconds: 1, nanos: 0 }))
    );
    assert_eq!(Value::from_json(Type::DateTime, &Json::String("1970".to_string())), None);
    assert_eq!(Value::from_json(Type::DateTime, &Json::Integer(1)), None);
}

#[test]
fn values_are_written_as_json() {
    assert_eq!(Value::Null.to_json(), Json::Null);
    assert_eq!(Value::Bool(false).to_json(), Json::Bool(false));
    assert_eq!(Value::I8(-1).to_json(), Json::Integer(-1));
    assert_eq!(Value::U64(u64::MAX).to_json(), Json::Integer(u64::MAX as i128));
    assert_eq!(text("a").to_json(), Json::String("a".to_string()));
    assert_eq!(Value::ObjectId("a".to_string()).to_json(), Json::String("a".to_string()));
    assert_eq!(
        Value::DateTime(DateTime { seconds: 851042397, nanos: 0 }).to_json(),
        Json::String("1996-12-20T00:39:57+00:00".to_string())
    );
    assert_eq!(
        Value::DateTime(DateTime { seconds: i64::MAX, nanos: 0 }).to_json(),
        Json::Null
    );
    assert_eq!(
        Value::Vec(vec![Value::I32(1), Value::Vec(vec![text("a")])]).to_json(),
        Json::Array(vec![Json::Integer(1), Json::Array(vec![Json::String("a".to_string())])])
    );
    assert_eq!(
        Value::Dictionary(vec![("k".to_string(), Value::Bool(true)), ("l".to_string(), Value::Null)])
            .to_json(),
        Json::Object(vec![("k".to_string(), Json::Bool(true)), ("l".to_string(), Json::Null)])
    );
}

#[test]
fn json_and_back_loses_nothing() {
    let cases = vec![
        (Type::Bool, Value::Bool(true)),
        (Type::I8, Value::I8(i8::MIN)),
        (Type::I16, Value::I16(i16::MAX)),
        (Type::I32, Value::I32(-5)),
        (Type::I64, Value::I64(i64::MIN)),
        (Type::U8, Value::U8(200)),
        (Type::U16, Value::U16(60000)),
        (Type::U32, Value::U32(u32::MAX)),
        (Type::U64, Value::U64(u64::MAX)),
        (Type::String, text("héllo")),
        (Type::ObjectId, Value::ObjectId("12345678901234567890abcd".to_string())),
        (Type::DateTime, Value::DateTime(DateTime { seconds: 851042397, nanos: 250 })),
        (Type::String, Value::Null),
    ];
    for (field_type, value) in cases {
        assert_eq!(Value::from_json(field_type, &value.to_json()), Some(value));
    }
}

#[test]
fn json_objects_are_read_by_key() {
    let json = Json::Object(vec![
        ("a".to_string(), Json::Integer(1)),
        ("b".to_string(), Json::Null),
        ("a".to_string(), Json::Integer(2)),
    ]);
    assert_eq!(json.get("a"), Some(&Json::Integer(1)));
    assert_eq!(json.get("b"), Some(&Json::Null));
    assert_eq!(json.get("c"), None);
    assert_eq!(Json::Array(vec![]).get("a"), None);
}

#[test]
fn actions_meet_matchers_group_by_group() {
    let creating = Action::from_u32(CREATE | ENTRY | SINGLE);
    assert_eq!(creating.to_u32(), CREATE_HANDLER);
    assert!(creating.matches(&Action::from_u32(CREATE)));
    assert!(creating.matches(&Action::from_u32(CREATE | UPDATE)));
    assert!(!creating.matches(&Action::from_u32(UPDATE)));
    assert!(!creating.matches(&Action::from_u32(CREATE | NESTED)));
    assert!(!creating.matches(&Action::from_u32(CREATE | MANY)));
    assert!(creating.matches(&Action::from_u32(ENTRY)));
    assert!(Action::from_u32(0).matches(&Action::from_u32(UPDATE)));
    assert!(creating.passes(&vec![Action::from_u32(UPDATE), Action::from_u32(CREATE)]));
    assert!(!creating.passes(&vec![Action::from_u32(UPDATE), Action::from_u32(FIND)]));
    assert!(!creating.passes(&vec![]));
}

#[test]
fn handlers_go_by_name() {
    assert_eq!(
        Action::handler_from_name("findUnique"),
        Some(Action::from_u32(FIND_UNIQUE_HANDLER))
    );
    assert_eq!(
        Action::handler_from_name("findFirst"),
        Some(Action::from_u32(FIND_FIRST_HANDLER))
    );
    assert_eq!(
        Action::handler_from_name("deleteMany"),
        Some(Action::from_u32(DELETE_MANY_HANDLER))
    );
    assert_ne!(FIND_UNIQUE_HANDLER, FIND_FIRST_HANDLER);
    assert_eq!(Action::handler_from_name("findunique"), None);
    assert_eq!(Action::handler_from_name(""), None);
    let names = [
        "findUnique", "findFirst", "findMany", "create", "update", "upsert", "delete",
        "createMany", "updateMany", "deleteMany", "count", "aggregate", "groupBy", "signIn",
        "identity",
    ];
    let mut seen: Vec<u32> = Vec::new();
    for name in names {
        let flags = Action::handler_from_name(name).unwrap().to_u32();
        assert!(!seen.contains(&flags));
        seen.push(flags);
    }
}

#[test]
fn key_sets_hold_each_key_once() {
    let mut set = KeySet::new();
    assert!(set.is_empty());
    set.insert("a".to_string());
    set.insert("b".to_string());
    set.insert("a".to_string());
    assert!(set.contains("a"));
    assert!(set.contains("b"));
    assert!(!set.contains("c"));
    assert_eq!(set.to_vec(), vec!["a".to_string(), "b".to_string()]);
    set.remove("a");
    assert!(!set.contains("a"));
    assert!(set.contains("b"));
    set.remove("z");
    set.extend(&vec!["c".to_string(), "b".to_string()]);
    assert_eq!(set.to_vec(), vec!["b".to_string(), "c".to_string()]);
    set.remove("b");
    set.remove("c");
    assert!(set.is_empty());
}

#[test]
fn value_maps_keep_the_last_value_of_a_key() {
    let mut map = ValueMap::new();
    assert_eq!(map.get("a"), None);
    map.insert("a".to_string(), Value::I32(1));
    map.insert("b".to_string(), Value::I32(2));
    map.insert("a".to_string(), Value::I32(3));
    assert_eq!(map.get("a"), Some(&Value::I32(3)));
    assert_eq!(map.get("b"), Some(&Value::I32(2)));
    assert!(map.contains_key("b"));
    assert!(!map.contains_key("c"));
    let copy = map.clone();
    assert_eq!(copy.get("a"), Some(&Value::I32(3)));
    assert_eq!(copy.get("c"), None);
}

#[test]
fn texts_are_compared_and_searched() {
    assert!(same_text("a", "a"));
    assert!(!same_text("a", "b"));
    assert!(!same_text("a", "ab"));
    assert!(contains_key(&vec!["a".to_string(), "b".to_string()], "b"));
    assert!(!contains_key(&vec!["a".to_string(), "b".to_string()], "c"));
    assert!(!contains_key(&vec![], ""));
    assert_eq!(chars_of("héy"), vec!['h', 'é', 'y']);
    assert_eq!(chars_of(""), Vec::<char>::new());
    assert_eq!(trim(" \u{a0}a b\u{3000}\r\n"), "a b");
    assert!(is_all_alphabetic("abcÉ"));
    assert!(is_all_alphabetic(""));
    assert!(!is_all_alphabetic("a b"));
}

#[test]
fn values_are_the_same_by_what_they_hold() {
    assert!(Value::I8(5).equals(&Value::U64(5)));
    assert!(!Value::I8(5).equals(&Value::U64(6)));
    assert!(!Value::I8(5).equals(&text("5")));
    assert!(Value::Null.equals(&Value::Null));
    assert!(!Value::Null.equals(&Value::Bool(false)));
    assert!(Value::Bool(true).equals(&Value::Bool(true)));
    assert!(!Value::Bool(true).equals(&Value::Bool(false)));
    assert!(text("a").equals(&text("a")));
    assert!(!text("a").equals(&text("b")));
    assert!(!text("a").equals(&Value::ObjectId("a".to_string())));
    assert!(Value::ObjectId("a".to_string()).equals(&Value::ObjectId("a".to_string())));
    let at = Value::DateTime(DateTime { seconds: 1, nanos: 2 });
    assert!(at.equals(&Value::DateTime(DateTime { seconds: 1, nanos: 2 })));
    assert!(!at.equals(&Value::DateTime(DateTime { seconds: 1, nanos: 3 })));
    let list = Value::Vec(vec![Value::I32(1), text("a"), Value::Vec(vec![Value::Null])]);
    assert!(list.equals(&Value::Vec(vec![Value::U8(1), text("a"), Value::Vec(vec![Value::Null])])));
    assert!(!list.equals(&Value::Vec(vec![Value::U8(1), text("a")])));
    assert!(!list.equals(&Value::Vec(vec![Value::U8(1), text("b"), Value::Vec(vec![Value::Null])])));
    assert!(!list.equals(&Value::I32(1)));
    assert!(!Value::I32(1).equals(&list));
    let map = Value::Dictionary(vec![("a".to_string(), Value::I32(1)), ("b".to_string(), list.clone())]);
    assert!(map.equals(&map.clone()));
    assert!(map.equals(&Value::Dictionary(vec![
        ("a".to_string(), Value::I64(1)),
        ("b".to_string(), list.clone())
    ])));
    assert!(!map.equals(&Value::Dictionary(vec![
        ("b".to_string(), list.clone()),
        ("a".to_string(), Value::I32(1))
    ])));
    assert!(!map.equals(&Value::Dictionary(vec![("a".to_string(), Value::I32(1))])));
    assert!(!map.equals(&list));
}

#[test]
fn the_widest_integers_are_numbers_too() {
    let top = Value::U128(u128::MAX);
    let low = Value::I128(i128::MIN);
    assert_eq!(top.compare(&low), Some(Order::Greater));
    assert_eq!(low.compare(&top), Some(Order::Less));
    assert_eq!(top.compare(&Value::U128(u128::MAX)), Some(Order::Equal));
    assert_eq!(top.compare(&Value::U128(u128::MAX - 1)), Some(Order::Greater));
    assert_eq!(Value::U128(5).compare(&Value::I8(5)), Some(Order::Equal));
    assert_eq!(Value::I128(-1).compare(&Value::U8(0)), Some(Order::Less));
    assert_eq!(Value::U128(1 << 127).compare(&Value::I128(i128::MAX)), Some(Order::Greater));
    assert!(Value::U128(7).equals(&Value::I128(7)));
    assert!(!top.equals(&Value::I128(-1)));
    assert_eq!(top.as_number(), None);
    assert_eq!(Value::U128(9).as_number(), Some(9));
    assert_eq!(low.as_number(), Some(i128::MIN));
    assert_eq!(top.as_whole(), Some(Whole::Above(u128::MAX)));
    assert_eq!(Value::U128(9).as_whole(), Some(Whole::Within(9)));
    assert_eq!(low.as_whole(), Some(Whole::Within(i128::MIN)));
    assert_eq!(Value::Null.as_whole(), None);
    assert_eq!(top.as_usize(), None);
    assert_eq!(Value::I128(3).as_usize(), Some(3));
    assert_eq!(Value::I128(0).with_number(-5), Some(Value::I128(-5)));
    assert_eq!(Value::U128(0).with_number(-5), None);
    assert_eq!(Value::U128(0).with_number(5), Some(Value::U128(5)));
    assert_eq!(Value::U128(0).with_whole(Whole::Above(u128::MAX)), Some(top.clone()));
    assert_eq!(Value::I128(0).with_whole(Whole::Above(u128::MAX)), None);
    assert_eq!(Value::U8(0).with_whole(Whole::Above(200)), Some(Value::U8(200)));
    assert_eq!(Value::U8(0).with_whole(Whole::Within(256)), None);
    assert_eq!(Whole::Within(-1).compare(&Whole::Above(0)), Order::Less);
    assert_eq!(Whole::Above(3).compare(&Whole::Within(3)), Order::Equal);
    assert_eq!(Whole::Above(u128::MAX).compare(&Whole::Above(1)), Order::Greater);
}

#[test]
fn the_widest_integers_go_to_json_and_back() {
    assert_eq!(Value::I128(i128::MIN).to_json(), Json::Integer(i128::MIN));
    assert_eq!(Value::U128(7).to_json(), Json::Integer(7));
    assert_eq!(Value::U128(u128::MAX).to_json(), Json::Unsigned(u128::MAX));
    assert_eq!(Value::from_json(Type::I128, &Json::Integer(-9)), Some(Value::I128(-9)));
    assert_eq!(Value::from_json(Type::U128, &Json::Integer(9)), Some(Value::U128(9)));
    assert_eq!(Value::from_json(Type::U128, &Json::Integer(-9)), None);
    assert_eq!(
        Value::from_json(Type::U128, &Json::Unsigned(u128::MAX)),
        Some(Value::U128(u128::MAX))
    );
    assert_eq!(Value::from_json(Type::U64, &Json::Unsigned(1)), None);
    assert_eq!(Value::from_json(Type::I128, &Json::Unsigned(1)), None);
    for (field_type, value) in vec![
        (Type::I128, Value::I128(i128::MAX)),
        (Type::I128, Value::I128(i128::MIN)),
        (Type::U128, Value::U128(0)),
        (Type::U128, Value::U128(u128::MAX)),
    ] {
        assert_eq!(Value::from_json(field_type, &value.to_json()), Some(value));
    }
    assert_eq!(Json::Unsigned(5).clone(), Json::Unsigned(5));
}
