use chat_component::record::{find, Field, FieldShape, Shape, Value, ValueKind};
use chat_component::text::{borrowed_text, copied_text, owned_text, same_text, IntoText};

#[test]
fn same_text_compares_characters() {
    assert!(same_text("", ""));
    assert!(same_text("text", "text"));
    assert!(!same_text("text", "texts"));
    assert!(!same_text("text", "tent"));
    assert!(!same_text("text", "Text"));
    assert!(!same_text("", "a"));
    assert!(same_text("gr\u{fc}n \u{1f600}", "gr\u{fc}n \u{1f600}"));
    assert!(!same_text("gr\u{fc}n", "grun"));
}

#[test]
fn into_text_keeps_the_characters() {
    assert_eq!("a\u{e9}".into_text(), "a\u{e9}");
    assert_eq!(String::from("b").into_text(), "b");
    assert_eq!((&String::from("c")).into_text(), "c");
    assert_eq!("".into_text(), "");
}

#[test]
fn optional_text_helpers_keep_the_text() {
    assert_eq!(owned_text(Some("a")), Some("a".to_string()));
    assert_eq!(owned_text(None::<&str>), None);
    assert_eq!(owned_text(Some(String::from("s"))), Some("s".to_string()));
    let held = Some("b".to_string());
    assert_eq!(copied_text(&held), held);
    assert_eq!(copied_text(&None), None);
    assert_eq!(borrowed_text(&held), Some(&"b".to_string()));
    assert_eq!(borrowed_text(&None), None);
}

#[test]
fn field_new_keeps_name_and_value() {
    let f = Field::new("bold", Value::Bool(true));
    assert_eq!(f.name, "bold");
    assert_eq!(f.value, Value::Bool(true));
    assert_eq!(Value::text("x"), Value::Text("x".to_string()));
}

#[test]
fn kind_names_the_form() {
    assert_eq!(Value::Null.kind(), ValueKind::Null);
    assert_eq!(Value::Bool(false).kind(), ValueKind::Bool);
    assert_eq!(Value::Number(-3).kind(), ValueKind::Number);
    assert_eq!(Value::text("t").kind(), ValueKind::Text);
    assert_eq!(Value::List(vec![]).kind(), ValueKind::List);
    assert_eq!(Value::Record(vec![]).kind(), ValueKind::Record);
}

#[test]
fn shape_of_a_record_lists_names_and_forms() {
    let v = Value::Record(vec![
        Field::new("text", Value::Number(5)),
        Field::new("extra", Value::List(vec![Value::Null])),
        Field::new("score", Value::Record(vec![Field::new("name", Value::text("a"))])),
    ]);
    assert_eq!(
        v.shape(),
        Shape {
            kind: ValueKind::Record,
            fields: vec![
                FieldShape { name: "text".to_string(), kind: ValueKind::Number },
                FieldShape { name: "extra".to_string(), kind: ValueKind::List },
                FieldShape { name: "score".to_string(), kind: ValueKind::Record },
            ],
        }
    );
}

#[test]
fn shape_of_other_values_has_no_fields() {
    assert_eq!(Value::Null.shape(), Shape { kind: ValueKind::Null, fields: vec![] });
    assert_eq!(
        Value::List(vec![Value::Record(vec![Field::new("text", Value::text("a"))])]).shape(),
        Shape { kind: ValueKind::List, fields: vec![] }
    );
    assert_eq!(Value::Record(vec![]).shape(), Shape { kind: ValueKind::Record, fields: vec![] });
}

#[test]
fn find_returns_the_first_field_of_that_name() {
    let fields = vec![
        Field::new("a", Value::Number(1)),
        Field::new("b", Value::Number(2)),
        Field::new("a", Value::Number(3)),
    ];
    assert_eq!(find(&fields, "a"), Some(&Value::Number(1)));
    assert_eq!(find(&fields, "b"), Some(&Value::Number(2)));
    assert_eq!(find(&fields, "c"), None);
    assert_eq!(find(&fields, ""), None);
    assert_eq!(find(&Vec::new(), "a"), None);
}

#[test]
fn get_looks_into_records_only() {
    let v = Value::Record(vec![Field::new("a", Value::Bool(true))]);
    assert_eq!(v.get("a"), Some(&Value::Bool(true)));
    assert_eq!(v.get("A"), None);
    assert_eq!(Value::List(vec![]).get("a"), None);
    assert_eq!(Value::text("a").get("a"), None);
}

#[test]
fn values_are_copied_deeply() {
    let v = Value::Record(vec![
        Field::new("list", Value::List(vec![Value::Null, Value::Number(7), Value::text("x")])),
        Field::new("inner", Value::Record(vec![Field::new("flag", Value::Bool(true))])),
    ]);
    let mut copy = v.clone();
    assert_eq!(copy, v);
    if let Value::Record(fields) = &mut copy {
        fields.push(Field::new("more", Value::Null));
    }
    assert_ne!(copy, v);
    let shape = v.shape();
    assert_eq!(shape.clone(), shape);
}
